//! Identifiers: short lowercase alphanumeric strings (cuid2 shaped) of length 10 or 16,
//! or one of a handful of reserved 5-letter names.
//!
//! The characters of an identifier are kept packed in a `u128`, one byte per character,
//! so that identifiers are plain `Copy` values that compare structurally.

use vstd::prelude::*;

verus! {

/// The byte at position `i` (little-endian) of a packed identifier.
pub open spec fn byte_at(packed: u128, i: u128) -> u128 {
    (packed >> (8u128 * i)) & 0xffu128
}

/// Characters accepted by `cuid2` after the first one.
pub open spec fn is_cuid2_char(c: char) -> bool {
    ('0' <= c && c <= '9') || ('a' <= c && c <= 'z')
}

/// `cuid::is_cuid2`: between 2 and 32 characters, a lowercase letter first, then
/// lowercase letters and digits.
pub open spec fn spec_is_cuid2(s: Seq<char>) -> bool {
    &&& 2 <= s.len() <= 32
    &&& 'a' <= s[0] && s[0] <= 'z'
    &&& forall|i: int| 0 <= i < s.len() ==> #[trigger] is_cuid2_char(s[i])
}

/// The code of a character, as stored in a packed identifier.
pub open spec fn code(c: char) -> u128 {
    (c as u32) as u128
}

proof fn lemma_bytes_determine(p: u128, q: u128)
    by (bit_vector)
    requires
        (p >> 0u128) & 0xffu128 == (q >> 0u128) & 0xffu128,
        (p >> 8u128) & 0xffu128 == (q >> 8u128) & 0xffu128,
        (p >> 16u128) & 0xffu128 == (q >> 16u128) & 0xffu128,
        (p >> 24u128) & 0xffu128 == (q >> 24u128) & 0xffu128,
        (p >> 32u128) & 0xffu128 == (q >> 32u128) & 0xffu128,
        (p >> 40u128) & 0xffu128 == (q >> 40u128) & 0xffu128,
        (p >> 48u128) & 0xffu128 == (q >> 48u128) & 0xffu128,
        (p >> 56u128) & 0xffu128 == (q >> 56u128) & 0xffu128,
        (p >> 64u128) & 0xffu128 == (q >> 64u128) & 0xffu128,
        (p >> 72u128) & 0xffu128 == (q >> 72u128) & 0xffu128,
        (p >> 80u128) & 0xffu128 == (q >> 80u128) & 0xffu128,
        (p >> 88u128) & 0xffu128 == (q >> 88u128) & 0xffu128,
        (p >> 96u128) & 0xffu128 == (q >> 96u128) & 0xffu128,
        (p >> 104u128) & 0xffu128 == (q >> 104u128) & 0xffu128,
        (p >> 112u128) & 0xffu128 == (q >> 112u128) & 0xffu128,
        (p >> 120u128) & 0xffu128 == (q >> 120u128) & 0xffu128,
    ensures
        p == q,
{
}

proof fn lemma_zero_bytes(j: u128)
    by (bit_vector)
    requires
        j < 16,
    ensures
        (0u128 >> (8u128 * j)) & 0xffu128 == 0,
{
}

proof fn lemma_set_byte(p: u128, c: u128, i: u128, j: u128)
    by (bit_vector)
    requires
        i < 16,
        j < 16,
        c < 256,
        (p >> (8u128 * i)) & 0xffu128 == 0,
    ensures
        ((p | (c << (8u128 * i))) >> (8u128 * j)) & 0xffu128 == if j == i {
            c
        } else {
            (p >> (8u128 * j)) & 0xffu128
        },
{
}

/// Packs at most 16 ASCII characters into a `u128`, one byte each.
fn pack_chars(chars: &Vec<char>) -> (packed: u128)
    requires
        chars@.len() <= 16,
        forall|i: int| 0 <= i < chars@.len() ==> (chars@[i] as u32) < 128,
    ensures
        forall|j: u128| j < chars@.len() ==> byte_at(packed, j) == code(chars@[j as int]),
        forall|j: u128| chars@.len() <= j < 16 ==> byte_at(packed, j) == 0,
{
    let mut p: u128 = 0;
    let mut i: usize = 0;
    proof {
        assert forall|j: u128| 0 <= j < 16 implies byte_at(p, j) == 0 by {
            lemma_zero_bytes(j);
        }
    }
    while i < chars.len()
        invariant
            i <= chars@.len() <= 16,
            forall|k: int| 0 <= k < chars@.len() ==> (chars@[k] as u32) < 128,
            forall|j: u128| j < i ==> byte_at(p, j) == code(chars@[j as int]),
            forall|j: u128| i <= j < 16 ==> byte_at(p, j) == 0,
        decreases chars@.len() - i,
    {
        let c: u128 = chars[i] as u32 as u128;
        let ii: u128 = i as u128;
        let old_p = p;
        assert(byte_at(old_p, ii) == 0);
        p = p | (c << (8u128 * ii));
        proof {
            assert forall|j: u128| j < 16 implies byte_at(p, j) == if j == ii {
                c
            } else {
                byte_at(old_p, j)
            } by {
                lemma_set_byte(old_p, c, ii, j);
            }
        }
        i = i + 1;
    }
    p
}

} // verus!

verus! {

/// The characters of a string slice, in order.
pub fn chars_of(s: &str) -> (v: Vec<char>)
    ensures
        v@ == s@,
{
    let mut v: Vec<char> = Vec::new();
    for c in it: s.chars()
        invariant
            v@ == it.seq().take(it.index() as int),
    {
        v.push(c);
    }
    v
}

} // verus!

verus! {

/// The characters of a packed identifier: at most 16 bytes, little-endian, zero padded.
#[derive(Clone, Copy, PartialEq, Eq, Structural, Debug, Hash)]
pub struct IdentText {
    len: u8,
    packed: u128,
}

impl View for IdentText {
    type V = Seq<char>;

    closed spec fn view(&self) -> Seq<char> {
        Seq::new(self.len as nat, |i: int| byte_at(self.packed, i as u128) as u32 as char)
    }
}

impl IdentText {
    /// The number of characters.
    pub closed spec fn spec_len(&self) -> nat {
        self.len as nat
    }

    /// At most 16 characters, all cuid2 characters, the unused bytes zero.
    pub closed spec fn wf(&self) -> bool {
        &&& self.len <= 16
        &&& forall|j: u128| j < self.len ==> is_cuid2_char(byte_at(self.packed, j) as u32 as char)
        &&& forall|j: u128| j < self.len ==> byte_at(self.packed, j) < 128
        &&& forall|j: u128| self.len <= j < 16 ==> byte_at(self.packed, j) == 0
    }

    /// Texts with the same characters are the same text.
    proof fn lemma_determined(a: IdentText, b: IdentText)
        requires
            a.wf(),
            b.wf(),
            a@ == b@,
        ensures
            a == b,
    {
        assert(a.len == b.len) by {
            assert(a@.len() == a.len as nat);
            assert(b@.len() == b.len as nat);
        }
        assert forall|j: u128| j < 16 implies byte_at(a.packed, j) == byte_at(b.packed, j) by {
            if j < a.len {
                let x = byte_at(a.packed, j);
                let y = byte_at(b.packed, j);
                assert(a@[j as int] == b@[j as int]);
                assert(a@[j as int] == (x as u32) as char);
                assert(b@[j as int] == (y as u32) as char);
                assert(x < 128 && y < 128);
                assert(((x as u32) as char) as u32 == x as u32);
                assert(((y as u32) as char) as u32 == y as u32);
                assert(x as u32 == y as u32);
            }
        }
        let p = a.packed;
        let q = b.packed;
        assert(byte_at(p, 0) == byte_at(q, 0));
        assert(byte_at(p, 1) == byte_at(q, 1));
        assert(byte_at(p, 2) == byte_at(q, 2));
        assert(byte_at(p, 3) == byte_at(q, 3));
        assert(byte_at(p, 4) == byte_at(q, 4));
        assert(byte_at(p, 5) == byte_at(q, 5));
        assert(byte_at(p, 6) == byte_at(q, 6));
        assert(byte_at(p, 7) == byte_at(q, 7));
        assert(byte_at(p, 8) == byte_at(q, 8));
        assert(byte_at(p, 9) == byte_at(q, 9));
        assert(byte_at(p, 10) == byte_at(q, 10));
        assert(byte_at(p, 11) == byte_at(q, 11));
        assert(byte_at(p, 12) == byte_at(q, 12));
        assert(byte_at(p, 13) == byte_at(q, 13));
        assert(byte_at(p, 14) == byte_at(q, 14));
        assert(byte_at(p, 15) == byte_at(q, 15));
        lemma_bytes_determine(p, q);
    }

    fn from_chars(chars: &Vec<char>) -> (t: IdentText)
        requires
            chars@.len() <= 16,
            forall|i: int| 0 <= i < chars@.len() ==> #[trigger] is_cuid2_char(chars@[i]),
        ensures
            t@ == chars@,
            t.wf(),
    {
        assert forall|i: int| 0 <= i < chars@.len() implies (chars@[i] as u32) < 128 by {
            assert(is_cuid2_char(chars@[i]));
        }
        let packed = pack_chars(chars);
        let t = IdentText { len: chars.len() as u8, packed };
        assert forall|i: int| 0 <= i < chars@.len() implies byte_at(packed, i as u128) as u32 as char
            == chars@[i] by {
            let c = chars@[i];
            assert(byte_at(packed, i as u128) == code(c));
            assert((byte_at(packed, i as u128) as u32) == (c as u32));
            vstd::utf8::char_u32_cast(c, c as u32);
        }
        assert(t@ =~= chars@);
        assert forall|j: u128| j < t.len implies is_cuid2_char(byte_at(t.packed, j) as u32 as char)
            && byte_at(t.packed, j) < 128 by {
            assert(byte_at(packed, j) == code(chars@[j as int]));
            assert(is_cuid2_char(chars@[j as int]));
        }
        t
    }

    /// The characters, unpacked.
    fn chars(&self) -> (v: Vec<char>)
        requires
            self.wf(),
        ensures
            v@ == self@,
    {
        let mut v: Vec<char> = Vec::new();
        let mut i: u8 = 0;
        while i < self.len
            invariant
                self.wf(),
                i <= self.len,
                v@ =~= self@.take(i as int),
            decreases self.len - i,
        {
            let b: u128 = (self.packed >> (8u128 * (i as u128))) & 0xffu128;
            assert(b == byte_at(self.packed, i as u128));
            let c: char = (b as u8) as char;
            v.push(c);
            i = i + 1;
        }
        v
    }
}

} // verus!

verus! {

/// An identifier. `Cuid10` and `Cuid16` hold generated or parsed cuid2 strings of at most
/// 10 and 16 characters; `Custom` holds one of the reserved 5-letter names.
#[derive(Clone, Copy, PartialEq, Eq, Structural, Debug, Hash)]
pub enum Ident {
    Cuid10(IdentText),
    Cuid16(IdentText),
    Custom(IdentText),
}

/// Why a string or a byte sequence is not an identifier.
#[derive(Debug, Clone, PartialEq, Eq)]
pub enum IdentError {
    /// The bytes are not UTF-8; holds the decoder's message.
    Parse(String),
    /// The string is not a valid identifier; holds the string.
    InvalidId(String),
}

/// The reserved 5-letter identifiers.
pub open spec fn is_reserved_name(s: Seq<char>) -> bool {
    ||| s == seq!['d', 'y', 'l', 'a', 'n']
    ||| s == seq!['g', 'r', 'a', 'c', 'e']
    ||| s == seq!['h', 'e', 'n', 'r', 'y']
    ||| s == seq!['a', 'n', 'n', 'i', 'e']
    ||| s == seq!['i', 's', 'a', 'a', 'c']
    ||| s == seq!['s', 'a', 'r', 'a', 'h']
    ||| s == seq!['u', 'i', 'n', 'i', 't']
}

/// Whether `s` is the text of an identifier.
pub open spec fn spec_is_ident(s: Seq<char>) -> bool {
    &&& spec_is_cuid2(s)
    &&& (s.len() == 5 && is_reserved_name(s)) || s.len() == 10 || s.len() == 16
}

impl View for Ident {
    type V = Seq<char>;

    open spec fn view(&self) -> Seq<char> {
        match self {
            Ident::Cuid10(t) => t@,
            Ident::Cuid16(t) => t@,
            Ident::Custom(t) => t@,
        }
    }
}

impl Ident {
    /// Every identifier is made of cuid2 characters, within the capacity of its variant;
    /// a custom identifier is a reserved name.
    pub open spec fn wf(&self) -> bool {
        match self {
            Ident::Cuid10(t) => t.wf() && t@.len() <= 10,
            Ident::Cuid16(t) => t.wf() && t@.len() <= 16,
            Ident::Custom(t) => t.wf() && is_reserved_name(t@),
        }
    }

    /// An identifier is determined by its kind and its text; so parsing the text of an
    /// identifier of the kind its length gives back that identifier.
    pub proof fn lemma_determined_by_text(a: Ident, b: Ident)
        requires
            a.wf(),
            b.wf(),
            a@ == b@,
            a is Cuid10 <==> b is Cuid10,
            a is Cuid16 <==> b is Cuid16,
        ensures
            a == b,
    {
        match (a, b) {
            (Ident::Cuid10(x), Ident::Cuid10(y)) => IdentText::lemma_determined(x, y),
            (Ident::Cuid16(x), Ident::Cuid16(y)) => IdentText::lemma_determined(x, y),
            (Ident::Custom(x), Ident::Custom(y)) => IdentText::lemma_determined(x, y),
            _ => {},
        }
    }

    /// The identifier named `uinit`, used for values that were never set.
    pub open spec fn spec_nil() -> Ident {
        Ident::Custom(IdentText::spec_uinit())
    }
}

impl IdentText {
    pub closed spec fn spec_uinit() -> IdentText {
        IdentText { len: 5, packed: 0x74696e6975u128 }
    }

    proof fn lemma_uinit()
        ensures
            Self::spec_uinit().wf(),
            Self::spec_uinit()@ == seq!['u', 'i', 'n', 'i', 't'],
    {
        let p: u128 = 0x74696e6975u128;
        assert(byte_at(p, 0) == 0x75 && byte_at(p, 1) == 0x69 && byte_at(p, 2) == 0x6e
            && byte_at(p, 3) == 0x69 && byte_at(p, 4) == 0x74) by (bit_vector)
            requires
                p == 0x74696e6975u128,
        ;
        assert forall|j: u128| 5 <= j < 16 implies byte_at(p, j) == 0 by {
            assert(byte_at(p, j) == 0) by (bit_vector)
                requires
                    p == 0x74696e6975u128,
                    5 <= j < 16,
            ;
        }
        let t = Self::spec_uinit();
        assert(t@ =~= seq!['u', 'i', 'n', 'i', 't']);
    }
}

/// `cuid::is_cuid2`.
#[verifier::external_body]
fn cuid_is_cuid2(s: &str) -> (r: bool)
    ensures
        r == spec_is_cuid2(s@),
{
    cuid::is_cuid2(s)
}

/// `cuid::cuid2_slug`: a fresh random cuid2 of at most 10 characters.
#[verifier::external_body]
fn cuid_slug() -> (r: String)
    ensures
        spec_is_cuid2(r@),
        r@.len() <= 10,
{
    cuid::cuid2_slug()
}

/// `cuid::Cuid2Constructor::create_id` with length 16: a fresh random cuid2 of at most
/// 16 characters.
#[verifier::external_body]
fn cuid_create_16() -> (r: String)
    ensures
        spec_is_cuid2(r@),
        r@.len() <= 16,
{
    cuid::Cuid2Constructor::new().with_length(16).create_id()
}

/// Appends the characters of the text.
pub fn push_chars(v: &mut Vec<char>, s: &str)
    ensures
        final(v)@ == old(v)@ + s@,
{
    let c = chars_of(s);
    let mut i: usize = 0;
    while i < c.len()
        invariant
            i <= c@.len(),
            c@ == s@,
            v@ == old(v)@ + c@.take(i as int),
        decreases c@.len() - i,
    {
        assert(c@.take(i as int + 1) =~= c@.take(i as int).push(c@[i as int]));
        v.push(c[i]);
        i = i + 1;
    }
    assert(c@.take(c@.len() as int) =~= c@);
}

/// Builds a `String` from its characters (`FromIterator<char>`).
#[verifier::external_body]
pub(crate) fn string_from_chars(v: &Vec<char>) -> (s: String)
    ensures
        s@ == v@,
{
    v.iter().collect()
}

/// The message that `std::str::Utf8Error` displays for bytes that are not UTF-8.
pub uninterp spec fn utf8_error_message(bytes: Seq<u8>) -> Seq<char>;

/// `std::str::from_utf8`, with the error turned into its message.
#[verifier::external_body]
fn str_from_utf8(bytes: &[u8]) -> (r: Result<&str, String>)
    ensures
        r is Ok <==> vstd::utf8::valid_utf8(bytes@),
        r matches Ok(s) ==> s@ == vstd::utf8::decode_utf8(bytes@),
        r matches Err(m) ==> m@ == utf8_error_message(bytes@),
{
    match std::str::from_utf8(bytes) {
        Ok(s) => Ok(s),
        Err(e) => Err(e.to_string()),
    }
}

fn is_word(v: &Vec<char>, a: char, b: char, c: char, d: char, e: char) -> (r: bool)
    requires
        v@.len() == 5,
    ensures
        r == (v@ == seq![a, b, c, d, e]),
{
    let r = v[0] == a && v[1] == b && v[2] == c && v[3] == d && v[4] == e;
    assert(r ==> v@ =~= seq![a, b, c, d, e]);
    r
}

fn is_reserved(v: &Vec<char>) -> (r: bool)
    requires
        v@.len() == 5,
    ensures
        r == is_reserved_name(v@),
{
    is_word(v, 'd', 'y', 'l', 'a', 'n') || is_word(v, 'g', 'r', 'a', 'c', 'e') || is_word(
        v,
        'h',
        'e',
        'n',
        'r',
        'y',
    ) || is_word(v, 'a', 'n', 'n', 'i', 'e') || is_word(v, 'i', 's', 'a', 'a', 'c') || is_word(
        v,
        's',
        'a',
        'r',
        'a',
        'h',
    ) || is_word(v, 'u', 'i', 'n', 'i', 't')
}

impl Ident {
    /// A fresh random 10-character-class identifier.
    pub fn new10() -> (id: Ident)
        ensures
            id.wf(),
            id is Cuid10,
            spec_is_cuid2(id@),
            id@.len() <= 10,
    {
        let s = cuid_slug();
        let v = chars_of(s.as_str());
        Ident::Cuid10(IdentText::from_chars(&v))
    }

    /// A fresh random 16-character-class identifier.
    pub fn new16() -> (id: Ident)
        ensures
            id.wf(),
            id is Cuid16,
            spec_is_cuid2(id@),
            id@.len() <= 16,
    {
        let s = cuid_create_16();
        let v = chars_of(s.as_str());
        Ident::Cuid16(IdentText::from_chars(&v))
    }

    /// A freshly generated identifier is never the nil identifier: the generated kinds
    /// are cuid2 texts, the nil identifier is the reserved name `uinit`.
    pub proof fn lemma_fresh_is_not_nil(id: Ident)
        requires
            id is Cuid10 || id is Cuid16,
        ensures
            id != Ident::spec_nil(),
    {
    }

    /// The identifier `uinit`.
    pub fn nil() -> (id: Ident)
        ensures
            id == Ident::spec_nil(),
            id.wf(),
            id@ == seq!['u', 'i', 'n', 'i', 't'],
    {
        proof {
            IdentText::lemma_uinit();
        }
        Ident::Custom(IdentText { len: 5, packed: 0x74696e6975u128 })
    }

    /// Parses an identifier: a cuid2 string of 10 or 16 characters, or a reserved name.
    pub fn from_str(s: &str) -> (r: Result<Ident, IdentError>)
        ensures
            r is Ok <==> spec_is_ident(s@),
            r matches Ok(id) ==> {
                &&& id.wf()
                &&& id@ == s@
                &&& (s@.len() == 5 <==> id is Custom)
                &&& (s@.len() == 10 <==> id is Cuid10)
                &&& (s@.len() == 16 <==> id is Cuid16)
            },
            r matches Err(e) ==> (e matches IdentError::InvalidId(t) && t@ == s@),
    {
        if !cuid_is_cuid2(s) {
            return Err(IdentError::InvalidId(s.to_owned()));
        }
        let v = chars_of(s);
        assert forall|i: int| 0 <= i < v@.len() implies #[trigger] is_cuid2_char(v@[i]) by {
            assert(is_cuid2_char(s@[i]));
        }
        let n = v.len();
        if n == 5 {
            if is_reserved(&v) {
                Ok(Ident::Custom(IdentText::from_chars(&v)))
            } else {
                Err(IdentError::InvalidId(s.to_owned()))
            }
        } else if n == 10 {
            Ok(Ident::Cuid10(IdentText::from_chars(&v)))
        } else if n == 16 {
            Ok(Ident::Cuid16(IdentText::from_chars(&v)))
        } else {
            Err(IdentError::InvalidId(s.to_owned()))
        }
    }

    /// Parses an identifier from its UTF-8 bytes.
    pub fn try_from_bytes(bytes: &[u8]) -> (r: Result<Ident, IdentError>)
        ensures
            !vstd::utf8::valid_utf8(bytes@) ==> (r matches Err(IdentError::Parse(m)) && m@
                == utf8_error_message(bytes@)),
            vstd::utf8::valid_utf8(bytes@) ==> {
                let s = vstd::utf8::decode_utf8(bytes@);
                &&& r is Ok <==> spec_is_ident(s)
                &&& r matches Ok(id) ==> id.wf() && id@ == s
                &&& r matches Err(e) ==> (e matches IdentError::InvalidId(t) && t@ == s)
            },
    {
        match str_from_utf8(bytes) {
            Ok(s) => Ident::from_str(s),
            Err(m) => Err(IdentError::Parse(m)),
        }
    }

    fn text(&self) -> (t: &IdentText)
        ensures
            t@ == self@,
            self.wf() ==> t.wf(),
    {
        match self {
            Ident::Cuid10(t) => t,
            Ident::Cuid16(t) => t,
            Ident::Custom(t) => t,
        }
    }

    /// The text of the identifier.
    pub fn as_str(&self) -> (s: String)
        requires
            self.wf(),
        ensures
            s@ == self@,
    {
        let v = self.text().chars();
        string_from_chars(&v)
    }

    /// The bytes of the identifier's text (one ASCII byte per character).
    pub fn as_bytes(&self) -> (b: Vec<u8>)
        requires
            self.wf(),
        ensures
            b@.len() == self@.len(),
            forall|i: int| 0 <= i < b@.len() ==> b@[i] as u32 == #[trigger] self@[i] as u32,
    {
        let v = self.text().chars();
        let mut b: Vec<u8> = Vec::new();
        let mut i: usize = 0;
        while i < v.len()
            invariant
                self.wf(),
                v@ == self@,
                i <= v@.len(),
                b@.len() == i,
                forall|k: int| 0 <= k < i ==> b@[k] as u32 == #[trigger] v@[k] as u32,
            decreases v@.len() - i,
        {
            let c = v[i];
            proof {
                self.lemma_chars_ascii(i as int);
            }
            b.push(c as u32 as u8);
            i = i + 1;
        }
        b
    }

    proof fn lemma_chars_ascii(&self, i: int)
        requires
            self.wf(),
            0 <= i < self@.len(),
        ensures
            (self@[i] as u32) < 128,
    {
        let t = match self {
            Ident::Cuid10(t) => t,
            Ident::Cuid16(t) => t,
            Ident::Custom(t) => t,
        };
        t.lemma_ascii(i);
    }
}

impl IdentText {
    proof fn lemma_ascii(&self, i: int)
        requires
            self.wf(),
            0 <= i < self@.len(),
        ensures
            (self@[i] as u32) < 128,
    {
        assert(byte_at(self.packed, i as u128) < 128);
        assert(is_cuid2_char(self@[i]));
    }
}

impl Default for Ident {
    fn default() -> (id: Ident)
        ensures
            id == Ident::spec_nil(),
    {
        Ident::nil()
    }
}

} // verus!
