//! Names of journals, accounts, funds and activities; memos of transactions.

use vstd::prelude::*;

verus! {

/// Whether the character has the Unicode `White_Space` property: U+0009 to U+000D,
/// U+0020, U+0085, U+00A0, U+1680, U+2000 to U+200A, U+2028, U+2029, U+202F, U+205F and
/// U+3000.
pub open spec fn unicode_white_space(c: char) -> bool {
    let u = c as u32;
    ||| 0x09 <= u <= 0x0d
    ||| u == 0x20
    ||| u == 0x85
    ||| u == 0xa0
    ||| u == 0x1680
    ||| 0x2000 <= u <= 0x200a
    ||| u == 0x2028
    ||| u == 0x2029
    ||| u == 0x202f
    ||| u == 0x205f
    ||| u == 0x3000
}

/// Whether the character has the Unicode `White_Space` property, as
/// `char::is_whitespace` decides it.
fn is_whitespace(c: char) -> (r: bool)
    ensures
        r == unicode_white_space(c),
{
    let u = c as u32;
    (0x09 <= u && u <= 0x0d) || u == 0x20 || u == 0x85 || u == 0xa0 || u == 0x1680 || (0x2000 <= u
        && u <= 0x200a) || u == 0x2028 || u == 0x2029 || u == 0x202f || u == 0x205f || u == 0x3000
}

/// The number of bytes of the UTF-8 encoding of the characters.
pub open spec fn utf8_len(s: Seq<char>) -> nat {
    vstd::utf8::encode_utf8(s).len()
}

/// Every character is whitespace (so the trimmed text is empty).
pub open spec fn all_white_space(s: Seq<char>) -> bool {
    forall|i: int| 0 <= i < s.len() ==> #[trigger] unicode_white_space(s[i])
}

fn is_blank(s: &str) -> (r: bool)
    ensures
        r == all_white_space(s@),
{
    let v = crate::ident::chars_of(s);
    let mut i: usize = 0;
    while i < v.len()
        invariant
            v@ == s@,
            i <= v@.len(),
            forall|j: int| 0 <= j < i ==> #[trigger] unicode_white_space(v@[j]),
        decreases v@.len() - i,
    {
        if !is_whitespace(v[i]) {
            return false;
        }
        i = i + 1;
    }
    true
}

/// A name: not blank and at most 64 bytes long.
#[derive(Debug, Hash)]
pub struct Name(String);

/// Why a string is not a name.
#[derive(Debug, PartialEq, Eq)]
pub enum NameError {
    /// The name is empty or only whitespace; holds the name.
    TooShort(String),
    /// The name is longer than 64 bytes; holds the name.
    TooLong(String),
}

impl View for Name {
    type V = Seq<char>;

    closed spec fn view(&self) -> Seq<char> {
        self.0@
    }
}

impl Name {
    /// Accepts the name unless it is blank or longer than 64 bytes.
    pub fn try_new(n: String) -> (r: Result<Name, NameError>)
        ensures
            all_white_space(n@) ==> (r matches Err(NameError::TooShort(s)) && s@ == n@),
            !all_white_space(n@) && utf8_len(n@) > 64 ==> (r matches Err(NameError::TooLong(s))
                && s@ == n@),
            !all_white_space(n@) && utf8_len(n@) <= 64 ==> (r matches Ok(m) && m@ == n@),
    {
        if is_blank(n.as_str()) {
            Err(NameError::TooShort(n))
        } else if n.as_str().as_bytes().len() > 64 {
            Err(NameError::TooLong(n))
        } else {
            Ok(Name(n))
        }
    }

    /// The text of the name.
    pub fn as_str(&self) -> (s: &str)
        ensures
            s@ == self@,
    {
        self.0.as_str()
    }

    /// The name of the fund that every journal starts with.
    pub(crate) fn general() -> (n: Name)
        ensures
            n@ == "General"@,
    {
        Name("General".to_owned())
    }
}

impl Clone for Name {
    fn clone(&self) -> (r: Self)
        ensures
            r == *self,
    {
        Name(self.0.clone())
    }
}

impl Default for Name {
    fn default() -> (r: Self)
        ensures
            r@ == "examplename"@,
    {
        Name("examplename".to_owned())
    }
}

/// A transaction memo: at most 100 characters long.
#[derive(Debug, Hash)]
pub struct Memo(String);

/// The memo is longer than 100 characters; holds the memo.
#[derive(Debug, PartialEq, Eq)]
pub struct MemoError(pub String);

impl View for Memo {
    type V = Seq<char>;

    closed spec fn view(&self) -> Seq<char> {
        self.0@
    }
}

impl Memo {
    /// Accepts the memo unless it is longer than 100 characters.
    pub fn try_new(n: String) -> (r: Result<Memo, MemoError>)
        ensures
            n@.len() > 100 ==> (r matches Err(MemoError(s)) && s@ == n@),
            n@.len() <= 100 ==> (r matches Ok(m) && m@ == n@),
    {
        if crate::ident::chars_of(n.as_str()).len() > 100 {
            Err(MemoError(n))
        } else {
            Ok(Memo(n))
        }
    }

    /// The text of the memo.
    pub fn as_str(&self) -> (s: &str)
        ensures
            s@ == self@,
    {
        self.0.as_str()
    }
}

impl Clone for Memo {
    fn clone(&self) -> (r: Self)
        ensures
            r == *self,
    {
        Memo(self.0.clone())
    }
}

impl Default for Memo {
    fn default() -> (r: Self)
        ensures
            r@ == "example memo"@,
    {
        Memo("example memo".to_owned())
    }
}

} // verus!
