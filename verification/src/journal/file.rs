//! Files uploaded to a journal.

use crate::authority::Authority;
use crate::ident::IdentError;
use crate::ids::{FileId, JournalId};
use crate::journal::Journal;
use crate::journal::error::JournalError;
use crate::journal::event::JournalDomainEvent;
use crate::status::Status;
use crate::store::Timestamp;
use vstd::prelude::*;

verus! {

/// An uploaded file, as folded from its upload event.
#[derive(Debug, Clone)]
pub struct FileUpload {
    pub file_id: FileId,
    pub journal_id: JournalId,
    pub hash: [u8; 16],
    pub file_name: String,
    pub status: Status,
}

impl FileUpload {
    /// A file that was never uploaded.
    pub fn new(file_id: FileId) -> (f: FileUpload)
        ensures
            f.file_id == file_id,
            f.journal_id.0 == crate::ident::Ident::spec_nil(),
            f.hash@ == Seq::new(16, |i: int| 0u8),
            f.file_name@ == Seq::<char>::empty(),
            f.status == Status::Missing,
    {
        let f = FileUpload {
            file_id,
            journal_id: JournalId::default(),
            hash: [0u8; 16],
            file_name: String::new(),
            status: Status::default(),
        };
        assert(f.hash@ =~= Seq::new(16, |i: int| 0u8));
        f
    }

    /// Applies the upload event: it records the journal, the hash and the name, and the
    /// file is then found, so that a second upload under the same identifier is refused
    /// as a collision (a fold that left the status unset would never refuse one); other
    /// events leave the file unchanged.
    pub fn mutate(&mut self, event: JournalDomainEvent)
        ensures
            match event {
                JournalDomainEvent::FileUploaded { file_id, journal_id, hash, file_name, .. } => *final(self) == (FileUpload { file_id, journal_id, hash, file_name, status: Status::Valid }),
                _ => *final(self) == *old(self),
            },
    {
        match event {
            JournalDomainEvent::FileUploaded { file_id, journal_id, hash, file_name, .. } => {
                self.file_id = file_id;
                self.journal_id = journal_id;
                self.hash = hash;
                self.file_name = file_name;
                self.status = Status::Valid;
            },
            _ => {},
        }
    }
}

/// `a`, `/`, `b`, `-`, `c`: the key under which a journal's file is stored.
pub open spec fn spec_file_key(journal: Seq<char>, file: Seq<char>, name: Seq<char>) -> Seq<char> {
    journal + seq!['/'] + file + seq!['-'] + name
}

/// The storage key of a file: `{journal_id}/{file_id}-{file_name}`.
pub fn file_key(journal_id: JournalId, file_id: FileId, file_name: &str) -> (k: String)
    requires
        journal_id.0.wf(),
        file_id.0.wf(),
    ensures
        k@ == spec_file_key(journal_id.0@, file_id.0@, file_name@),
{
    let mut v = crate::ident::chars_of(journal_id.0.as_str().as_str());
    v.push('/');
    let f = crate::ident::chars_of(file_id.0.as_str().as_str());
    let n = crate::ident::chars_of(file_name);
    let mut i: usize = 0;
    while i < f.len()
        invariant
            i <= f@.len(),
            v@ =~= journal_id.0@ + seq!['/'] + f@.take(i as int),
        decreases f@.len() - i,
    {
        v.push(f[i]);
        i = i + 1;
    }
    v.push('-');
    let mut j: usize = 0;
    while j < n.len()
        invariant
            j <= n@.len(),
            f@ == file_id.0@,
            v@ =~= journal_id.0@ + seq!['/'] + f@ + seq!['-'] + n@.take(j as int),
        decreases n@.len() - j,
    {
        v.push(n[j]);
        j = j + 1;
    }
    assert(n@.take(n@.len() as int) =~= n@);
    assert(f@.take(f@.len() as int) =~= f@);
    crate::ident::string_from_chars(&v)
}

/// Records an upload. The uploader checks beforehand that the stored file has the hash.
pub struct UploadFile {
    pub file_id: FileId,
    pub journal_id: JournalId,
    pub hash: [u8; 16],
    pub file_name: String,
    pub authority: Authority,
    pub timestamp: Timestamp,
}

impl UploadFile {
    pub fn new(
        file_id: FileId,
        journal_id: JournalId,
        hash: [u8; 16],
        file_name: String,
        authority: Authority,
        timestamp: Timestamp,
    ) -> (c: UploadFile)
        ensures
            c == (UploadFile { file_id, journal_id, hash, file_name, authority, timestamp }),
    {
        UploadFile { file_id, journal_id, hash, file_name, authority, timestamp }
    }

    /// The file and the journal.
    pub fn state_query(&self) -> (q: (FileUpload, Journal))
        ensures
            q.0.file_id == self.file_id,
            q.0.status == Status::Missing,
            q.1.journal_id == self.journal_id,
            q.1.status == Status::Missing,
    {
        (FileUpload::new(self.file_id), Journal::new(self.journal_id))
    }

    /// Fails if the identifier is taken (the caller then deletes the stored object under
    /// [`file_key`] and the user tries again) or if the journal does not exist; otherwise
    /// the upload is recorded.
    pub fn process(&self, upload_state: &FileUpload, journal_state: &Journal) -> (r: Result<
        Vec<JournalDomainEvent>,
        JournalError,
    >)
        ensures
            upload_state.status != Status::Missing ==> r == Err::<
                Vec<JournalDomainEvent>,
                JournalError,
            >(JournalError::FileIdCollision(upload_state.file_id)),
            upload_state.status == Status::Missing && journal_state.status != Status::Valid ==> r
                == Err::<Vec<JournalDomainEvent>, JournalError>(
                JournalError::InvalidJournal(journal_state.journal_id),
            ),
            upload_state.status == Status::Missing && journal_state.status == Status::Valid ==> (
            r matches Ok(evs) && evs@ == seq![
                (JournalDomainEvent::FileUploaded {
                    file_id: self.file_id,
                    journal_id: self.journal_id,
                    hash: self.hash,
                    file_name: self.file_name,
                    authority: self.authority,
                    timestamp: self.timestamp,
                }),
            ]),
    {
        if upload_state.status.found() {
            return Err(JournalError::FileIdCollision(upload_state.file_id));
        }
        if !journal_state.status.valid() {
            return Err(JournalError::InvalidJournal(journal_state.journal_id));
        }
        let mut evs: Vec<JournalDomainEvent> = Vec::new();
        evs.push(
            JournalDomainEvent::FileUploaded {
                file_id: self.file_id,
                journal_id: self.journal_id,
                hash: self.hash,
                file_name: self.file_name.clone(),
                authority: self.authority,
                timestamp: self.timestamp,
            },
        );
        Ok(evs)
    }
}

/// A stored file as listed to the journal's readers.
#[derive(Debug)]
pub struct FileState {
    pub id: FileId,
    pub journal_id: JournalId,
    pub hash: [u8; 16],
    pub name: String,
}

/// The largest file that may be uploaded, in bytes: 50 MiB.
pub const MAX_UPLOAD_SIZE: i64 = 52428800;

/// Refuses an upload larger than 50 MiB.
pub fn check_upload_size(file_size: i64) -> (r: Result<(), JournalError>)
    ensures
        r is Ok <==> file_size <= MAX_UPLOAD_SIZE,
        r is Err ==> (r matches Err(JournalError::S3(m)) && m@ == "File too large! 50 MB max"@),
{
    if file_size > MAX_UPLOAD_SIZE {
        return Err(JournalError::S3(String::from_str("File too large! 50 MB max")));
    }
    Ok(())
}

/// The address to which a file is uploaded when files are stored locally.
pub open spec fn spec_local_upload_url(journal: Seq<char>, file_key: Seq<char>) -> Seq<char> {
    "/journal/"@ + journal + "/file/localupload?file_key="@ + file_key
}

/// The address to which a file is uploaded when files are stored locally:
/// `/journal/{journal_id}/file/localupload?file_key={file_key}`.
pub fn local_upload_url(journal_id: JournalId, file_key: &str) -> (u: String)
    requires
        journal_id.0.wf(),
    ensures
        u@ == spec_local_upload_url(journal_id.0@, file_key@),
{
    let mut v: Vec<char> = Vec::new();
    crate::ident::push_chars(&mut v, "/journal/");
    let j = journal_id.0.as_str();
    crate::ident::push_chars(&mut v, j.as_str());
    crate::ident::push_chars(&mut v, "/file/localupload?file_key=");
    crate::ident::push_chars(&mut v, file_key);
    assert(v@ =~= spec_local_upload_url(journal_id.0@, file_key@));
    crate::ident::string_from_chars(&v)
}

/// The index of the first occurrence of the character, or the length if there is none.
pub open spec fn first_index_of(s: Seq<char>, c: char) -> int
    decreases s.len(),
{
    if s.len() == 0 {
        0
    } else if s[0] == c {
        0
    } else {
        1 + first_index_of(s.drop_first(), c)
    }
}

proof fn lemma_first_index_of(s: Seq<char>, c: char)
    ensures
        0 <= first_index_of(s, c) <= s.len(),
        forall|i: int| 0 <= i < first_index_of(s, c) ==> s[i] != c,
        first_index_of(s, c) < s.len() ==> s[first_index_of(s, c)] == c,
    decreases s.len(),
{
    if s.len() > 0 && s[0] != c {
        lemma_first_index_of(s.drop_first(), c);
        assert forall|i: int| 0 <= i < first_index_of(s, c) implies s[i] != c by {
            if i > 0 {
                assert(s[i] == s.drop_first()[i - 1]);
            }
        }
    }
}

fn find_char(s: &Vec<char>, from: usize, to: usize, c: char) -> (r: usize)
    requires
        from <= to <= s@.len(),
    ensures
        r == from + first_index_of(s@.subrange(from as int, to as int), c),
{
    let ghost seg = s@.subrange(from as int, to as int);
    proof {
        lemma_first_index_of(seg, c);
    }
    let mut i: usize = from;
    while i < to
        invariant
            from <= i <= to <= s@.len(),
            seg == s@.subrange(from as int, to as int),
            0 <= first_index_of(seg, c) <= seg.len(),
            forall|k: int| 0 <= k < first_index_of(seg, c) ==> seg[k] != c,
            first_index_of(seg, c) < seg.len() ==> seg[first_index_of(seg, c)] == c,
            forall|k: int| from <= k < i ==> s@[k] != c,
        decreases to - i,
    {
        if s[i] == c {
            assert(seg[i - from] == c);
            return i;
        }
        i = i + 1;
    }
    assert(first_index_of(seg, c) == seg.len()) by {
        if first_index_of(seg, c) < seg.len() {
            assert(s@[from + first_index_of(seg, c)] == c);
        }
    }
    to
}

/// The parts of a stored file's key: the text after the first `/` of the part before the
/// first `-` (the file's identifier), and the text after the first `-` (the file's name),
/// if the key has a `-`.
pub open spec fn spec_file_key_parts(key: Seq<char>) -> (Seq<char>, Option<Seq<char>>) {
    let dash = first_index_of(key, '-');
    let head = key.subrange(0, dash);
    let slash = first_index_of(head, '/');
    (
        head.subrange(slash + 1, head.len() as int),
        if dash < key.len() {
            Some(key.subrange(dash + 1, key.len() as int))
        } else {
            None
        },
    )
}

/// Whether the part of the key before its first `-` has a `/`.
pub open spec fn file_key_has_id(key: Seq<char>) -> bool {
    let dash = first_index_of(key, '-');
    first_index_of(key.subrange(0, dash), '/') < dash
}

/// Whether the key can be split by `file_key_parts`: the part before its first `-` has
/// a `/`.
pub fn has_file_key_id(key: &str) -> (b: bool)
    ensures
        b == file_key_has_id(key@),
{
    let c = crate::ident::chars_of(key);
    proof {
        lemma_first_index_of(c@, '-');
    }
    let dash = find_char(&c, 0, c.len(), '-');
    assert(c@.subrange(0, c@.len() as int) =~= c@);
    let slash = find_char(&c, 0, dash, '/');
    slash < dash
}

/// Splits a stored file's key `{journal_id}/{file_id}-{file_name}` into the text of the
/// file's identifier and its name (absent if the key has no `-`). The part before the
/// first `-` must have a `/`.
pub fn file_key_parts(key: &str) -> (r: (String, Option<String>))
    requires
        file_key_has_id(key@),
    ensures
        r.0@ == spec_file_key_parts(key@).0,
        match spec_file_key_parts(key@).1 {
            Some(n) => (r.1 matches Some(t) && t@ == n),
            None => r.1 is None,
        },
{
    let c = crate::ident::chars_of(key);
    proof {
        lemma_first_index_of(c@, '-');
    }
    let dash = find_char(&c, 0, c.len(), '-');
    assert(c@.subrange(0, c@.len() as int) =~= c@);
    let slash = find_char(&c, 0, dash, '/');
    let mut id: Vec<char> = Vec::new();
    let mut i: usize = slash + 1;
    while i < dash
        invariant
            slash < dash <= c@.len(),
            slash + 1 <= i <= dash,
            id@ == c@.subrange(slash + 1, i as int),
        decreases dash - i,
    {
        assert(c@.subrange(slash + 1, i + 1) =~= c@.subrange(slash + 1, i as int).push(c@[i as int]));
        id.push(c[i]);
        i = i + 1;
    }
    assert(id@ =~= c@.subrange(0, dash as int).subrange(slash + 1, dash as int));
    let name = if dash < c.len() {
        let mut n: Vec<char> = Vec::new();
        let mut k: usize = dash + 1;
        while k < c.len()
            invariant
                dash < c@.len(),
                dash + 1 <= k <= c@.len(),
                n@ == c@.subrange(dash + 1, k as int),
            decreases c@.len() - k,
        {
            assert(c@.subrange(dash + 1, k + 1) =~= c@.subrange(dash + 1, k as int).push(c@[k as int]));
            n.push(c[k]);
            k = k + 1;
        }
        Some(crate::ident::string_from_chars(&n))
    } else {
        None
    };
    (crate::ident::string_from_chars(&id), name)
}

/// The file that a stored key names, with the name it was uploaded under: the identifier
/// is parsed from the text between the first `/` and the first `-`, and the name is the
/// text after that `-`. The key must have both.
pub fn uploaded_file_of_key(key: &str) -> (r: Result<(FileId, String), IdentError>)
    requires
        file_key_has_id(key@),
        spec_file_key_parts(key@).1 is Some,
    ensures
        r is Ok <==> crate::ident::spec_is_ident(spec_file_key_parts(key@).0),
        r matches Ok((id, name)) ==> {
            let text = spec_file_key_parts(key@).0;
            &&& id.0.wf() && id.0@ == text
            &&& (text.len() == 5 <==> id.0 is Custom)
            &&& (text.len() == 10 <==> id.0 is Cuid10)
            &&& (text.len() == 16 <==> id.0 is Cuid16)
            &&& name@ == spec_file_key_parts(key@).1.unwrap()
        },
        r matches Err(e) ==> (e matches IdentError::InvalidId(t) && t@ == spec_file_key_parts(
            key@,
        ).0),
{
    let (id_text, name) = file_key_parts(key);
    let name = match name {
        Some(n) => n,
        None => {
            assert(false);
            String::new()
        },
    };
    match FileId::from_str(id_text.as_str()) {
        Ok(id) => Ok((id, name)),
        Err(e) => Err(e),
    }
}

/// The 16 bytes of a file's MD5 hash; any other length is an error.
pub fn hash_bytes(hash: &Vec<u8>) -> (r: Result<[u8; 16], JournalError>)
    ensures
        r is Ok <==> hash@.len() == 16,
        r matches Ok(h) ==> h@ == hash@,
        r is Err ==> (r matches Err(JournalError::S3(m)) && m@
            == "incorrect file hash length, expected 16 bytes"@),
{
    if hash.len() != 16 {
        return Err(JournalError::S3(String::from_str("incorrect file hash length, expected 16 bytes")));
    }
    let h: [u8; 16] = [
        hash[0],
        hash[1],
        hash[2],
        hash[3],
        hash[4],
        hash[5],
        hash[6],
        hash[7],
        hash[8],
        hash[9],
        hash[10],
        hash[11],
        hash[12],
        hash[13],
        hash[14],
        hash[15],
    ];
    assert(h@ =~= hash@);
    Ok(h)
}

/// The MD5 digest of the bytes.
pub uninterp spec fn md5_digest(bytes: Seq<u8>) -> Seq<u8>;

/// `md5::compute`: the 16-byte MD5 digest of the bytes, named, not stated.
#[verifier::external_body]
fn md5_compute(bytes: &[u8]) -> (r: [u8; 16])
    ensures
        r@ == md5_digest(bytes@),
{
    md5::compute(bytes).0
}

/// The hash of a locally stored file: the MD5 digest of its contents.
pub fn local_file_hash(contents: &Vec<u8>) -> (r: Vec<u8>)
    ensures
        r@ == md5_digest(contents@),
        r@.len() == 16,
{
    let d = md5_compute(contents.as_slice());
    let mut v: Vec<u8> = Vec::new();
    let mut i: usize = 0;
    while i < 16
        invariant
            i <= 16,
            d@.len() == 16,
            v@ == d@.take(i as int),
        decreases 16 - i,
    {
        assert(d@.take(i as int + 1) =~= d@.take(i as int).push(d@[i as int]));
        v.push(d[i]);
        i = i + 1;
    }
    assert(d@.take(16) =~= d@);
    v
}

/// The value of a hexadecimal digit (either case), if the byte is one.
pub open spec fn hex_digit(b: u8) -> Option<int> {
    if 0x30 <= b <= 0x39 {
        Some(b - 0x30)
    } else if 0x61 <= b <= 0x66 {
        Some(b - 0x61 + 10)
    } else if 0x41 <= b <= 0x46 {
        Some(b - 0x41 + 10)
    } else {
        None
    }
}

/// The bytes that hexadecimal text stands for: two digits per byte, the first the high
/// one; `None` if the length is odd or a byte is not a digit.
pub open spec fn hex_decoded(text: Seq<u8>) -> Option<Seq<u8>> {
    if text.len() % 2 == 0 && forall|i: int| 0 <= i < text.len() ==> #[trigger] hex_digit(text[i]) is Some {
        Some(Seq::new(
            text.len() / 2,
            |i: int| (16 * hex_digit(text[2 * i]).unwrap() + hex_digit(text[2 * i + 1]).unwrap()) as u8,
        ))
    } else {
        None
    }
}

/// The message of the `hex::FromHexError` for text that is not hexadecimal.
pub uninterp spec fn hex_error_text(text: Seq<u8>) -> Seq<char>;

/// `hex::decode`: the bytes that the hexadecimal text stands for, or the error's message.
#[verifier::external_body]
fn hex_decode(text: &[u8]) -> (r: Result<Vec<u8>, String>)
    ensures
        r is Ok <==> hex_decoded(text@) is Some,
        r matches Ok(v) ==> v@ == hex_decoded(text@).unwrap(),
        r matches Err(m) ==> m@ == hex_error_text(text@),
{
    match hex::decode(text) {
        Ok(v) => Ok(v),
        Err(e) => Err(e.to_string()),
    }
}

/// The text without the double quotes at its start and end.
pub open spec fn trim_quotes(s: Seq<char>) -> Seq<char>
    decreases s.len(),
{
    if s.len() > 0 && s[0] == '"' {
        trim_quotes(s.drop_first())
    } else if s.len() > 0 && s.last() == '"' {
        trim_quotes(s.drop_last())
    } else {
        s
    }
}

fn trim_quotes_exec(s: &str) -> (r: String)
    ensures
        r@ == trim_quotes(s@),
{
    let c = crate::ident::chars_of(s);
    let mut lo: usize = 0;
    let mut hi: usize = c.len();
    assert(c@.subrange(0, c@.len() as int) =~= c@);
    while lo < hi && c[lo] == '"'
        invariant
            lo <= hi == c@.len(),
            c@ == s@,
            trim_quotes(c@.subrange(lo as int, hi as int)) == trim_quotes(c@),
        decreases hi - lo,
    {
        assert(c@.subrange(lo as int, hi as int).drop_first() =~= c@.subrange(lo + 1, hi as int));
        lo = lo + 1;
    }
    while lo < hi && c[hi - 1] == '"'
        invariant
            lo <= hi <= c@.len(),
            c@ == s@,
            lo < hi ==> c@[lo as int] != '"',
            trim_quotes(c@.subrange(lo as int, hi as int)) == trim_quotes(c@),
        decreases hi - lo,
    {
        assert(c@.subrange(lo as int, hi as int).drop_last() =~= c@.subrange(lo as int, hi - 1));
        hi = hi - 1;
    }
    let mut v: Vec<char> = Vec::new();
    let mut i: usize = lo;
    while i < hi
        invariant
            lo <= i <= hi <= c@.len(),
            v@ == c@.subrange(lo as int, i as int),
        decreases hi - i,
    {
        assert(c@.subrange(lo as int, i + 1) =~= c@.subrange(lo as int, i as int).push(c@[i as int]));
        v.push(c[i]);
        i = i + 1;
    }
    crate::ident::string_from_chars(&v)
}

/// The hash of a file stored in S3, from its entity tag: the tag without its quotes,
/// read as hexadecimal. A missing tag or one that is not hexadecimal is an error.
pub fn hash_from_etag(etag: Option<String>) -> (r: Result<Vec<u8>, JournalError>)
    ensures
        etag is None ==> (r matches Err(JournalError::S3(m)) && m@ == "no MD5 checksum found"@),
        etag matches Some(t) ==> match hex_decoded(vstd::utf8::encode_utf8(trim_quotes(t@))) {
            Some(bytes) => (r matches Ok(v) && v@ == bytes),
            None => (r matches Err(JournalError::S3(m)) && m@ == "failed to decode file hash: "@
                + hex_error_text(vstd::utf8::encode_utf8(trim_quotes(t@)))),
        },
{
    match etag {
        None => Err(JournalError::S3(String::from_str("no MD5 checksum found"))),
        Some(t) => {
            let trimmed = trim_quotes_exec(t.as_str());
            let bytes = trimmed.as_str().as_bytes();
            match hex_decode(bytes) {
                Ok(v) => Ok(v),
                Err(m) => {
                    let mut msg: Vec<char> = Vec::new();
                    crate::ident::push_chars(&mut msg, "failed to decode file hash: ");
                    crate::ident::push_chars(&mut msg, m.as_str());
                    Err(JournalError::S3(crate::ident::string_from_chars(&msg)))
                },
            }
        },
    }
}

proof fn lemma_first_index_after(a: Seq<char>, c: char, b: Seq<char>)
    requires
        forall|i: int| 0 <= i < a.len() ==> a[i] != c,
    ensures
        first_index_of(a + seq![c] + b, c) == a.len(),
    decreases a.len(),
{
    if a.len() > 0 {
        lemma_first_index_after(a.drop_first(), c, b);
        assert((a + seq![c] + b).drop_first() =~= a.drop_first() + seq![c] + b);
    }
}

/// Splitting the key under which a file is stored gives back the file's identifier and
/// its name, whatever the name holds.
pub proof fn lemma_file_key_parts(journal_id: JournalId, file_id: FileId, name: Seq<char>)
    requires
        crate::ident::spec_is_ident(journal_id.0@),
        crate::ident::spec_is_ident(file_id.0@),
    ensures
        spec_file_key_parts(spec_file_key(journal_id.0@, file_id.0@, name)) == (
            file_id.0@,
            Some(name),
        ),
{
    let j = journal_id.0@;
    let f = file_id.0@;
    let key = spec_file_key(j, f, name);
    let head = j + seq!['/'] + f;
    assert forall|i: int| 0 <= i < head.len() implies head[i] != '-' by {
        if i < j.len() {
            assert(crate::ident::is_cuid2_char(j[i]));
        } else if i > j.len() {
            assert(crate::ident::is_cuid2_char(f[i - j.len() - 1]));
        }
    }
    assert(key =~= head + seq!['-'] + name);
    lemma_first_index_after(head, '-', name);
    assert(key.subrange(0, head.len() as int) =~= head);
    assert forall|i: int| 0 <= i < j.len() implies j[i] != '/' by {
        assert(crate::ident::is_cuid2_char(j[i]));
    }
    lemma_first_index_after(j, '/', f);
    assert(head.subrange(j.len() as int + 1, head.len() as int) =~= f);
    assert(key.subrange(head.len() as int + 1, key.len() as int) =~= name);
}

} // verus!
