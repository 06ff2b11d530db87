//! Resources packed in a ZIP archive (release builds). Entry names are
//! indexed in normal form so that existence checks need no archive access.

use vstd::prelude::*;
use vstd::string::StringExecFns;
use crate::resources::{normalize_logical_path, normalized, LogicalPath, ResourceError, ResourceSource};
use crate::text::{to_chars, chars_equal_str};

verus! {

#[verifier::external_type_specification]
#[verifier::external_body]
#[verifier::reject_recursive_types(T)]
pub struct ExCursor<T>(std::io::Cursor<T>);

#[verifier::external_type_specification]
#[verifier::external_body]
#[verifier::reject_recursive_types(R)]
pub struct ExZipArchive<R>(zip::ZipArchive<R>);

/// The entry names of an opened archive, in the archive's order.
pub uninterp spec fn zip_entry_names(archive: zip::ZipArchive<std::io::Cursor<std::sync::Arc<[u8]>>>) -> Seq<Seq<char>>;

/// The entry names that `ZipArchive::new` finds in the bytes of an archive,
/// when it accepts them.
pub uninterp spec fn zip_listing(bytes: Seq<u8>) -> Option<Seq<Seq<char>>>;

/// What reading the named entry of an opened archive gives: its
/// uncompressed bytes, or nothing when the entry cannot be opened or read.
/// The archive lies in memory, so this depends on the archive and the name
/// alone.
pub uninterp spec fn zip_entry_read(
    archive: zip::ZipArchive<std::io::Cursor<std::sync::Arc<[u8]>>>,
    name: Seq<char>,
) -> Option<Seq<u8>>;

/// Whether `ZipArchive::by_name` opens the named entry of an opened archive
/// (it does not for an absent name, nor for an entry whose compression
/// method this build does not support).
pub uninterp spec fn zip_entry_opens(
    archive: zip::ZipArchive<std::io::Cursor<std::sync::Arc<[u8]>>>,
    name: Seq<char>,
) -> bool;

/// `ZipArchive::new` over the archive's bytes. It succeeds exactly when the
/// bytes hold an archive it accepts, whose names are then the archive's
/// entries; on failure the text is the `ZipError`'s message.
#[verifier::external_body]
fn open_archive(bytes: Vec<u8>) -> (r: Result<zip::ZipArchive<std::io::Cursor<std::sync::Arc<[u8]>>>, String>)
    ensures
        r is Ok <==> zip_listing(bytes@) is Some,
        r is Ok ==> zip_entry_names(r->Ok_0) == zip_listing(bytes@)->0,
{
    zip::ZipArchive::new(std::io::Cursor::new(std::sync::Arc::<[u8]>::from(bytes))).map_err(|e| e.to_string())
}

/// `ZipArchive::len`: the number of entries.
#[verifier::external_body]
fn archive_len(a: &zip::ZipArchive<std::io::Cursor<std::sync::Arc<[u8]>>>) -> (r: usize)
    ensures
        r == zip_entry_names(*a).len(),
{
    a.len()
}

/// `ZipArchive::name_for_index`: the name of the entry at an index.
#[verifier::external_body]
fn archive_name_at(a: &zip::ZipArchive<std::io::Cursor<std::sync::Arc<[u8]>>>, i: usize) -> (r: Option<String>)
    ensures
        i < zip_entry_names(*a).len() ==> (r is Some && r->0@ == zip_entry_names(*a)[i as int]),
{
    a.name_for_index(i).map(|n| n.to_owned())
}

/// How reading an entry failed.
pub enum EntryReadError {
    /// `by_name` could not open the entry (in particular, no entry has the name).
    NotOpened,
    /// Reading the opened entry failed, with the I/O error's message.
    ReadFailed(String),
}

/// `ZipArchive::by_name` on a clone of the archive handle (the clone shares
/// the archive's bytes and metadata), then `read_to_end` of the entry. An absent name is never opened; the read succeeds exactly when
/// [`zip_entry_read`] gives bytes, and then yields them.
#[verifier::external_body]
fn read_entry(a: &zip::ZipArchive<std::io::Cursor<std::sync::Arc<[u8]>>>, name: &str) -> (r: Result<Vec<u8>, EntryReadError>)
    ensures
        !zip_entry_names(*a).contains(name@) ==> (r is Err && r->Err_0 is NotOpened),
        (r is Err && r->Err_0 is NotOpened) <==> !zip_entry_opens(*a, name@),
        r is Ok <==> zip_entry_read(*a, name@) is Some,
        r matches Ok(b) ==> Some(b@) == zip_entry_read(*a, name@),
{
    let mut handle = a.clone();
    let mut entry = handle.by_name(name).map_err(|_| EntryReadError::NotOpened)?;
    let mut buf = Vec::new();
    std::io::Read::read_to_end(&mut entry, &mut buf).map_err(|e| EntryReadError::ReadFailed(e.to_string()))?;
    Ok(buf)
}

/// Resources read from a ZIP archive.
pub struct ZipSource {
    archive: zip::ZipArchive<std::io::Cursor<std::sync::Arc<[u8]>>>,
    index: Vec<String>,
}

/// The normal forms of the names.
pub open spec fn normalized_names(names: Seq<Seq<char>>) -> Set<Seq<char>> {
    Set::new(|p: Seq<char>| exists|i: int| 0 <= i < names.len() && normalized(names[i]) == p)
}

impl ZipSource {
    /// The normal forms of the entry names.
    pub closed spec fn indexed(&self) -> Set<Seq<char>> {
        Set::new(|p: Seq<char>| exists|i: int| 0 <= i < self.index@.len() && self.index@[i]@ == p)
    }

    /// The archive's entry names.
    pub closed spec fn entry_names(&self) -> Seq<Seq<char>> {
        zip_entry_names(self.archive)
    }

    /// What reading an entry gives: its bytes, or nothing when it cannot
    /// be read.
    pub closed spec fn entry_read(&self, name: Seq<char>) -> Option<Seq<u8>> {
        zip_entry_read(self.archive, name)
    }

    /// Whether the named entry can be opened (a name that is not an entry
    /// cannot).
    pub closed spec fn entry_opens(&self, name: Seq<char>) -> bool {
        zip_entry_opens(self.archive, name)
    }

    /// Opens an archive from its bytes (read from `zip_path`) and indexes its
    /// entry names in normal form. An archive that cannot be opened is a
    /// load failure of kind `zip` at `zip_path`.
    pub fn open_bytes(zip_path: &str, bytes: Vec<u8>) -> (r: Result<ZipSource, ResourceError>)
        ensures
            r is Ok <==> zip_listing(bytes@) is Some,
            r matches Ok(z) ==> z.entry_names() == zip_listing(bytes@)->0 && z.indexed()
                == normalized_names(zip_listing(bytes@)->0),
            r matches Err(e) ==> e matches ResourceError::LoadFailed { path, kind, message }
                && path@ == zip_path@ && kind@ == "zip"@,
    {
        let archive = match open_archive(bytes) {
            Ok(a) => a,
            Err(msg) => {
                return Err(
                    ResourceError::LoadFailed {
                        path: zip_path.to_owned(),
                        kind: "zip".to_owned(),
                        message: msg,
                    },
                );
            },
        };
        let n = archive_len(&archive);
        let ghost names = zip_entry_names(archive);
        let mut index: Vec<String> = Vec::new();
        let mut i: usize = 0;
        while i < n
            invariant
                n == names.len(),
                names == zip_entry_names(archive),
                i <= n,
                index@.len() == i,
                forall|j: int| 0 <= j < i ==> #[trigger] index@[j]@ == normalized(names[j]),
            decreases n - i,
        {
            let name = archive_name_at(&archive, i);
            match name {
                Some(nm) => {
                    index.push(normalize_logical_path(nm.as_str()));
                },
                None => {
                    assert(false);
                },
            }
            i += 1;
        }
        let z = ZipSource { archive, index };
        assert(z.indexed() =~= normalized_names(names)) by {
            assert forall|p: Seq<char>| z.indexed().contains(p) implies normalized_names(
                names,
            ).contains(p) by {
                let j = choose|j: int| 0 <= j < z.index@.len() && z.index@[j]@ == p;
                assert(normalized(names[j]) == p);
            }
            assert forall|p: Seq<char>| normalized_names(names).contains(p) implies z.indexed().contains(
                p,
            ) by {
                let j = choose|j: int| 0 <= j < names.len() && normalized(names[j]) == p;
                assert(z.index@[j]@ == p);
            }
        }
        Ok(z)
    }

    /// Whether an entry's normal form is `path`.
    pub fn has_entry(&self, path: &LogicalPath) -> (r: bool)
        ensures
            r == self.indexed().contains(path@),
    {
        let mut i: usize = 0;
        while i < self.index.len()
            invariant
                i <= self.index@.len(),
                forall|j: int| 0 <= j < i ==> self.index@[j]@ != path@,
            decreases self.index.len() - i,
        {
            if chars_equal_str(&to_chars(self.index[i].as_str()), path.as_str()) {
                return true;
            }
            i += 1;
        }
        assert(!self.indexed().contains(path@)) by {
            if self.indexed().contains(path@) {
                let j = choose|j: int| 0 <= j < self.index@.len() && self.index@[j]@ == path@;
            }
        }
        false
    }

    /// The entry's bytes; an entry that cannot be opened (absent, or stored
    /// with a compression this build does not read) is not found, and a
    /// failed read is a load failure of kind `zip`.
    pub fn read_entry_bytes(&self, path: &LogicalPath) -> (r: Result<Vec<u8>, ResourceError>)
        ensures
            zip_bytes_answer(*self, path@, r),
    {
        match read_entry(&self.archive, path.as_str()) {
            Ok(b) => Ok(b),
            Err(EntryReadError::NotOpened) => Err(ResourceError::NotFound { path: path.as_str().to_owned() }),
            Err(EntryReadError::ReadFailed(m)) => Err(
                ResourceError::LoadFailed {
                    path: path.as_str().to_owned(),
                    kind: "zip".to_owned(),
                    message: m,
                },
            ),
        }
    }

    /// The entry as UTF-8 text; undecodable bytes are a load failure of kind
    /// `text` whose message starts with `UTF-8 解码失败: `.
    pub fn read_entry_text(&self, path: &LogicalPath) -> (r: Result<String, ResourceError>)
        ensures
            zip_text_answer(*self, path@, r),
    {
        let bytes = match self.read_entry_bytes(path) {
            Ok(b) => b,
            Err(e) => {
                return Err(e);
            },
        };
        match crate::text::utf8_string(bytes) {
            Ok(t) => Ok(t),
            Err(e) => {
                let mut m = "UTF-8 解码失败: ".to_owned();
                m.append(e.as_str());
                assert(m@.take("UTF-8 解码失败: "@.len() as int) =~= "UTF-8 解码失败: "@);
                Err(
                    ResourceError::LoadFailed {
                        path: path.as_str().to_owned(),
                        kind: "text".to_owned(),
                        message: m,
                    },
                )
            },
        }
    }
}

/// The answers a ZIP archive gives to a read of `path`: not found exactly
/// when no entry of that name can be opened (in particular when there is
/// none); the entry's bytes exactly when reading it succeeds; otherwise a
/// load failure of kind `zip` at the path.
pub open spec fn zip_bytes_answer(z: ZipSource, path: Seq<char>, r: Result<Vec<u8>, ResourceError>) -> bool {
    &&& !z.entry_names().contains(path) ==> !z.entry_opens(path)
    &&& !z.entry_opens(path) <==> (r matches Err(ResourceError::NotFound { path: p }) && p@ == path)
    &&& r is Ok <==> z.entry_read(path) is Some
    &&& r matches Ok(b) ==> Some(b@) == z.entry_read(path)
    &&& r matches Err(ResourceError::LoadFailed { path: p, kind, message }) ==> p@ == path
        && kind@ == "zip"@
}

/// The answers a ZIP archive gives to a text read of `path`: as for bytes,
/// and the text succeeds exactly when the bytes are valid UTF-8, as their
/// decoding; undecodable bytes are a load failure of kind `text` whose
/// message starts with `UTF-8 解码失败: `.
pub open spec fn zip_text_answer(z: ZipSource, path: Seq<char>, r: Result<String, ResourceError>) -> bool {
    &&& !z.entry_names().contains(path) ==> !z.entry_opens(path)
    &&& !z.entry_opens(path) <==> (r matches Err(ResourceError::NotFound { path: p }) && p@ == path)
    &&& r is Ok <==> (z.entry_read(path) matches Some(b) && vstd::utf8::valid_utf8(b))
    &&& r matches Ok(t) ==> t@ == vstd::utf8::decode_utf8(z.entry_read(path)->0)
    &&& r matches Err(ResourceError::LoadFailed { path: p, kind, message }) ==> p@ == path && (
    kind@ == "zip"@ || (kind@ == "text"@ && message@.len() >= "UTF-8 解码失败: "@.len()
        && message@.take("UTF-8 解码失败: "@.len() as int) == "UTF-8 解码失败: "@))
}

impl ResourceSource for ZipSource {
    open spec fn text_answer(&self, path: Seq<char>, r: Result<String, ResourceError>) -> bool {
        zip_text_answer(*self, path, r)
    }

    open spec fn bytes_answer(&self, path: Seq<char>, r: Result<Vec<u8>, ResourceError>) -> bool {
        zip_bytes_answer(*self, path, r)
    }

    open spec fn exists_answer(&self, path: Seq<char>, r: bool) -> bool {
        r == self.indexed().contains(path)
    }

    fn read_text(&self, path: &LogicalPath) -> (r: Result<String, ResourceError>) {
        self.read_entry_text(path)
    }

    fn read_bytes(&self, path: &LogicalPath) -> (r: Result<Vec<u8>, ResourceError>) {
        self.read_entry_bytes(path)
    }

    fn contains(&self, path: &LogicalPath) -> (r: bool) {
        self.has_entry(path)
    }
}

} // verus!
