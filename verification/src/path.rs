//! File paths as the operating system spells them: bytes, not text.
use vstd::prelude::*;
use vstd::utf8::encode_utf8;

verus! {

/// The byte between the parts of a path.
pub const SEPARATOR: u8 = 0x2F;

/// A path in the file system.
#[derive(Debug, PartialEq, Eq)]
pub struct FilePath {
    pub bytes: Vec<u8>,
}

impl View for FilePath {
    type V = Seq<u8>;

    open spec fn view(&self) -> Seq<u8> {
        self.bytes@
    }
}

/// The view of an optional path.
pub open spec fn opt_path(path: Option<FilePath>) -> Option<Seq<u8>> {
    match path {
        Some(path) => Some(path@),
        None => None,
    }
}

/// `name` below `base`. An absolute `name` stands for itself, and no separator
/// is doubled or put in front of everything.
pub open spec fn joined(base: Seq<u8>, name: Seq<u8>) -> Seq<u8> {
    if name.len() > 0 && name[0] == SEPARATOR {
        name
    } else if base.len() == 0 || base.last() == SEPARATOR {
        base + name
    } else {
        base.push(SEPARATOR) + name
    }
}

/// `name` below `base`, with the name given as text.
pub open spec fn below(base: Seq<u8>, name: Seq<char>) -> Seq<u8> {
    joined(base, encode_utf8(name))
}

impl FilePath {
    /// The path that a text spells.
    pub fn of(text: &str) -> (path: FilePath)
        ensures
            path@ == encode_utf8(text@),
    {
        FilePath { bytes: text.as_bytes_vec() }
    }

    /// The same path once more.
    pub fn copy(&self) -> (path: FilePath)
        ensures
            path@ == self@,
    {
        let bytes = self.bytes.clone();
        assert(bytes@ =~= self.bytes@);
        FilePath { bytes }
    }

    /// The path of `name` below this one.
    pub fn join(&self, name: &str) -> (path: FilePath)
        ensures
            path@ == below(self@, name@),
    {
        let name = name.as_bytes_vec();
        if name.len() > 0 && name[0] == SEPARATOR {
            return FilePath { bytes: name };
        }
        let mut bytes = self.bytes.clone();
        assert(bytes@ =~= self.bytes@);
        if bytes.len() > 0 && bytes[bytes.len() - 1] != SEPARATOR {
            bytes.push(SEPARATOR);
        }
        let mut name = name;
        bytes.append(&mut name);
        FilePath { bytes }
    }
}

/// A relative name below a relative path stays below it: the result begins
/// with the bytes of that path.
pub proof fn law_join_stays_below(base: Seq<u8>, name: Seq<u8>)
    requires
        name.len() == 0 || name[0] != SEPARATOR,
    ensures
        base.is_prefix_of(joined(base, name)),
{
    assert(joined(base, name).subrange(0, base.len() as int) =~= base);
}

/// A relative name stands behind the path with one separator between them, which
/// a path that is empty or ends in one does not need. An absolute name stands for
/// itself.
pub proof fn law_a_name_stands_behind_one_separator(base: Seq<u8>, name: Seq<u8>)
    ensures
        name.len() > 0 && name[0] == 0x2F ==> joined(base, name) == name,
        name.len() == 0 || name[0] != 0x2F ==> {
            let path = joined(base, name);
            let between: int = if base.len() > 0 && base.last() != 0x2F {
                1
            } else {
                0
            };
            &&& path.len() == base.len() + between + name.len()
            &&& forall|i: int| 0 <= i < base.len() ==> path[i] == base[i]
            &&& between == 1 ==> path[base.len() as int] == 0x2F
            &&& forall|i: int|
                0 <= i < name.len() ==> path[base.len() + between + i] == #[trigger] name[i]
        },
{
}

/// A name that is given as text stands for its UTF-8 bytes.
pub proof fn law_a_name_stands_for_its_bytes(base: Seq<u8>, name: Seq<char>)
    ensures
        below(base, name) == joined(base, encode_utf8(name)),
{
}

} // verus!
