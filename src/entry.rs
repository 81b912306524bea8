use vstd::prelude::*;
use vstd::string::{StringExecFns, StrSliceExecFns};
use crate::error::{Error, ErrorKind};

verus! {

/// A name with a trailing path separator denotes a directory.
pub open spec fn is_directory_name(name: Seq<char>) -> bool {
    name.len() > 0 && name.last() == '/'
}

/// An entry is republished unless it is empty or a directory.
pub open spec fn is_republished(name: Seq<char>, size: nat) -> bool {
    size > 0 && !is_directory_name(name)
}

/// Where an entry named `name` of `size` bytes, whose safe relative path is
/// `path`, is republished: under the prefix followed by the path, or nowhere.
pub open spec fn entry_destination(prefix: Seq<char>, name: Seq<char>, path: Seq<char>, size: nat) -> Option<
    Seq<char>,
> {
    if is_republished(name, size) {
        Some(prefix + path)
    } else {
        None
    }
}

/// An entry that is empty or names a directory has no destination, so it is
/// never handed over for upload.
pub proof fn lemma_skipped_entry_has_no_destination(
    prefix: Seq<char>,
    name: Seq<char>,
    path: Seq<char>,
    size: nat,
)
    requires
        size == 0 || is_directory_name(name),
    ensures
        entry_destination(prefix, name, path, size) is None,
{
}

/// With an empty prefix, a republished entry's key is its path unchanged.
pub proof fn lemma_empty_prefix_keeps_path(name: Seq<char>, path: Seq<char>, size: nat)
    requires
        is_republished(name, size),
    ensures
        entry_destination(Seq::empty(), name, path, size) == Some(path),
{
    assert(Seq::<char>::empty() + path =~= path);
}

/// Whether `name` ends with a path separator.
pub fn is_directory(name: &str) -> (r: bool)
    ensures
        r == is_directory_name(name@),
{
    let len = name.unicode_len();
    len > 0 && name.get_char(len - 1) == '/'
}

/// The key of the object that an entry at `path` becomes: the prefix followed
/// by the path, so an empty prefix leaves the path unchanged.
pub fn destination_key(prefix: &str, path: &str) -> (r: String)
    ensures
        r@ == prefix@ + path@,
{
    let key = <String as StringExecFns>::from_str(prefix);
    key.concat(path)
}

/// One archive entry being decoded: its name, its declared uncompressed size,
/// the key it is republished under (none when it is skipped), and the bytes
/// read from it so far.
pub struct EntryExtraction {
    name: String,
    destination: Option<String>,
    size: usize,
    data: Vec<u8>,
}

impl EntryExtraction {
    pub closed spec fn name_spec(&self) -> Seq<char> {
        self.name@
    }

    /// The destination key, or `None` for an entry that is not republished.
    pub closed spec fn destination_spec(&self) -> Option<Seq<char>> {
        match self.destination {
            Some(k) => Some(k@),
            None => None,
        }
    }

    pub closed spec fn size_spec(&self) -> nat {
        self.size as nat
    }

    pub closed spec fn data_spec(&self) -> Seq<u8> {
        self.data@
    }

    /// Never more bytes than declared.
    pub closed spec fn wf(&self) -> bool {
        self.data@.len() <= self.size
    }

    /// Starts an entry named `name` of `size` bytes. `enclosed_path` is its
    /// name as a safe relative path, if it has one. The entry is republished
    /// under `prefix` followed by that path unless it is empty or a directory;
    /// such an entry without a safe path is a path error.
    pub fn begin(prefix: &String, name: &String, enclosed_path: Option<String>, size: usize) -> (r:
        Result<EntryExtraction, Error>)
        ensures
            r is Err <==> (is_republished(name@, size as nat) && enclosed_path is None),
            r is Err ==> r->Err_0.kind == ErrorKind::Path,
            r is Ok ==> ({
                let e = r->Ok_0;
                &&& e.wf()
                &&& e.name_spec() == name@
                &&& e.size_spec() == size
                &&& e.data_spec() == Seq::<u8>::empty()
                &&& e.destination_spec() == entry_destination(
                    prefix@,
                    name@,
                    enclosed_path->Some_0@,
                    size as nat,
                )
            }),
    {
        let republished = size > 0 && !is_directory(name.as_str());
        let destination = if republished {
            match enclosed_path {
                Some(path) => Some(destination_key(prefix.as_str(), path.as_str())),
                None => {
                    let msg = <String as StringExecFns>::from_str("entry has no safe path: ");
                    return Err(Error::new(ErrorKind::Path, msg.concat(name.as_str())));
                },
            }
        } else {
            None
        };
        Ok(EntryExtraction { name: name.clone(), destination, size, data: Vec::new() })
    }

    pub fn name(&self) -> (r: &String)
        ensures
            r@ == self.name_spec(),
    {
        &self.name
    }

    /// The declared uncompressed size.
    pub fn size(&self) -> (r: usize)
        ensures
            r == self.size_spec(),
    {
        self.size
    }

    /// Bytes still to be read.
    pub fn remaining(&self) -> (r: usize)
        requires
            self.wf(),
        ensures
            r == self.size_spec() - self.data_spec().len(),
    {
        self.size - self.data.len()
    }

    /// Whether the declared size has been read.
    pub fn is_complete(&self) -> (r: bool)
        requires
            self.wf(),
        ensures
            r == (self.data_spec().len() == self.size_spec()),
    {
        self.data.len() == self.size
    }

    /// Takes the bytes that one read of the entry's byte source returned.
    /// An empty read before the declared size is met is a decode error;
    /// otherwise the bytes are kept and the result says whether the entry is
    /// now complete.
    pub fn absorb(&mut self, bytes: &[u8]) -> (r: Result<bool, Error>)
        requires
            old(self).wf(),
            old(self).data_spec().len() + bytes@.len() <= old(self).size_spec(),
        ensures
            final(self).wf(),
            final(self).name_spec() == old(self).name_spec(),
            final(self).destination_spec() == old(self).destination_spec(),
            final(self).size_spec() == old(self).size_spec(),
            final(self).data_spec() == old(self).data_spec() + bytes@,
            r is Err <==> (bytes@.len() == 0 && old(self).data_spec().len()
                < old(self).size_spec()),
            r is Err ==> r->Err_0.kind == ErrorKind::Decode,
            r is Ok ==> r->Ok_0 == (final(self).data_spec().len() == final(self).size_spec()),
    {
        if bytes.len() == 0 && self.data.len() < self.size {
            let msg = <String as StringExecFns>::from_str(
                "the uncompressed file size was not met: ",
            );
            assert(self.data@ + bytes@ =~= self.data@);
            return Err(Error::new(ErrorKind::Decode, msg.concat(self.name.as_str())));
        }
        self.data.extend_from_slice(bytes);
        Ok(self.data.len() == self.size)
    }

    /// Hands over a complete entry: its key and bytes when it is republished,
    /// `None` when it is skipped.
    pub fn finish(self) -> (r: Option<(String, Vec<u8>)>)
        requires
            self.wf(),
            self.data_spec().len() == self.size_spec(),
        ensures
            r is Some <==> self.destination_spec() is Some,
            r is Some ==> r->Some_0.0@ == self.destination_spec()->Some_0 && r->Some_0.1@
                == self.data_spec(),
    {
        match self.destination {
            Some(key) => Some((key, self.data)),
            None => None,
        }
    }
}

} // verus!
