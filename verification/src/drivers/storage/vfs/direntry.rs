//! Directory entries: file names, and the tree of entries of a directory.
use super::posix_consts::NAME_MAX;
use super::Errno;
use core::convert::TryFrom;
use vstd::prelude::*;
use vstd::string::StringSliceAdditionalSpecFns;

verus! {

/// A file name: its bytes, in a buffer of `NAME_MAX` bytes, and its
/// length.
#[derive(Copy, Clone)]
pub struct Filename(pub [u8; 256], pub usize);

/// A name's buffer: holds `s` then zeroes.
pub open spec fn holds_name(buf: Seq<u8>, s: Seq<u8>) -> bool {
    &&& buf.len() == NAME_MAX
    &&& forall|i: int| 0 <= i < NAME_MAX ==> #[trigger] buf[i] == if i < s.len() {
        s[i]
    } else {
        0u8
    }
}

impl Filename {
    /// The file name of the bytes `s`; `Enametoolong` when there are
    /// `NAME_MAX` of them or more.
    pub fn from_bytes(s: &[u8]) -> (r: Result<Filename, Errno>)
        ensures
            s@.len() >= NAME_MAX ==> r == Err::<Filename, Errno>(Errno::Enametoolong),
            s@.len() < NAME_MAX ==> (r matches Ok(f) && f.1 == s@.len() && holds_name(f.0@, s@)),
    {
        if s.len() >= NAME_MAX {
            return Err(Errno::Enametoolong);
        }
        let mut n: [u8; 256] = [0u8; 256];
        let mut i: usize = 0;
        while i < s.len()
            invariant
                s@.len() < NAME_MAX,
                i <= s@.len(),
                n@.len() == NAME_MAX,
                forall|j: int| 0 <= j < NAME_MAX ==> #[trigger] n@[j] == if j < i {
                    s@[j]
                } else {
                    0u8
                },
            decreases s@.len() - i,
        {
            n[i] = s[i];
            i = i + 1;
        }
        Ok(Filename(n, s.len()))
    }
}

/// The file name the bytes `s` give: `Enametoolong` when there are
/// `NAME_MAX` of them or more, else the name that holds them.
pub open spec fn filename_of(s: Seq<u8>) -> Result<Filename, Errno> {
    if s.len() >= NAME_MAX {
        Err(Errno::Enametoolong)
    } else {
        Ok(choose|f: Filename| f.1 == s.len() && holds_name(f.0@, s))
    }
}

impl<'a> TryFrom<&'a str> for Filename {
    type Error = Errno;

    /// The file name of the bytes of `s`; `Enametoolong` when there are
    /// `NAME_MAX` of them or more.
    fn try_from(s: &'a str) -> (r: Result<Filename, Errno>) {
        let r = Filename::from_bytes(s.as_bytes());
        proof {
            if let Ok(f) = r {
                let g = choose|g: Filename| g.1 == s.spec_bytes().len() && holds_name(
                    g.0@,
                    s.spec_bytes(),
                );
                assert(f.1 == s.spec_bytes().len() && holds_name(f.0@, s.spec_bytes()));
                assert(g.0@ =~= f.0@);
                assert(g.0 == f.0);
            }
        }
        r
    }
}

impl<'a> vstd::std_specs::convert::TryFromSpecImpl<&'a str> for Filename {
    open spec fn obeys_try_from_spec() -> bool {
        true
    }

    open spec fn try_from_spec(v: &'a str) -> Result<Filename, Errno> {
        filename_of(v.spec_bytes())
    }
}

impl Default for Filename {
    /// The empty name.
    fn default() -> (r: Self)
        ensures
            r.1 == 0,
            holds_name(r.0@, Seq::empty()),
    {
        Filename([0u8; 256], 0)
    }
}

/// The type of a file.
#[derive(Debug, Copy, Clone, PartialEq, Eq, Structural)]
pub enum Filetype {
    RegularFile,
    Directory,
    CharacterDevice,
    BlockDevice,
    Fifo,
    Socket,
    SymbolicLink,
}

/// The errors of directory entries.
#[derive(Debug, Copy, Clone, PartialEq, Eq, Structural)]
pub enum VfsError {
    /// The entry is not a directory.
    IsNotADirectory,
    /// An error number of the file system interface.
    Errno(Errno),
}

/// The head of a directory entry: its inode number, its name and the
/// length of the name, and the type of the file.
pub struct DirectoryEntryHeader {
    pub inode: u32,
    pub filename: Filename,
    pub name_size: usize,
    pub filetype: Filetype,
}

/// A directory entry: its head, and what it holds.
pub struct DirectoryEntry {
    pub header: DirectoryEntryHeader,
    pub entry: Entry,
}

/// What a directory entry holds: for a directory, its entries.
pub enum Entry {
    RegularFile,
    Directory { direntries: Vec<DirectoryEntry> },
    CharacterDevice,
    BlockDevice,
    Fifo,
    Socket,
    SymbolicLink,
}

/// Whether `e`, and every entry below it, holds a directory's entries when
/// its type is that of a directory.
pub open spec fn tree_wf(e: DirectoryEntry) -> bool
    decreases e,
{
    &&& (e.header.filetype == Filetype::Directory ==> e.entry is Directory)
    &&& (e.entry is Directory ==> all_wf(e.entry->direntries@))
}

/// Whether each entry of `s` is well formed (`tree_wf`).
pub open spec fn all_wf(s: Seq<DirectoryEntry>) -> bool
    decreases s,
{
    if s.len() == 0 {
        true
    } else {
        tree_wf(s.last()) && all_wf(s.drop_last())
    }
}

/// Whether a walk of `e` by `callback` went through without error: when
/// `e` is a directory, `callback` returned `Ok` on each of its entries and
/// the walk of each of them went through.
pub open spec fn walked_ok<E, F: Fn(&DirectoryEntry) -> Result<(), E>>(callback: F, e: DirectoryEntry) -> bool
    decreases e,
{
    e.header.filetype == Filetype::Directory ==> e.entry is Directory && all_walked_ok(
        callback,
        e.entry->direntries@,
    )
}

/// Whether `callback` returned `Ok` on each entry of `s`, and the walk of
/// each went through (`walked_ok`).
pub open spec fn all_walked_ok<E, F: Fn(&DirectoryEntry) -> Result<(), E>>(callback: F, s: Seq<DirectoryEntry>) -> bool
    decreases s,
{
    if s.len() == 0 {
        true
    } else {
        call_ensures(callback, (&s.last(),), Ok::<(), E>(())) && walked_ok(callback, s.last()) && all_walked_ok(
            callback,
            s.drop_last(),
        )
    }
}

/// Each entry of a sequence whose entries are well formed is well formed.
proof fn lemma_all_wf_index(s: Seq<DirectoryEntry>, i: int)
    requires
        all_wf(s),
        0 <= i < s.len(),
    ensures
        tree_wf(s[i]),
    decreases s.len(),
{
    if i < s.len() - 1 {
        assert(s.drop_last()[i] == s[i]);
        lemma_all_wf_index(s.drop_last(), i);
    }
}

impl DirectoryEntry {
    /// A directory entry for a directory named `filename`, with the inode
    /// number `inode` and no entries yet; `Enametoolong` when the name has
    /// `NAME_MAX` bytes. Only directories can be made this way.
    pub fn new(filename: &str, filetype: Filetype, inode: u32) -> (r: Result<Self, VfsError>)
        requires
            filename.spec_bytes().len() <= NAME_MAX,
            filename.spec_bytes().len() < NAME_MAX ==> filetype == Filetype::Directory,
        ensures
            filename.spec_bytes().len() == NAME_MAX ==> r == Err::<Self, VfsError>(
                VfsError::Errno(Errno::Enametoolong),
            ),
            filename.spec_bytes().len() < NAME_MAX ==> (r matches Ok(e) && e.header.inode == inode
                && e.header.filetype == filetype && e.header.name_size == filename.spec_bytes().len()
                && e.header.filename.1 == filename.spec_bytes().len() && holds_name(
                e.header.filename.0@,
                filename.spec_bytes(),
            ) && e.entry is Directory && e.entry->direntries@.len() == 0),
    {
        let bytes = filename.as_bytes();
        let name = match Filename::from_bytes(bytes) {
            Ok(n) => n,
            Err(e) => return Err(VfsError::Errno(e)),
        };
        let header = DirectoryEntryHeader { inode, filename: name, name_size: bytes.len(), filetype };
        Ok(DirectoryEntry { header, entry: Entry::Directory { direntries: Vec::new() } })
    }

    /// The bytes of its name.
    pub fn get_filename(&self) -> (r: Vec<u8>)
        requires
            self.header.name_size <= NAME_MAX,
        ensures
            r@ == self.header.filename.0@.subrange(0, self.header.name_size as int),
    {
        let mut r: Vec<u8> = Vec::new();
        let mut i: usize = 0;
        while i < self.header.name_size
            invariant
                self.header.name_size <= NAME_MAX,
                i <= self.header.name_size,
                r@ == self.header.filename.0@.subrange(0, i as int),
            decreases self.header.name_size - i,
        {
            r.push(self.header.filename.0[i]);
            i = i + 1;
        }
        r
    }

    /// The entries of a directory; `IsNotADirectory` for another file.
    pub fn directory_entries(&self) -> (r: Result<&Vec<DirectoryEntry>, VfsError>)
        requires
            self.header.filetype == Filetype::Directory ==> self.entry is Directory,
        ensures
            self.header.filetype != Filetype::Directory ==> r == Err::<&Vec<DirectoryEntry>, VfsError>(
                VfsError::IsNotADirectory,
            ),
            self.header.filetype == Filetype::Directory ==> (r matches Ok(v) && *v
                == self.entry->direntries),
    {
        if self.is_directory() {
            match &self.entry {
                Entry::Directory { direntries } => Ok(direntries),
                _ => Err(VfsError::IsNotADirectory),
            }
        } else {
            Err(VfsError::IsNotADirectory)
        }
    }

    /// Adds `entry` to the entries of a directory, and gives it back where
    /// it now stands; `IsNotADirectory`, and nothing added, for another
    /// file.
    pub fn add_direntry(&mut self, entry: DirectoryEntry) -> (r: Result<&mut DirectoryEntry, VfsError>)
        requires
            old(self).header.filetype == Filetype::Directory ==> old(self).entry is Directory,
        ensures
            old(self).header.filetype != Filetype::Directory ==> r == Err::<&mut DirectoryEntry, VfsError>(
                VfsError::IsNotADirectory,
            ) && *final(self) == *old(self),
            old(self).header.filetype == Filetype::Directory ==> (r matches Ok(e) && *e == entry
                && final(self).header == old(self).header && final(self).entry is Directory
                && final(self).entry->direntries@ == old(self).entry->direntries@.push(*final(e))),
    {
        if !self.is_directory() {
            return Err(VfsError::IsNotADirectory);
        }
        match &mut self.entry {
            Entry::Directory { direntries } => {
                direntries.push(entry);
                let len = direntries.len();
                Ok(&mut direntries[len - 1])
            },
            _ => Err(VfsError::IsNotADirectory),
        }
    }

    /// Calls `callback` on each entry of a directory, in order, then walks
    /// the entries that are directories the same way; stops at the first
    /// error `callback` returns, and returns it. Nothing is walked below
    /// another file.
    pub fn walk_tree<E, F: Fn(&DirectoryEntry) -> Result<(), E>>(&self, callback: &F) -> (r: Result<(), E>)
        requires
            tree_wf(*self),
            forall|d: &DirectoryEntry| call_requires(*callback, (d,)),
        ensures
            self.header.filetype != Filetype::Directory ==> r is Ok,
            r is Ok ==> walked_ok(*callback, *self),
            r is Err ==> exists|d: &DirectoryEntry| call_ensures(*callback, (d,), r),
        decreases *self,
    {
        if !self.is_directory() {
            return Ok(());
        }
        let entries = match self.directory_entries() {
            Ok(v) => v,
            Err(_) => return Ok(()),
        };
        let mut i: usize = 0;
        while i < entries.len()
            invariant
                *entries == self.entry->direntries,
                self.entry is Directory,
                self.header.filetype == Filetype::Directory,
                i <= entries@.len(),
                forall|d: &DirectoryEntry| call_requires(*callback, (d,)),
                forall|j: int| 0 <= j < i ==> call_ensures(*callback, (&entries@[j],), Ok::<(), E>(())),
            decreases entries@.len() - i,
        {
            let res = callback(&entries[i]);
            match res {
                Ok(u) => {
                    assert(u == ());
                    assert(res == Ok::<(), E>(()));
                },
                Err(e) => return Err(e),
            }
            i = i + 1;
        }
        let mut k: usize = 0;
        while k < entries.len()
            invariant
                *entries == self.entry->direntries,
                self.entry is Directory,
                self.header.filetype == Filetype::Directory,
                tree_wf(*self),
                k <= entries@.len(),
                forall|d: &DirectoryEntry| call_requires(*callback, (d,)),
                forall|j: int| 0 <= j < entries@.len() ==> call_ensures(*callback, (&entries@[j],), Ok::<(), E>(())),
                all_walked_ok(*callback, entries@.take(k as int)),
            decreases entries@.len() - k,
        {
            let child = &entries[k];
            if child.is_directory() {
                proof {
                    lemma_all_wf_index(entries@, k as int);
                }
                match child.walk_tree(callback) {
                    Ok(()) => {},
                    Err(e) => return Err(e),
                }
            }
            proof {
                let t = entries@.take(k as int + 1);
                assert(t.last() == entries@[k as int]);
                assert(t.drop_last() =~= entries@.take(k as int));
                assert(walked_ok(*callback, entries@[k as int]));
                assert(call_ensures(*callback, (&entries@[k as int],), Ok::<(), E>(())));
                assert(all_walked_ok(*callback, t));
            }
            k = k + 1;
        }
        proof {
            assert(entries@.take(entries@.len() as int) =~= entries@);
        }
        Ok(())
    }

    /// Walks the entries of a directory that are directories the same way,
    /// then calls `callback` on each entry, in order; stops at the first
    /// error `callback` returns, and returns it. Only the entries below it
    /// are handed to `callback`: its own head stays, and a directory keeps
    /// as many entries. Nothing is walked below another file.
    #[verifier::loop_isolation(false)]
    pub fn walk_tree_mut<E, F: FnMut(&mut DirectoryEntry) -> Result<(), E>>(&mut self, callback: &mut F) -> (r: Result<(), E>)
        requires
            tree_wf(*old(self)),
            forall|f: F, d: &mut DirectoryEntry| call_requires(f, (d,)),
        ensures
            final(self).header == old(self).header,
            old(self).header.filetype != Filetype::Directory ==> r is Ok && *final(self) == *old(self),
            old(self).entry is Directory ==> final(self).entry is Directory
                && final(self).entry->direntries@.len() == old(self).entry->direntries@.len(),
        decreases *old(self),
    {
        if !self.is_directory() {
            return Ok(());
        }
        let ghost before = *self;
        let direntries = match self.directory_entries_mut() {
            Ok(v) => v,
            Err(_) => return Ok(()),
        };
        let mut k: usize = 0;
        while k < direntries.len()
            invariant
                k <= direntries@.len(),
                direntries@.len() == before.entry->direntries@.len(),
                forall|j: int| k <= j < direntries@.len() ==> direntries@[j] == before.entry->direntries@[j],
                all_wf(before.entry->direntries@),
                before.entry is Directory,
                forall|f: F, d: &mut DirectoryEntry| call_requires(f, (d,)),
            decreases direntries@.len() - k,
        {
            if direntries[k].is_directory() {
                proof {
                    lemma_all_wf_index(before.entry->direntries@, k as int);
                    assert(decreases_to!(before => before.entry->direntries@[k as int]));
                }
                match direntries[k].walk_tree_mut(callback) {
                    Ok(()) => {},
                    Err(e) => return Err(e),
                }
            }
            k = k + 1;
        }
        let mut i: usize = 0;
        while i < direntries.len()
            invariant
                i <= direntries@.len(),
                direntries@.len() == before.entry->direntries@.len(),
                forall|f: F, d: &mut DirectoryEntry| call_requires(f, (d,)),
            decreases direntries@.len() - i,
        {
            match callback(&mut direntries[i]) {
                Ok(()) => {},
                Err(e) => return Err(e),
            }
            i = i + 1;
        }
        Ok(())
    }

    /// Whether it is a directory.
    pub fn is_directory(&self) -> (r: bool)
        ensures
            r == (self.header.filetype == Filetype::Directory),
    {
        self.header.filetype == Filetype::Directory
    }

    /// The entries of a directory that holds its entries.
    pub fn directory_entries_mut(&mut self) -> (r: Result<&mut Vec<DirectoryEntry>, VfsError>)
        ensures
            old(self).entry is Directory ==> (r matches Ok(v) && *v == old(self).entry->direntries
                && final(self).header == old(self).header && final(self).entry == (Entry::Directory {
                direntries: *final(v),
            })),
            !(old(self).entry is Directory) ==> r == Err::<&mut Vec<DirectoryEntry>, VfsError>(VfsError::IsNotADirectory)
                && *final(self) == *old(self),
    {
        match &mut self.entry {
            Entry::Directory { direntries } => Ok(direntries),
            _ => Err(VfsError::IsNotADirectory),
        }
    }
}

} // verus!
