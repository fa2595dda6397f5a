//! The state of the current user: its ids, its working directory and its
//! open file descriptors.
use super::fildes::{Fd, Fildes, KeyGenerator, Mapper, MapperResult};
use vstd::prelude::*;
use std::collections::BTreeMap;

verus! {

broadcast use vstd::std_specs::btree::group_btree_axioms;

/// A user id.
pub type UserId = usize;

/// A group id.
pub type GroupId = usize;

/// The identifier of a directory entry.
#[derive(Debug, Copy, Clone, PartialEq, Eq, Structural)]
pub struct DirectoryEntryId(pub usize);

/// The current user: working directory, ids and open file descriptors.
pub struct Current {
    pub cwd: DirectoryEntryId,
    pub uid: UserId,
    pub euid: UserId,
    pub gid: GroupId,
    pub egid: GroupId,
    pub open_fds: BTreeMap<Fd, Fildes>,
}

impl KeyGenerator for Current {
    /// A descriptor can be given when it is not open.
    open spec fn spec_gen_filter(&self, fd: Fd) -> bool {
        !self.open_fds@.contains_key(fd)
    }

    fn gen_filter(&self, fd: Fd) -> (r: bool) {
        !self.open_fds.contains_key(&fd)
    }
}

impl Mapper<Fildes> for Current {
    open spec fn spec_map(&self) -> Map<usize, Fildes> {
        self.open_fds@
    }

    open spec fn same_but_map(&self, other: &Self) -> bool {
        &&& self.cwd == other.cwd
        &&& self.uid == other.uid
        &&& self.euid == other.euid
        &&& self.gid == other.gid
        &&& self.egid == other.egid
    }

    proof fn lemma_filter_follows_map(&self, other: &Self, key: usize) {
    }

    proof fn lemma_filter_is_free(&self, key: usize) {
    }

    proof fn lemma_has_free_key(&self) {
        lemma_fd_keys_ordered();
        lemma_free_key(self.open_fds@.dom(), self.open_fds.len() as nat);
        let k = choose|k: usize| !self.open_fds@.dom().contains(k);
        assert(self.spec_gen_filter(k));
    }

    fn get_map(&mut self) -> (m: &mut BTreeMap<usize, Fildes>) {
        &mut self.open_fds
    }
}

/// File descriptors are ordered as the maps of open descriptors need.
proof fn lemma_fd_keys_ordered()
    ensures
        vstd::std_specs::btree::key_obeys_cmp_spec::<usize>(),
{
    assert(vstd::laws_cmp::obeys_cmp::<usize>());
}

/// A finite set of `n` integers of `usize`, with `n` itself a `usize`,
/// misses one of them.
proof fn lemma_free_key(s: Set<usize>, n: nat)
    requires
        s.finite(),
        s.len() == n,
        n <= usize::MAX,
    ensures
        exists|k: usize| !s.contains(k),
{
    if forall|k: usize| s.contains(k) {
        let range = vstd::set_lib::set_int_range(0, n as int + 1);
        let f = |i: int| i as usize;
        vstd::set_lib::lemma_int_range(0, n as int + 1);
        assert(vstd::relations::injective_on(f, range)) by {
            assert forall|i: int, j: int|
                range.contains(i) && range.contains(j) && #[trigger] f(i) == #[trigger] f(j) implies i
                == j by {
            }
        }
        vstd::set_lib::lemma_map_size(range, range.map(f), f);
        assert(range.map(f).subset_of(s));
        vstd::set_lib::lemma_len_subset(range.map(f), s);
    }
}

impl Current {
    /// Opens the descriptor `fildes` under the lowest file descriptor not
    /// open, and returns it.
    pub fn add_fd(&mut self, fildes: Fildes) -> (r: MapperResult<Fd>)
        ensures
            r matches Ok(fd) && !old(self).open_fds@.contains_key(fd) && (forall|j: usize|
                j < fd ==> old(self).open_fds@.contains_key(j)) && final(self).open_fds@ == old(
                self,
            ).open_fds@.insert(fd, fildes),
            final(self).cwd == old(self).cwd,
            final(self).uid == old(self).uid,
            final(self).euid == old(self).euid,
            final(self).gid == old(self).gid,
            final(self).egid == old(self).egid,
    {
        let r = self.add_entry(fildes);
        proof {
            if let Ok(fd) = r {
                assert forall|j: usize| j < fd implies old(self).open_fds@.contains_key(j) by {
                    assert(!old(self).spec_gen_filter(j));
                }
            }
        }
        r
    }

    /// Closes the file descriptor `fd` and returns what it held;
    /// `NoSuchEntry`, with nothing changed, when it is not open.
    pub fn remove_fd(&mut self, fd: Fd) -> (r: MapperResult<Fildes>)
        ensures
            old(self).open_fds@.contains_key(fd) ==> r == Ok::<Fildes, super::fildes::MapperError>(
                old(self).open_fds@[fd],
            ) && final(self).open_fds@ == old(self).open_fds@.remove(fd),
            !old(self).open_fds@.contains_key(fd) ==> r == Err::<
                Fildes,
                super::fildes::MapperError,
            >(super::fildes::MapperError::NoSuchEntry) && final(self).open_fds@ == old(
                self,
            ).open_fds@,
            final(self).cwd == old(self).cwd,
            final(self).uid == old(self).uid,
            final(self).euid == old(self).euid,
            final(self).gid == old(self).gid,
            final(self).egid == old(self).egid,
    {
        self.remove_entry(fd)
    }
}

/// Closing the descriptor just opened gives back what was opened and the
/// descriptors open before.
pub proof fn lemma_add_then_remove_fd(open_fds: Map<Fd, Fildes>, fd: Fd, fildes: Fildes)
    requires
        !open_fds.contains_key(fd),
    ensures
        open_fds.insert(fd, fildes).contains_key(fd),
        open_fds.insert(fd, fildes)[fd] == fildes,
        open_fds.insert(fd, fildes).remove(fd) == open_fds,
{
    assert(open_fds.insert(fd, fildes).remove(fd) =~= open_fds);
}

} // verus!
