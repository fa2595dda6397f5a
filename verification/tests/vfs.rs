use turbofish::drivers::storage::vfs::direntry::{DirectoryEntry, Entry, Filetype, VfsError};
use std::collections::BTreeMap;
use std::convert::TryFrom;
use turbofish::drivers::storage::vfs::direntry::Filename;
use turbofish::drivers::storage::vfs::fildes::{Fildes, KeyGenerator, MapperError};
use turbofish::drivers::storage::vfs::user::{Current, DirectoryEntryId};
use turbofish::drivers::storage::vfs::Errno;

fn current() -> Current {
    Current { cwd: DirectoryEntryId(1), uid: 0, euid: 0, gid: 0, egid: 0, open_fds: BTreeMap::new() }
}

#[test]
fn add_fd_takes_the_lowest_free() {
    let mut c = current();
    assert_eq!(c.add_fd(Fildes::new(10)), Ok(0));
    assert_eq!(c.add_fd(Fildes::new(11)), Ok(1));
    assert_eq!(c.add_fd(Fildes::new(12)), Ok(2));
    assert_eq!(c.remove_fd(1), Ok(Fildes::new(11)));
    assert_eq!(c.add_fd(Fildes::new(13)), Ok(1));
    assert_eq!(c.open_fds.get(&1).map(|f| f.ofd_id()), Some(13));
    assert_eq!(c.cwd, DirectoryEntryId(1));
}

#[test]
fn remove_of_a_closed_fd() {
    let mut c = current();
    assert_eq!(c.remove_fd(3), Err(MapperError::NoSuchEntry));
    assert!(c.open_fds.is_empty());
}

#[test]
fn add_then_remove_leaves_the_table() {
    let mut c = current();
    c.add_fd(Fildes::new(1)).unwrap();
    let before: Vec<usize> = c.open_fds.keys().cloned().collect();
    let fd = c.add_fd(Fildes::new(2)).unwrap();
    assert_eq!(c.remove_fd(fd), Ok(Fildes::new(2)));
    let after: Vec<usize> = c.open_fds.keys().cloned().collect();
    assert_eq!(before, after);
}

#[test]
fn gen_filter_skips_open_fds() {
    let mut c = current();
    c.add_fd(Fildes::new(5)).unwrap();
    assert!(!c.gen_filter(0));
    assert!(c.gen_filter(1));
    assert_eq!(c.gen(), 1);
}

#[test]
fn filename_from_str() {
    let f = Filename::try_from("hello").unwrap();
    assert_eq!(f.1, 5);
    assert_eq!(&f.0[..5], b"hello");
    assert!(f.0[5..].iter().all(|&b| b == 0));
}

#[test]
fn filename_too_long() {
    let long = "a".repeat(256);
    assert!(matches!(Filename::try_from(long.as_str()), Err(Errno::Enametoolong)));
    let longest = "b".repeat(255);
    assert_eq!(Filename::from_bytes(longest.as_bytes()).map(|f| f.1).ok(), Some(255));
}

#[test]
fn filename_default_is_empty() {
    let f = Filename::default();
    assert_eq!(f.1, 0);
    assert!(f.0.iter().all(|&b| b == 0));
}

#[test]
fn directory_entries_grow_in_order() {
    let mut root = DirectoryEntry::new("root", Filetype::Directory, 2).ok().unwrap();
    assert!(root.is_directory());
    assert_eq!(root.get_filename(), b"root".to_vec());
    assert_eq!((root.header.inode, root.header.name_size), (2, 4));
    assert_eq!(root.directory_entries().ok().map(|v| v.len()), Some(0));
    let home = DirectoryEntry::new("home", Filetype::Directory, 3).ok().unwrap();
    let added = root.add_direntry(home).ok().unwrap();
    assert_eq!(added.header.inode, 3);
    added.header.inode = 30;
    let etc = DirectoryEntry::new("etc", Filetype::Directory, 4).ok().unwrap();
    root.add_direntry(etc).ok().unwrap();
    let names: Vec<Vec<u8>> = root.directory_entries().ok().unwrap().iter().map(|e| e.get_filename()).collect();
    assert_eq!(names, vec![b"home".to_vec(), b"etc".to_vec()]);
    assert_eq!(root.directory_entries().ok().unwrap()[0].header.inode, 30);
    root.directory_entries_mut().ok().unwrap().pop();
    assert_eq!(root.directory_entries().ok().unwrap().len(), 1);
    let long = "x".repeat(256);
    assert_eq!(DirectoryEntry::new(&long, Filetype::RegularFile, 5).err(), Some(VfsError::Errno(Errno::Enametoolong)));
    let mut file = DirectoryEntry::new("f", Filetype::Directory, 6).ok().unwrap();
    file.header.filetype = Filetype::RegularFile;
    file.entry = Entry::RegularFile;
    assert!(!file.is_directory());
    assert_eq!(file.directory_entries().err(), Some(VfsError::IsNotADirectory));
    assert_eq!(file.directory_entries_mut().err(), Some(VfsError::IsNotADirectory));
    let other = DirectoryEntry::new("g", Filetype::Directory, 7).ok().unwrap();
    assert_eq!(file.add_direntry(other).err(), Some(VfsError::IsNotADirectory));
}

fn small_tree() -> DirectoryEntry {
    let mut root = DirectoryEntry::new("root", Filetype::Directory, 2).ok().unwrap();
    let home = root.add_direntry(DirectoryEntry::new("home", Filetype::Directory, 3).ok().unwrap()).ok().unwrap();
    home.add_direntry(DirectoryEntry::new("user", Filetype::Directory, 5).ok().unwrap()).ok().unwrap();
    root.add_direntry(DirectoryEntry::new("etc", Filetype::Directory, 4).ok().unwrap()).ok().unwrap();
    root
}

#[test]
fn walk_tree_visits_entries_then_subdirectories() {
    let root = small_tree();
    let seen = std::cell::RefCell::new(Vec::new());
    let r = root.walk_tree(&|e: &DirectoryEntry| {
        seen.borrow_mut().push(e.get_filename());
        Ok::<(), u32>(())
    });
    assert_eq!(r, Ok(()));
    assert_eq!(seen.into_inner(), vec![b"home".to_vec(), b"etc".to_vec(), b"user".to_vec()]);
    let seen = std::cell::RefCell::new(Vec::new());
    let r = root.walk_tree(&|e: &DirectoryEntry| {
        seen.borrow_mut().push(e.header.inode);
        if e.header.inode == 4 { Err(7u32) } else { Ok(()) }
    });
    assert_eq!(r, Err(7));
    assert_eq!(seen.into_inner(), vec![3, 4]);
}

#[test]
fn walk_tree_mut_visits_subdirectories_first() {
    let mut root = small_tree();
    let mut order = Vec::new();
    let r = root.walk_tree_mut(&mut |e: &mut DirectoryEntry| {
        order.push(e.header.inode);
        e.header.inode += 100;
        Ok::<(), u32>(())
    });
    assert_eq!(r, Ok(()));
    assert_eq!(order, vec![5, 3, 4]);
    assert_eq!(root.header.inode, 2);
    let inodes: Vec<u32> = root.directory_entries().ok().unwrap().iter().map(|e| e.header.inode).collect();
    assert_eq!(inodes, vec![103, 104]);
}
