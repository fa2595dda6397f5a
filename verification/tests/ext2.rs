use std::cell::RefCell;
use turbofish::drivers::storage::ext2::{BufferSegment, DiskIoBios};
use turbofish::drivers::storage::tools::Sector;
use turbofish::drivers::storage::vfs::Errno;
use turbofish::drivers::storage::DiskError;

fn sector_bytes(s: Sector) -> Vec<u8> {
    (0..512).map(|i| ((s.0 * 3 + i) % 251) as u8).collect()
}

fn read_ok(s: Sector) -> Result<Vec<u8>, DiskError> {
    Ok(sector_bytes(s))
}

#[test]
fn segments_split_at_sector_ends() {
    let disk = DiskIoBios::new(1024, 1 << 20);
    let segs = disk.segments(500, 600);
    assert_eq!(
        segs,
        vec![
            BufferSegment { sector: Sector(2), offset_in_sector: 500, size: 12, position: 0 },
            BufferSegment { sector: Sector(3), offset_in_sector: 0, size: 512, position: 12 },
            BufferSegment { sector: Sector(4), offset_in_sector: 0, size: 76, position: 524 },
        ]
    );
}

#[test]
fn empty_transfer_has_one_empty_segment() {
    let disk = DiskIoBios::new(0, 4096);
    let segs = disk.segments(10, 0);
    assert_eq!(segs, vec![BufferSegment { sector: Sector(0), offset_in_sector: 10, size: 0, position: 0 }]);
}

#[test]
fn read_buffer_gathers_bytes() {
    let mut disk = DiskIoBios::new(512, 1 << 20);
    let data = disk.read_buffer(510, 4, read_ok).unwrap();
    let s1 = sector_bytes(Sector(1));
    let s2 = sector_bytes(Sector(2));
    assert_eq!(data, vec![s1[510], s1[511], s2[0], s2[1]]);
}

#[test]
fn read_buffer_failure_is_eio() {
    let mut disk = DiskIoBios::new(0, 4096);
    let r = disk.read_buffer(0, 10, |_s: Sector| -> Result<Vec<u8>, DiskError> { Err(DiskError::IOError) });
    assert_eq!(r, Err(Errno::Eio));
}

#[test]
fn write_buffer_patches_all_but_the_last_sector() {
    let written: RefCell<Vec<(Sector, Vec<u8>)>> = RefCell::new(Vec::new());
    let mut disk = DiskIoBios::new(0, 1 << 20);
    let data: Vec<u8> = vec![0xAA; 20];
    let r = disk.write_buffer(
        500,
        &data,
        read_ok,
        |s: Sector, p: Vec<u8>| -> Result<(), DiskError> {
            written.borrow_mut().push((s, p));
            Ok(())
        },
    );
    assert_eq!(r, Ok(20));
    let w = written.borrow();
    assert_eq!(w.len(), 1);
    assert_eq!(w[0].0, Sector(0));
    let mut expected = sector_bytes(Sector(0));
    for b in expected[500..512].iter_mut() {
        *b = 0xAA;
    }
    assert_eq!(w[0].1, expected);
}

#[test]
fn write_buffer_write_failure_is_eio() {
    let mut disk = DiskIoBios::new(0, 1 << 20);
    let data: Vec<u8> = vec![1; 600];
    let r = disk.write_buffer(0, &data, read_ok, |_s: Sector, _p: Vec<u8>| -> Result<(), DiskError> {
        Err(DiskError::IOError)
    });
    assert_eq!(r, Err(Errno::Eio));
}
