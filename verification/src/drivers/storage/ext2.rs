//! The disk under the ext2 file system, through the BIOS: reads and
//! writes of bytes at any offset of a partition, made of whole sectors.
//!
//! Each sector is read and written by the caller, through the closures it
//! hands; the library computes which sectors, and which of their bytes.
use super::tools::Sector;
use super::vfs::Errno;
use super::DiskError;
use vstd::prelude::*;

verus! {

/// The size of a sector.
pub const SECTOR_BYTES: u64 = 512;

/// The part of one sector a transfer of bytes goes through: the sector,
/// where in it the bytes are, how many, and where they are in the bytes
/// transferred.
#[derive(Debug, Copy, Clone, PartialEq, Eq, Structural)]
pub struct BufferSegment {
    pub sector: Sector,
    pub offset_in_sector: usize,
    pub size: usize,
    pub position: usize,
}

/// The segments of a transfer of `remaining` bytes from the byte `off` of
/// a partition starting at the byte `start`, the first at `pos` in the
/// bytes transferred: each goes to the end of its sector or of the
/// transfer. A transfer of no byte still goes through one (empty) segment.
pub open spec fn segments_from(start: int, off: int, pos: int, remaining: int) -> Seq<BufferSegment>
    decreases remaining,
{
    let in_sector = off % 512;
    let size = if 512 - in_sector < remaining {
        512 - in_sector
    } else {
        remaining
    };
    let seg = BufferSegment {
        sector: Sector(((off + start) / 512) as usize),
        offset_in_sector: in_sector as usize,
        size: size as usize,
        position: pos as usize,
    };
    if size >= remaining || size <= 0 {
        seq![seg]
    } else {
        seq![seg] + segments_from(start, off + size, pos + size, remaining - size)
    }
}

/// The disk of a partition, read and written through the BIOS.
pub struct DiskIoBios {
    start_of_partition: u64,
    partition_size: u64,
}

/// `data` holds, for `seg`, the bytes of the sector `read_sector` gave.
pub open spec fn segment_filled<F: Fn(Sector) -> Result<Vec<u8>, DiskError>>(
    read_sector: F,
    seg: BufferSegment,
    data: Seq<u8>,
) -> bool {
    exists|d: Vec<u8>|
        call_ensures(read_sector, (seg.sector,), Ok::<Vec<u8>, DiskError>(d)) && forall|k: int|
            0 <= k < seg.size ==> #[trigger] data[seg.position + k] == d@[seg.offset_in_sector + k]
}

/// The sector of `seg` was written with the bytes `read_sector` gave for
/// it, patched with those of `data` that go there.
pub open spec fn segment_written<F: Fn(Sector) -> Result<Vec<u8>, DiskError>, W: Fn(Sector, Vec<u8>) -> Result<
    (),
    DiskError,
>>(read_sector: F, write_sector: W, seg: BufferSegment, data: Seq<u8>) -> bool {
    exists|d: Vec<u8>, p: Vec<u8>, w: Result<(), DiskError>|
        call_ensures(read_sector, (seg.sector,), Ok::<Vec<u8>, DiskError>(d)) && call_ensures(
            write_sector,
            (seg.sector, p),
            w,
        ) && w is Ok && p@.len() == 512 && forall|k: int|
            0 <= k < 512 ==> #[trigger] p@[k] == if seg.offset_in_sector <= k
                < seg.offset_in_sector + seg.size {
                data[seg.position + k - seg.offset_in_sector]
            } else {
                d@[k]
            }
}

/// A read of the sector of one of `segs` failed.
pub open spec fn some_read_failed<F: Fn(Sector) -> Result<Vec<u8>, DiskError>>(
    read_sector: F,
    segs: Seq<BufferSegment>,
) -> bool {
    exists|i: int, e: DiskError|
        0 <= i < segs.len() && #[trigger] call_ensures(
            read_sector,
            (segs[i].sector,),
            Err::<Vec<u8>, DiskError>(e),
        )
}

/// A write of the sector of one of `segs` but the last failed.
pub open spec fn some_write_failed<W: Fn(Sector, Vec<u8>) -> Result<(), DiskError>>(
    write_sector: W,
    segs: Seq<BufferSegment>,
) -> bool {
    exists|i: int, p: Vec<u8>, e: DiskError|
        0 <= i < segs.len() - 1 && #[trigger] call_ensures(
            write_sector,
            (segs[i].sector, p),
            Err::<(), DiskError>(e),
        )
}

impl DiskIoBios {
    /// The start of the partition (in bytes).
    pub closed spec fn start(self) -> u64 {
        self.start_of_partition
    }

    /// The size of the partition (in bytes).
    pub closed spec fn size(self) -> u64 {
        self.partition_size
    }

    /// The disk of the partition of `partition_size` bytes starting at
    /// the byte `start_of_partition`.
    pub fn new(start_of_partition: u64, partition_size: u64) -> (r: Self)
        ensures
            r.start() == start_of_partition,
            r.size() == partition_size,
    {
        DiskIoBios { start_of_partition, partition_size }
    }

    /// The segments of a transfer of `len` bytes from the byte `offset` of
    /// the partition (see `segments_from`).
    pub fn segments(&self, offset: u64, len: usize) -> (r: Vec<BufferSegment>)
        requires
            self.start() + offset + len <= u64::MAX,
        ensures
            r@ == segments_from(self.start() as int, offset as int, 0, len as int),
    {
        let mut r: Vec<BufferSegment> = Vec::new();
        let mut off: u64 = offset;
        let mut pos: usize = 0;
        let mut remaining: usize = len;
        loop
            invariant
                self.start() + off + remaining <= u64::MAX,
                pos + remaining == len,
                r@ + segments_from(self.start() as int, off as int, pos as int, remaining as int)
                    == segments_from(self.start() as int, offset as int, 0, len as int),
            decreases remaining,
        {
            let in_sector = off % SECTOR_BYTES;
            let size: usize = if ((SECTOR_BYTES - in_sector) as usize) < remaining {
                (SECTOR_BYTES - in_sector) as usize
            } else {
                remaining
            };
            let seg = BufferSegment {
                sector: Sector::from(off + self.start_of_partition),
                offset_in_sector: in_sector as usize,
                size,
                position: pos,
            };
            let ghost rest = segments_from(self.start() as int, off as int, pos as int, remaining as int);
            r.push(seg);
            if size >= remaining {
                proof {
                    assert(rest == seq![seg]);
                    assert(r@ =~= segments_from(self.start() as int, offset as int, 0, len as int));
                }
                return r;
            }
            proof {
                assert(rest == seq![seg] + segments_from(
                    self.start() as int,
                    off + size,
                    pos + size,
                    remaining - size,
                ));
                assert(r@ + segments_from(
                    self.start() as int,
                    off + size,
                    pos + size,
                    remaining - size,
                ) =~= r@.drop_last() + rest);
            }
            off = off + size as u64;
            pos = pos + size;
            remaining = remaining - size;
        }
    }

    /// Reads `len` bytes from the byte `offset` of the partition, each
    /// sector through `read_sector` (which answers its 512 bytes): each
    /// segment of the transfer holds the bytes of its sector. `Eio` when a
    /// read fails.
    pub fn read_buffer<F: Fn(Sector) -> Result<Vec<u8>, DiskError>>(
        &mut self,
        offset: u64,
        len: usize,
        read_sector: F,
    ) -> (r: Result<Vec<u8>, Errno>)
        requires
            old(self).start() + offset + len <= u64::MAX,
            forall|s: Sector| call_requires(read_sector, (s,)),
            forall|s: Sector, d: Vec<u8>|
                call_ensures(read_sector, (s,), Ok::<Vec<u8>, DiskError>(d)) ==> d@.len() == 512,
        ensures
            final(self).start() == old(self).start(),
            final(self).size() == old(self).size(),
            r matches Err(e) ==> e == Errno::Eio && some_read_failed(
                read_sector,
                segments_from(old(self).start() as int, offset as int, 0, len as int),
            ),
            r matches Ok(data) ==> data@.len() == len && forall|i: int|
                0 <= i < segments_from(old(self).start() as int, offset as int, 0, len as int).len()
                    ==> segment_filled(
                    read_sector,
                    #[trigger] segments_from(old(self).start() as int, offset as int, 0, len as int)[i],
                    data@,
                ),
    {
        let segs = self.segments(offset, len);
        proof {
            lemma_segments_fit(self.start() as int, offset as int, 0, len as int);
        }
        let mut data: Vec<u8> = Vec::new();
        let mut k: usize = 0;
        while k < len
            invariant
                k <= len,
                data@.len() == k,
            decreases len - k,
        {
            data.push(0);
            k = k + 1;
        }
        let mut i: usize = 0;
        while i < segs.len()
            invariant
                forall|s: Sector| call_requires(read_sector, (s,)),
                forall|s: Sector, d: Vec<u8>|
                    call_ensures(read_sector, (s,), Ok::<Vec<u8>, DiskError>(d)) ==> d@.len() == 512,
                forall|j: int| 0 <= j < segs@.len() ==> segment_fits(#[trigger] segs@[j], 0, len as int),
                forall|j: int, l: int|
                    0 <= j < l < segs@.len() ==> #[trigger] segs@[j].position + segs@[j].size
                        <= #[trigger] segs@[l].position,
                i <= segs@.len(),
                segs@ == segments_from(self.start() as int, offset as int, 0, len as int),
                data@.len() == len,
                forall|j: int| 0 <= j < i ==> segment_filled(read_sector, #[trigger] segs@[j], data@),
            decreases segs@.len() - i,
        {
            let seg = segs[i];
            let d = match read_sector(seg.sector) {
                Ok(d) => d,
                Err(e) => {
                    proof {
                        assert(call_ensures(read_sector, (segs@[i as int].sector,), Err::<Vec<u8>, DiskError>(e)));
                        assert(some_read_failed(read_sector, segs@));
                    }
                    return Err(Errno::Eio);
                },
            };
            let ghost before = data@;
            let mut k: usize = 0;
            while k < seg.size
                invariant
                    seg.position + seg.size <= len,
                    seg.offset_in_sector + seg.size <= 512,
                    d@.len() == 512,
                    data@.len() == len,
                    k <= seg.size,
                    forall|m: int|
                        0 <= m < len ==> #[trigger] data@[m] == if seg.position <= m < seg.position + k {
                            d@[seg.offset_in_sector + m - seg.position]
                        } else {
                            before[m]
                        },
                decreases seg.size - k,
            {
                data.set(seg.position + k, d[seg.offset_in_sector + k]);
                k = k + 1;
            }
            proof {
                assert forall|j: int| 0 <= j < i + 1 implies segment_filled(
                    read_sector,
                    #[trigger] segs@[j],
                    data@,
                ) by {
                    if j < i {
                        let dj = choose|dj: Vec<u8>|
                            call_ensures(read_sector, (segs@[j].sector,), Ok::<Vec<u8>, DiskError>(dj))
                                && forall|k: int|
                                0 <= k < segs@[j].size ==> #[trigger] before[segs@[j].position + k]
                                    == dj@[segs@[j].offset_in_sector + k];
                        assert forall|k: int| 0 <= k < segs@[j].size implies #[trigger] data@[segs@[j].position
                            + k] == dj@[segs@[j].offset_in_sector + k] by {
                            assert(data@[segs@[j].position + k] == before[segs@[j].position + k]);
                        }
                    } else {
                        assert forall|k: int| 0 <= k < seg.size implies #[trigger] data@[seg.position + k]
                            == d@[seg.offset_in_sector + k] by {
                            assert(data@[seg.position + k] == d@[seg.offset_in_sector + seg.position + k
                                - seg.position]);
                        }
                    }
                }
            }
            i = i + 1;
        }
        Ok(data)
    }
}

impl DiskIoBios {
    /// Writes the bytes `data` from the byte `offset` of the partition:
    /// for each segment of the transfer, its sector is read through
    /// `read_sector` (which answers its 512 bytes) and patched with the
    /// bytes that go there, then written back through `write_sector`,
    /// except the last one, which is left unwritten. `Eio` when a read or
    /// a write fails.
    pub fn write_buffer<
        F: Fn(Sector) -> Result<Vec<u8>, DiskError>,
        W: Fn(Sector, Vec<u8>) -> Result<(), DiskError>,
    >(&mut self, offset: u64, data: &Vec<u8>, read_sector: F, write_sector: W) -> (r: Result<u64, Errno>)
        requires
            old(self).start() + offset + data@.len() <= u64::MAX,
            forall|s: Sector| call_requires(read_sector, (s,)),
            forall|s: Sector, d: Vec<u8>|
                call_ensures(read_sector, (s,), Ok::<Vec<u8>, DiskError>(d)) ==> d@.len() == 512,
            forall|s: Sector, p: Vec<u8>| call_requires(write_sector, (s, p)),
        ensures
            final(self).start() == old(self).start(),
            final(self).size() == old(self).size(),
            r matches Err(e) ==> e == Errno::Eio && (some_read_failed(
                read_sector,
                segments_from(old(self).start() as int, offset as int, 0, data@.len() as int),
            ) || some_write_failed(
                write_sector,
                segments_from(old(self).start() as int, offset as int, 0, data@.len() as int),
            )),
            r matches Ok(n) ==> n == data@.len() && forall|i: int|
                0 <= i < segments_from(old(self).start() as int, offset as int, 0, data@.len() as int).len()
                    - 1 ==> segment_written(
                    read_sector,
                    write_sector,
                    #[trigger] segments_from(old(self).start() as int, offset as int, 0, data@.len() as int)[i],
                    data@,
                ),
    {
        let len = data.len();
        let segs = self.segments(offset, len);
        proof {
            lemma_segments_fit(self.start() as int, offset as int, 0, len as int);
            assert(segs@.len() >= 1);
        }
        let last = segs.len() - 1;
        let mut i: usize = 0;
        while i < last
            invariant
                forall|s: Sector| call_requires(read_sector, (s,)),
                forall|s: Sector, d: Vec<u8>|
                    call_ensures(read_sector, (s,), Ok::<Vec<u8>, DiskError>(d)) ==> d@.len() == 512,
                forall|s: Sector, p: Vec<u8>| call_requires(write_sector, (s, p)),
                forall|j: int| 0 <= j < segs@.len() ==> segment_fits(#[trigger] segs@[j], 0, len as int),
                len == data@.len(),
                segs@ == segments_from(self.start() as int, offset as int, 0, len as int),
                last == segs@.len() - 1,
                i <= last,
                forall|j: int|
                    0 <= j < i ==> segment_written(read_sector, write_sector, #[trigger] segs@[j], data@),
            decreases last - i,
        {
            let seg = segs[i];
            let read = read_sector(seg.sector);
            let mut sector = match read {
                Ok(d) => d,
                Err(e) => {
                    proof {
                        assert(call_ensures(read_sector, (segs@[i as int].sector,), Err::<Vec<u8>, DiskError>(e)));
                        assert(some_read_failed(read_sector, segs@));
                    }
                    return Err(Errno::Eio);
                },
            };
            let ghost dv = sector;
            let mut k: usize = 0;
            while k < seg.size
                invariant
                    seg.position + seg.size <= len,
                    len == data@.len(),
                    seg.offset_in_sector + seg.size <= 512,
                    dv@.len() == 512,
                    sector@.len() == 512,
                    k <= seg.size,
                    forall|m: int|
                        0 <= m < 512 ==> #[trigger] sector@[m] == if seg.offset_in_sector <= m
                            < seg.offset_in_sector + k {
                            data@[seg.position + m - seg.offset_in_sector]
                        } else {
                            dv@[m]
                        },
                decreases seg.size - k,
            {
                sector.set(seg.offset_in_sector + k, data[seg.position + k]);
                k = k + 1;
            }
            let ghost patched = sector;
            let written = write_sector(seg.sector, sector);
            match written {
                Ok(()) => {},
                Err(e) => {
                    proof {
                        assert(call_ensures(write_sector, (segs@[i as int].sector, patched), Err::<(), DiskError>(e)));
                        assert(some_write_failed(write_sector, segs@));
                    }
                    return Err(Errno::Eio);
                },
            }
            proof {
                assert(call_ensures(read_sector, (seg.sector,), Ok::<Vec<u8>, DiskError>(dv)));
                assert(call_ensures(write_sector, (seg.sector, patched), written) && written is Ok);
                assert(segment_written(read_sector, write_sector, seg, data@));
            }
            i = i + 1;
        }
        match read_sector(segs[last].sector) {
            Ok(_) => {},
            Err(e) => {
                proof {
                    assert(call_ensures(read_sector, (segs@[last as int].sector,), Err::<Vec<u8>, DiskError>(e)));
                    assert(some_read_failed(read_sector, segs@));
                }
                return Err(Errno::Eio);
            },
        }
        Ok(len as u64)
    }
}

/// The segments of a transfer cover it in order: each lies within the
/// transfer and within its sector, and each ends before the next starts.
pub proof fn lemma_segments_fit(start: int, off: int, pos: int, remaining: int)
    requires
        0 <= off,
        0 <= pos,
        0 <= remaining,
        pos + remaining <= usize::MAX,
    ensures
        forall|j: int|
            0 <= j < segments_from(start, off, pos, remaining).len() ==> segment_fits(
                #[trigger] segments_from(start, off, pos, remaining)[j],
                pos,
                pos + remaining,
            ),
        forall|j: int, l: int|
            0 <= j < l < segments_from(start, off, pos, remaining).len() ==> #[trigger] segments_from(
                start,
                off,
                pos,
                remaining,
            )[j].position + segments_from(start, off, pos, remaining)[j].size
                <= #[trigger] segments_from(start, off, pos, remaining)[l].position,
    decreases remaining,
{
    let segs = segments_from(start, off, pos, remaining);
    let in_sector = off % 512;
    let size = if 512 - in_sector < remaining {
        512 - in_sector
    } else {
        remaining
    };
    if !(size >= remaining || size <= 0) {
        let rest = segments_from(start, off + size, pos + size, remaining - size);
        lemma_segments_fit(start, off + size, pos + size, remaining - size);
        assert(segs == seq![segs[0]] + rest);
        assert forall|j: int| 0 <= j < segs.len() implies segment_fits(
            #[trigger] segs[j],
            pos,
            pos + remaining,
        ) by {
            if j > 0 {
                assert(segs[j] == rest[j - 1]);
            }
        }
        assert forall|j: int, l: int| 0 <= j < l < segs.len() implies #[trigger] segs[j].position
            + segs[j].size <= #[trigger] segs[l].position by {
            assert(segs[l] == rest[l - 1]);
            if j > 0 {
                assert(segs[j] == rest[j - 1]);
            } else {
                assert(segment_fits(rest[l - 1], pos + size, pos + remaining));
            }
        }
    }
}

/// `seg` lies between `lo` and `hi` in the bytes transferred, and within
/// its sector.
pub open spec fn segment_fits(seg: BufferSegment, lo: int, hi: int) -> bool {
    &&& lo <= seg.position
    &&& seg.position + seg.size <= hi
    &&& seg.offset_in_sector + seg.size <= 512
}


/// The segments of a transfer cover it without a gap: the first starts
/// where the transfer starts, each starts where the one before it ends,
/// and the last ends where the transfer ends.
pub proof fn lemma_segments_cover(start: int, off: int, pos: int, remaining: int)
    requires
        0 <= off,
        0 <= pos,
        0 <= remaining,
        pos + remaining <= usize::MAX,
    ensures
        segments_from(start, off, pos, remaining).len() >= 1,
        segments_from(start, off, pos, remaining)[0].position == pos,
        segments_from(start, off, pos, remaining).last().position + segments_from(
            start,
            off,
            pos,
            remaining,
        ).last().size == pos + remaining,
        forall|j: int|
            0 <= j < segments_from(start, off, pos, remaining).len() - 1 ==> #[trigger] segments_from(
                start,
                off,
                pos,
                remaining,
            )[j].position + segments_from(start, off, pos, remaining)[j].size == segments_from(
                start,
                off,
                pos,
                remaining,
            )[j + 1].position,
    decreases remaining,
{
    let segs = segments_from(start, off, pos, remaining);
    let in_sector = off % 512;
    let size = if 512 - in_sector < remaining {
        512 - in_sector
    } else {
        remaining
    };
    if !(size >= remaining || size <= 0) {
        let rest = segments_from(start, off + size, pos + size, remaining - size);
        lemma_segments_cover(start, off + size, pos + size, remaining - size);
        assert(segs == seq![segs[0]] + rest);
        assert(segs.last() == rest.last());
        assert forall|j: int| 0 <= j < segs.len() - 1 implies #[trigger] segs[j].position
            + segs[j].size == segs[j + 1].position by {
            assert(segs[j + 1] == rest[j]);
            if j > 0 {
                assert(segs[j] == rest[j - 1]);
            }
        }
    }
}

} // verus!
