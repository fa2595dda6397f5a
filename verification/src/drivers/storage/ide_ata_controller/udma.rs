//! UDMA for the ATA channels: the DMA memory and the bus master registers.
//!
//! See https://wiki.osdev.org/ATA/ATAPI_using_DMA. The registers are read
//! and written by the caller; the library computes the values.
use crate::interrupts::pic_8259::Irq;
use crate::io::{PortWrite, PortWrite32};
use vstd::prelude::*;

verus! {

/// The two channels of a controller.
#[derive(Copy, Clone, Debug, PartialEq, Eq, Structural)]
pub enum Channel {
    Primary,
    Secondary,
}

/// The DMA command register bits.
#[derive(Copy, Clone, Debug, PartialEq, Eq, Structural)]
pub struct DmaCommand {
    pub bits: u8,
}

impl DmaCommand {
    /// Bit 0: start (set) or stop (clear) the DMA transfer.
    pub const ONOFF: u8 = 0x1;
    /// Bit 3: set for a read from the disk, clear for a write.
    pub const RDWR: u8 = 0x8;
}

/// The DMA status register bits.
#[derive(Copy, Clone, Debug, PartialEq, Eq, Structural)]
pub struct DmaStatus {
    pub bits: u8,
}

impl DmaStatus {
    /// Bit 0: set while the bus is in DMA mode.
    pub const STATUS: u8 = 0x1;
    /// Bit 1: set when a DMA transfer failed.
    pub const FAILED: u8 = 0x2;
    /// Bit 2: set when the disk raised the IRQ.
    pub const IRQ: u8 = 0x4;
    /// Bit 7: simplex operation only (obsolete).
    pub const SOO: u8 = 0x80;
}

/// The DMA command byte, at offset 0 from the bus master register.
pub const DMA_COMMAND: u16 = 0x0;

/// The DMA status byte, at offset 2 from the bus master register.
pub const DMA_STATUS: u16 = 0x2;

/// The DMA PRDT address (32 bits), at offset 4 from the bus master register.
pub const DMA_PRDT_ADDR: u16 = 0x4;

/// The number of PRD entries, and of DMA buffers.
pub const NBR_DMA_ENTRIES: usize = 16;

/// The size of one DMA buffer: 64K.
pub const PRD_SIZE: usize = 65536;

/// A physical region descriptor of the UDMA table: the physical address
/// of a buffer, its size in bytes (0 stands for 64K) and the end of table
/// mark.
#[derive(Debug, Copy, Clone, PartialEq, Eq, Structural)]
pub struct PrdEntry {
    pub addr: u32,
    pub size: u16,
    pub is_end: u16,
}

/// The descriptors of the sixteen DMA buffers whose physical addresses,
/// each aligned on 64K, are `phys`: each buffer whole (size 0), and none
/// marked as the last.
pub fn init_prdt(phys: &Vec<u32>) -> (r: Vec<PrdEntry>)
    requires
        phys@.len() == NBR_DMA_ENTRIES,
        forall|i: int| 0 <= i < NBR_DMA_ENTRIES ==> #[trigger] phys@[i] % 0x10000 == 0,
    ensures
        r@.len() == NBR_DMA_ENTRIES,
        forall|i: int|
            0 <= i < NBR_DMA_ENTRIES ==> #[trigger] r@[i] == (PrdEntry {
                addr: phys@[i],
                size: 0,
                is_end: 0,
            }),
{
    let mut r: Vec<PrdEntry> = Vec::new();
    let mut i: usize = 0;
    while i < NBR_DMA_ENTRIES
        invariant
            phys@.len() == NBR_DMA_ENTRIES,
            i <= NBR_DMA_ENTRIES,
            r@.len() == i,
            forall|k: int|
                0 <= k < i ==> #[trigger] r@[k] == (PrdEntry { addr: phys@[k], size: 0, is_end: 0 }),
        decreases NBR_DMA_ENTRIES - i,
    {
        r.push(PrdEntry { addr: phys[i], size: 0, is_end: 0 });
        i = i + 1;
    }
    r
}

/// The byte at offset `k` of the DMA buffers taken in order.
pub open spec fn dma_byte(memory: Seq<Vec<u8>>, k: int) -> u8 {
    memory[k / PRD_SIZE as int]@[k % PRD_SIZE as int]
}

/// Two distinct offsets fall on distinct places of the buffers.
proof fn lemma_dma_index_distinct(i: int, k: int)
    requires
        0 <= i,
        0 <= k,
        i != k,
    ensures
        i / PRD_SIZE as int != k / PRD_SIZE as int || i % PRD_SIZE as int != k % PRD_SIZE as int,
{
    vstd::arithmetic::div_mod::lemma_fundamental_div_mod(i, PRD_SIZE as int);
    vstd::arithmetic::div_mod::lemma_fundamental_div_mod(k, PRD_SIZE as int);
}

/// The UDMA of one channel: its DMA buffers, its bus master register and
/// its channel.
#[derive(Debug)]
pub struct Udma {
    memory: Vec<Vec<u8>>,
    bus_mastered_register: u16,
    channel: Channel,
}

impl Udma {
    /// The DMA buffers.
    pub closed spec fn memory_view(self) -> Seq<Vec<u8>> {
        self.memory@
    }

    /// The bus master register.
    pub closed spec fn register(self) -> u16 {
        self.bus_mastered_register
    }

    /// The channel.
    pub closed spec fn channel_view(self) -> Channel {
        self.channel
    }

    /// Sixteen buffers of 64K, and the status register within the ports.
    pub open spec fn wf(self) -> bool {
        &&& self.memory_view().len() == NBR_DMA_ENTRIES
        &&& forall|i: int|
            0 <= i < NBR_DMA_ENTRIES ==> (#[trigger] self.memory_view()[i])@.len() == PRD_SIZE
        &&& self.register() <= 0xffff - 4
    }

    /// The UDMA of `channel` whose bus master register is
    /// `bus_mastered_register` with its bit 0 cleared, with sixteen zeroed
    /// 64K buffers; with it, the write of `prdt_address`, the physical
    /// address of its descriptor table (aligned on the 128 bytes of the
    /// table), to the PRDT register, and the IRQ of the channel, to be
    /// unmasked.
    pub fn init(bus_mastered_register: u16, channel: Channel, prdt_address: u32) -> (r: (Self, PortWrite32, Irq))
        requires
            bus_mastered_register <= 0xffff - 4,
            prdt_address % 128 == 0,
        ensures
            r.0.wf(),
            r.0.register() == bus_mastered_register & 0xfffe,
            r.0.channel_view() == channel,
            forall|i: int, j: int|
                0 <= i < NBR_DMA_ENTRIES && 0 <= j < PRD_SIZE ==> #[trigger] r.0.memory_view()[i]@[j]
                    == 0,
            r.1 == (PortWrite32 {
                port: ((bus_mastered_register & 0xfffe) + DMA_PRDT_ADDR) as u16,
                value: prdt_address,
            }),
            r.2 == match channel {
                Channel::Primary => Irq::PrimaryATAChannel,
                Channel::Secondary => Irq::SecondaryATAChannel,
            },
    {
        let mut memory: Vec<Vec<u8>> = Vec::new();
        let mut i: usize = 0;
        while i < NBR_DMA_ENTRIES
            invariant
                i <= NBR_DMA_ENTRIES,
                memory@.len() == i,
                forall|k: int|
                    0 <= k < i ==> (#[trigger] memory@[k])@.len() == PRD_SIZE && forall|j: int|
                        0 <= j < PRD_SIZE ==> memory@[k]@[j] == 0,
            decreases NBR_DMA_ENTRIES - i,
        {
            let mut buf: Vec<u8> = Vec::new();
            let mut j: usize = 0;
            while j < PRD_SIZE
                invariant
                    j <= PRD_SIZE,
                    buf@.len() == j,
                    forall|k: int| 0 <= k < j ==> buf@[k] == 0,
                decreases PRD_SIZE - j,
            {
                buf.push(0);
                j = j + 1;
            }
            memory.push(buf);
            i = i + 1;
        }
        let register = bus_mastered_register & 0xfffe;
        assert(register <= bus_mastered_register) by (bit_vector)
            requires
                register == bus_mastered_register & 0xfffe,
        ;
        let irq = match channel {
            Channel::Primary => Irq::PrimaryATAChannel,
            Channel::Secondary => Irq::SecondaryATAChannel,
        };
        (
            Udma { memory, bus_mastered_register: register, channel },
            PortWrite32 { port: register + DMA_PRDT_ADDR, value: prdt_address },
            irq,
        )
    }

    /// The bus master register.
    pub fn get_bus_mastered_register(&self) -> (r: u16)
        ensures
            r == self.register(),
    {
        self.bus_mastered_register
    }

    /// The total size of the DMA buffers.
    pub fn get_memory_amount(&self) -> (r: usize)
        requires
            self.wf(),
        ensures
            r == NBR_DMA_ENTRIES * PRD_SIZE,
    {
        self.memory.len() * self.memory[0].len()
    }

    /// The DMA buffers, to be filled or read.
    pub fn get_memory(&mut self) -> (r: &mut Vec<Vec<u8>>)
        ensures
            r@ == old(self).memory_view(),
            final(self).memory_view() == final(r)@,
            final(self).register() == old(self).register(),
            final(self).channel_view() == old(self).channel_view(),
    {
        &mut self.memory
    }

    /// The first `nbytes` bytes of the DMA buffers, taken in order.
    pub fn copy_out(&self, nbytes: usize) -> (r: Vec<u8>)
        requires
            self.wf(),
            nbytes <= NBR_DMA_ENTRIES * PRD_SIZE,
        ensures
            r@.len() == nbytes,
            forall|k: int| 0 <= k < nbytes ==> r@[k] == dma_byte(self.memory_view(), k),
    {
        let mut r: Vec<u8> = Vec::new();
        let mut k: usize = 0;
        while k < nbytes
            invariant
                self.wf(),
                nbytes <= NBR_DMA_ENTRIES * PRD_SIZE,
                k <= nbytes,
                r@.len() == k,
                forall|i: int| 0 <= i < k ==> r@[i] == dma_byte(self.memory_view(), i),
            decreases nbytes - k,
        {
            let b = self.memory[k / PRD_SIZE][k % PRD_SIZE];
            r.push(b);
            k = k + 1;
        }
        r
    }

    /// Copies `data` into the DMA buffers, from the start and in order;
    /// the bytes past it are left as they were.
    pub fn copy_in(&mut self, data: &Vec<u8>)
        requires
            old(self).wf(),
            data@.len() <= NBR_DMA_ENTRIES * PRD_SIZE,
        ensures
            final(self).wf(),
            final(self).register() == old(self).register(),
            final(self).channel_view() == old(self).channel_view(),
            forall|k: int|
                0 <= k < NBR_DMA_ENTRIES * PRD_SIZE ==> dma_byte(final(self).memory_view(), k) == if k
                    < data@.len() {
                    data@[k]
                } else {
                    dma_byte(old(self).memory_view(), k)
                },
    {
        let mut k: usize = 0;
        while k < data.len()
            invariant
                self.wf(),
                data@.len() <= NBR_DMA_ENTRIES * PRD_SIZE,
                k <= data@.len(),
                self.register() == old(self).register(),
                self.channel_view() == old(self).channel_view(),
                forall|i: int|
                    0 <= i < NBR_DMA_ENTRIES * PRD_SIZE ==> dma_byte(self.memory_view(), i) == if i
                        < k {
                        data@[i]
                    } else {
                        dma_byte(old(self).memory_view(), i)
                    },
            decreases data@.len() - k,
        {
            let row = k / PRD_SIZE;
            let col = k % PRD_SIZE;
            let ghost before = self.memory_view();
            self.memory[row][col] = data[k];
            proof {
                assert forall|i: int| 0 <= i < NBR_DMA_ENTRIES * PRD_SIZE implies dma_byte(
                    self.memory_view(),
                    i,
                ) == if i < k + 1 {
                    data@[i]
                } else {
                    dma_byte(old(self).memory_view(), i)
                } by {
                    if i != k {
                        lemma_dma_index_distinct(i, k as int);
                        assert(dma_byte(self.memory_view(), i) == dma_byte(before, i));
                    }
                }
            }
            k = k + 1;
        }
    }

    /// Resets the command register: 0 to it.
    pub fn reset_command(&self) -> (w: PortWrite)
        requires
            self.wf(),
        ensures
            w == (PortWrite { port: self.register(), value: 0 }),
    {
        PortWrite { port: self.bus_mastered_register + DMA_COMMAND, value: 0 }
    }

    /// Starts the transfer: the command register `s` (as read) with
    /// ONOFF set.
    pub fn start_transfer(&self, s: u8) -> (w: PortWrite)
        requires
            self.wf(),
        ensures
            w == (PortWrite { port: self.register(), value: s | 0x1 }),
    {
        PortWrite { port: self.bus_mastered_register + DMA_COMMAND, value: s | DmaCommand::ONOFF }
    }

    /// Stops the transfer: the command register `s` with ONOFF cleared.
    pub fn stop_transfer(&self, s: u8) -> (w: PortWrite)
        requires
            self.wf(),
        ensures
            w == (PortWrite { port: self.register(), value: s & !0x1u8 }),
    {
        PortWrite { port: self.bus_mastered_register + DMA_COMMAND, value: s & !DmaCommand::ONOFF }
    }

    /// Reads from the disk into the buffers: the command register `s` with
    /// RDWR set.
    pub fn set_read(&self, s: u8) -> (w: PortWrite)
        requires
            self.wf(),
        ensures
            w == (PortWrite { port: self.register(), value: s | 0x8 }),
    {
        PortWrite { port: self.bus_mastered_register + DMA_COMMAND, value: s | DmaCommand::RDWR }
    }

    /// Writes the buffers to the disk: the command register `s` with RDWR
    /// cleared.
    pub fn set_write(&self, s: u8) -> (w: PortWrite)
        requires
            self.wf(),
        ensures
            w == (PortWrite { port: self.register(), value: s & !0x8u8 }),
    {
        PortWrite { port: self.bus_mastered_register + DMA_COMMAND, value: s & !DmaCommand::RDWR }
    }

    /// Clears the interrupt: the IRQ bit written to the status register.
    pub fn clear_interrupt(&self) -> (w: PortWrite)
        requires
            self.wf(),
        ensures
            w == (PortWrite { port: (self.register() + 2) as u16, value: 0x4 }),
    {
        PortWrite { port: self.bus_mastered_register + DMA_STATUS, value: DmaStatus::IRQ }
    }

    /// Clears the error: the status register `s` (as read) with FAILED
    /// cleared.
    pub fn clear_error(&self, s: u8) -> (w: PortWrite)
        requires
            self.wf(),
        ensures
            w == (PortWrite { port: (self.register() + 2) as u16, value: s & !0x2u8 }),
    {
        PortWrite { port: self.bus_mastered_register + DMA_STATUS, value: s & !DmaStatus::FAILED }
    }

    /// The status, from the status register `s` as read (at the register
    /// plus 2).
    pub fn get_status(&self, s: u8) -> (r: DmaStatus)
        ensures
            r.bits == s,
    {
        DmaStatus { bits: s }
    }

    /// Clears the IRQ bit of the status: 0b100 to the status register.
    pub fn clear_irq_bit(&self) -> (w: PortWrite)
        requires
            self.wf(),
        ensures
            w == (PortWrite { port: (self.register() + 2) as u16, value: 0b100 }),
    {
        PortWrite { port: self.bus_mastered_register + DMA_STATUS, value: 0b100 }
    }
}

/// What is copied into the DMA buffers is what is copied out of them: the
/// bytes read back after a copy in are the bytes copied in.
pub proof fn lemma_copy_in_then_out(
    before: Seq<Vec<u8>>,
    after: Seq<Vec<u8>>,
    data: Seq<u8>,
    out: Seq<u8>,
)
    requires
        data.len() <= NBR_DMA_ENTRIES * PRD_SIZE,
        forall|k: int|
            0 <= k < NBR_DMA_ENTRIES * PRD_SIZE ==> dma_byte(after, k) == if k < data.len() {
                data[k]
            } else {
                dma_byte(before, k)
            },
        out.len() == data.len(),
        forall|k: int| 0 <= k < data.len() ==> out[k] == dma_byte(after, k),
    ensures
        out == data,
{
    assert(out =~= data);
}

} // verus!
