# turbofish

The logic of a small x86 kernel, written in Verus and proved against its
contracts: the PCI bus scan and device classes, the ATA/IDE, SATA (AHCI)
and BIOS disk drivers, ACPI, the 8259 PIC, the 8253 PIT, the NMI, the IDT
and the interrupt manager, the PS/2 keyboard, an early VGA terminal, C
strings, CPUID decoding, random numbers scaled to a bound and a 16-bit
LFSR, the timer's round-robin scheduling, and the directory entries and
file descriptors of the VFS.

The drivers do no I/O themselves: they take what was read from the
hardware as arguments and return the port, memory and PCI configuration
writes to perform (the setup of a controller included), so that each
decision can be stated and proved.

- `src/`: the verified library. `bits.rs` holds the trusted wrappers over
  the `bit_field` crate; everything else is verified.
- `tests/`: tests of the library on concrete values.
- `app/`: the kernel side, not verified: port I/O, the loops that wait on
  the hardware, and what needs floating point or raw pointers.
