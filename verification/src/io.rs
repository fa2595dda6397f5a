//! Port I/O as plain values.
//!
//! The port instructions themselves are executed by the caller of the
//! library; the library computes which ports are written with which values,
//! and in which order, and what to make of the values read.
use core::marker::PhantomData;
use vstd::prelude::*;

verus! {

/// An I/O port carrying values of type `T`.
pub struct Pio<T> {
    port: u16,
    value: PhantomData<T>,
}

impl<T> Pio<T> {
    /// The port number.
    pub closed spec fn port_view(self) -> u16 {
        self.port
    }

    /// The port numbered `port`.
    pub fn new(port: u16) -> (r: Self)
        ensures
            r.port_view() == port,
    {
        Pio { port, value: PhantomData }
    }

    /// The port number.
    pub fn port(&self) -> (r: u16)
        ensures
            r == self.port_view(),
    {
        self.port
    }
}

/// One byte written to one port.
#[derive(Debug, Copy, Clone, PartialEq, Eq, Structural)]
pub struct PortWrite {
    pub port: u16,
    pub value: u8,
}

/// One 16-bit word written to one port.
#[derive(Debug, Copy, Clone, PartialEq, Eq, Structural)]
pub struct PortWrite16 {
    pub port: u16,
    pub value: u16,
}

/// One 32-bit word written to one port.
#[derive(Debug, Copy, Clone, PartialEq, Eq, Structural)]
pub struct PortWrite32 {
    pub port: u16,
    pub value: u32,
}

/// One 32-bit word written to memory-mapped registers, at a physical
/// address.
#[derive(Debug, Copy, Clone, PartialEq, Eq, Structural)]
pub struct MemWrite32 {
    pub address: u32,
    pub value: u32,
}

} // verus!

verus! {

/// An object read and written as values of one type.
pub trait Io: Sized {
    /// Type of the values read and written.
    type Value;

    /// Whether `value` is a value a read of the object may give.
    spec fn reads(&self, value: Self::Value) -> bool;

    /// Whether writing `value` to the object may leave it as `after`.
    spec fn writes(&self, value: Self::Value, after: Self) -> bool;

    /// Reads a value from the object.
    fn read(&self) -> (r: Self::Value)
        ensures
            self.reads(r),
    ;

    /// Writes `value` to the object.
    fn write(&mut self, value: Self::Value)
        ensures
            old(self).writes(value, *final(self)),
    ;
}

/// An object that is `Io`, in a read only mode.
pub struct ReadOnly<I: Io> {
    inner: I,
}

impl<I: Io> ReadOnly<I> {
    /// The object read.
    pub closed spec fn inner_view(self) -> I {
        self.inner
    }

    /// `inner`, read only.
    pub fn new(inner: I) -> (r: Self)
        ensures
            r.inner_view() == inner,
    {
        ReadOnly { inner }
    }

    /// Reads a value from the object.
    pub fn read(&self) -> (r: I::Value)
        ensures
            self.inner_view().reads(r),
    {
        self.inner.read()
    }
}

/// An object that is `Io`, in a write only mode.
pub struct WriteOnly<I: Io> {
    inner: I,
}

impl<I: Io> WriteOnly<I> {
    /// The object written.
    pub closed spec fn inner_view(self) -> I {
        self.inner
    }

    /// `inner`, write only.
    pub fn new(inner: I) -> (r: Self)
        ensures
            r.inner_view() == inner,
    {
        WriteOnly { inner }
    }

    /// Writes `value` to the object.
    pub fn write(&mut self, value: I::Value)
        ensures
            old(self).inner_view().writes(value, final(self).inner_view()),
    {
        self.inner.write(value)
    }
}

} // verus!
