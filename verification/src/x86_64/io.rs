//! Ports of the processor's I/O address space.

use core::marker::PhantomData;
use vstd::prelude::*;

verus! {

/// A port that carries values of type `T`.
pub struct Port<T> {
    port: u16,
    phantom: PhantomData<T>,
}

/// One value on its way out of a port.
#[derive(Clone, Copy, Debug, PartialEq, Eq, Structural)]
pub struct PortWrite {
    pub port: u16,
    pub value: u8,
}

impl<T> Port<T> {
    /// The port's number.
    pub closed spec fn spec_address(&self) -> u16 {
        self.port
    }

    /// The port with the given number.
    pub fn new(port: u16) -> (p: Port<T>)
        ensures
            p.spec_address() == port,
    {
        Port { port, phantom: PhantomData }
    }

    /// The port's number.
    #[verifier::when_used_as_spec(spec_address)]
    pub fn address(&self) -> (port: u16)
        ensures
            port == self.spec_address(),
    {
        self.port
    }
}

} // verus!
