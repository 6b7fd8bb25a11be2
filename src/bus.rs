use vstd::prelude::*;

verus! {

/// Why an access on the bus failed. Every such failure is fatal to the
/// machine: it means hardware that is not emulated, or a ROM image too small.
#[derive(Clone, Copy, Debug, PartialEq, Eq, Structural)]
pub enum BusError {
    /// No store answers at this address.
    Unmapped(u16),
    /// The address belongs to ROM or to a register that cannot be written.
    ReadOnly(u16),
    /// The address lies past the end of the ROM image that backs its range.
    OutOfBounds(u16),
}

/// A byte-addressed bus on which every read and write may fail.
///
/// Its contents are described by `peek`, what a read at each address returns,
/// and `poke`, whether a write at each address is accepted.
pub trait MemoryBus: Sized {
    /// What the bus needs of its own state to answer reads and writes.
    spec fn inv(&self) -> bool;

    spec fn peek(&self, addr: u16) -> Result<u8, BusError>;

    spec fn poke(&self, addr: u16) -> Result<(), BusError>;

    fn read(&self, addr: u16) -> (r: Result<u8, BusError>)
        requires
            self.inv(),
        ensures
            r == self.peek(addr),
    ;

    /// An accepted write is seen by every later read of the same address and
    /// by no read of another; a refused write changes nothing.
    fn write(&mut self, addr: u16, val: u8) -> (r: Result<(), BusError>)
        requires
            old(self).inv(),
        ensures
            final(self).inv(),
            r == old(self).poke(addr),
            forall|a: u16| #[trigger]
                final(self).peek(a) == if r is Ok && a == addr {
                    Ok(val)
                } else {
                    old(self).peek(a)
                },
            forall|a: u16| #[trigger] final(self).poke(a) == old(self).poke(a),
    ;
}

/// `after` is `before` with `val` stored at `addr`.
pub open spec fn stored<B: MemoryBus>(before: B, after: B, addr: u16, val: u8) -> bool {
    &&& forall|a: u16| #[trigger]
        after.peek(a) == if a == addr {
            Ok(val)
        } else {
            before.peek(a)
        }
    &&& forall|a: u16| #[trigger] after.poke(a) == before.poke(a)
}

/// `after` answers every read and write as `before` does.
pub open spec fn unchanged<B: MemoryBus>(before: B, after: B) -> bool {
    &&& forall|a: u16| #[trigger] after.peek(a) == before.peek(a)
    &&& forall|a: u16| #[trigger] after.poke(a) == before.poke(a)
}

} // verus!
