//! The two-wire bus capability that the driver consumes, and an in-memory
//! register file implementing it.
//!
//! The driver never touches a transport directly: every transaction goes
//! through [`Bus`]. A bus is modelled by the register file visible behind it
//! (`regs`), the ordered log of register writes successfully issued over it
//! (`writes`), and whether its transactions can fail (`infallible`). Any
//! concrete two-wire transport can implement the trait; [`MockBus`] is a
//! verified implementation backed by plain memory.

use vstd::prelude::*;

verus! {

/// A blocking two-wire bus holding a register file: one-byte register reads
/// and writes against a fixed device address, plus a six-byte burst read that
/// relies on the device auto-incrementing its register pointer.
///
/// After a failed transaction the register values are unknown (a write may
/// have partially taken effect), but the set of registers behind the bus is
/// unchanged, and no successful write was logged.
pub trait Bus: Sized {
    /// The transport's own error type.
    type BusError;

    /// The device's register file as visible through the bus. A transport
    /// that does not override this models no register.
    open spec fn regs(&self) -> Map<u8, u8> {
        Map::empty()
    }

    /// The register writes successfully issued over the bus, in order. A
    /// transport that does not override this logs nothing.
    open spec fn writes(&self) -> Seq<(u8, u8)> {
        Seq::empty()
    }

    /// Whether the transport promises that its transactions never fail. A
    /// transport that does not override this promises nothing.
    open spec fn infallible(&self) -> bool {
        false
    }

    /// Write one byte to one register.
    fn bus_write(&mut self, reg: u8, value: u8) -> (r: Result<(), Self::BusError>)
        ensures
            final(self).regs().dom() =~= old(self).regs().dom(),
            final(self).infallible() == old(self).infallible(),
            old(self).infallible() ==> r is Ok,
            r is Ok ==> final(self).regs() == old(self).regs().insert(reg, value),
            r is Ok ==> final(self).writes() == old(self).writes().push((reg, value)),
            r is Err ==> final(self).writes() == old(self).writes(),
    ;

    /// Read one byte from one register (a combined write-then-read
    /// transaction). Reading alters neither the register file nor the log.
    fn bus_read(&mut self, reg: u8) -> (r: Result<u8, Self::BusError>)
        ensures
            final(self).regs() == old(self).regs(),
            final(self).writes() == old(self).writes(),
            final(self).infallible() == old(self).infallible(),
            old(self).infallible() ==> r is Ok,
            r matches Ok(v) ==> (old(self).regs().dom().contains(reg) ==> v == old(
                self,
            ).regs()[reg]),
    ;

    /// Burst-read six consecutive registers in one transaction, starting at
    /// `start`; the device auto-increments its internal register pointer.
    fn bus_read6(&mut self, start: u8) -> (r: Result<[u8; 6], Self::BusError>)
        requires
            start <= 250,
        ensures
            final(self).regs() == old(self).regs(),
            final(self).writes() == old(self).writes(),
            final(self).infallible() == old(self).infallible(),
            old(self).infallible() ==> r is Ok,
            r matches Ok(d) ==> {
                &&& (old(self).regs().dom().contains(start) ==> d@[0] == old(self).regs()[start])
                &&& (old(self).regs().dom().contains((start + 1) as u8) ==> d@[1] == old(
                    self,
                ).regs()[(start + 1) as u8])
                &&& (old(self).regs().dom().contains((start + 2) as u8) ==> d@[2] == old(
                    self,
                ).regs()[(start + 2) as u8])
                &&& (old(self).regs().dom().contains((start + 3) as u8) ==> d@[3] == old(
                    self,
                ).regs()[(start + 3) as u8])
                &&& (old(self).regs().dom().contains((start + 4) as u8) ==> d@[4] == old(
                    self,
                ).regs()[(start + 4) as u8])
                &&& (old(self).regs().dom().contains((start + 5) as u8) ==> d@[5] == old(
                    self,
                ).regs()[(start + 5) as u8])
            },
    ;
}

/// The error value of [`MockBus`] transactions made to fail on purpose.
#[derive(Debug, Clone, Copy, PartialEq, Eq)]
pub struct MockBusError;

/// The register file a byte array stands for: every address is mapped, and an
/// address beyond the array (which a 256-byte array never has) reads as zero.
pub open spec fn reg_map_of(s: Seq<u8>) -> Map<u8, u8> {
    Map::new(
        |a: u8| true,
        |a: u8|
            if a < s.len() {
                s[a as int]
            } else {
                0u8
            },
    )
}

/// An in-memory register file standing in for a real transport: reads and
/// writes go to a byte array, every successful register write is logged, and
/// failures can be switched on to exercise error paths.
#[derive(Debug)]
pub struct MockBus {
    regs: [u8; 256],
    writes: Vec<(u8, u8)>,
    fail: bool,
}

impl MockBus {
    /// A bus whose registers all read zero, with an empty write log.
    pub fn new() -> (r: MockBus)
        ensures
            forall|a: u8| #[trigger] r.regs().dom().contains(a),
            forall|a: u8| #[trigger] r.regs()[a] == 0,
            r.writes() == Seq::<(u8, u8)>::empty(),
            r.infallible(),
    {
        let r = MockBus { regs: [0u8; 256], writes: Vec::new(), fail: false };
        proof {
            assert(r.writes@ =~= Seq::<(u8, u8)>::empty());
        }
        r
    }

    /// Preload a register, as if the device had set it by itself; nothing is
    /// logged.
    pub fn set_reg(&mut self, reg: u8, value: u8)
        ensures
            final(self).regs() == old(self).regs().insert(reg, value),
            final(self).writes() == old(self).writes(),
            final(self).infallible() == old(self).infallible(),
    {
        self.regs[reg as usize] = value;
        proof {
            assert(reg_map_of(self.regs@) =~= reg_map_of(old(self).regs@).insert(reg, value));
        }
    }

    /// Look at a register without a bus transaction.
    pub fn get_reg(&self, reg: u8) -> (r: u8)
        ensures
            r == self.regs()[reg],
    {
        self.regs[reg as usize]
    }

    /// How many register writes were issued over this bus.
    pub fn write_count(&self) -> (r: usize)
        ensures
            r == self.writes().len(),
    {
        self.writes.len()
    }

    /// The `i`-th register write issued over this bus, as (address, byte).
    pub fn nth_write(&self, i: usize) -> (r: (u8, u8))
        requires
            i < self.writes().len(),
        ensures
            r == self.writes()[i as int],
    {
        self.writes[i]
    }

    /// Make every following transaction fail (or succeed again).
    pub fn set_fail(&mut self, fail: bool)
        ensures
            final(self).regs() == old(self).regs(),
            final(self).writes() == old(self).writes(),
            final(self).infallible() == !fail,
    {
        self.fail = fail;
    }
}

impl Bus for MockBus {
    type BusError = MockBusError;

    closed spec fn regs(&self) -> Map<u8, u8> {
        reg_map_of(self.regs@)
    }

    closed spec fn writes(&self) -> Seq<(u8, u8)> {
        self.writes@
    }

    closed spec fn infallible(&self) -> bool {
        !self.fail
    }

    fn bus_write(&mut self, reg: u8, value: u8) -> (r: Result<(), MockBusError>) {
        if self.fail {
            return Err(MockBusError);
        }
        self.regs[reg as usize] = value;
        self.writes.push((reg, value));
        proof {
            assert(reg_map_of(self.regs@) =~= reg_map_of(old(self).regs@).insert(reg, value));
        }
        Ok(())
    }

    fn bus_read(&mut self, reg: u8) -> (r: Result<u8, MockBusError>) {
        if self.fail {
            return Err(MockBusError);
        }
        Ok(self.regs[reg as usize])
    }

    fn bus_read6(&mut self, start: u8) -> (r: Result<[u8; 6], MockBusError>) {
        if self.fail {
            return Err(MockBusError);
        }
        let s = start as usize;
        let d: [u8; 6] = [
            self.regs[s],
            self.regs[s + 1],
            self.regs[s + 2],
            self.regs[s + 3],
            self.regs[s + 4],
            self.regs[s + 5],
        ];
        Ok(d)
    }
}

} // verus!
