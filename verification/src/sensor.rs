//! Sensor measurements: device identity, raw sample bytes, and the
//! two's-complement decoding of the left-justified 14-bit axis samples.

use vstd::prelude::*;

use crate::bus::Bus;
use crate::config::AccelConfig;
use crate::register::Registers;
use crate::{Error, MSA301};

verus! {

/// The signed value a 16-bit two's-complement word stands for.
pub open spec fn spec_i16_of_word(v: int) -> int {
    if v < 0x8000 {
        v
    } else {
        v - 0x10000
    }
}

/// The axis count two raw sample bytes decode to: the high byte over the low
/// byte read as a 16-bit two's-complement word, arithmetically shifted right
/// by two (the device left-justifies a 14-bit sample in the 16-bit field).
/// The arithmetic shift is division by four rounding towards minus infinity,
/// which preserves the sign.
pub open spec fn spec_axis_value(lo: u8, hi: u8) -> int {
    spec_i16_of_word(hi * 256 + lo) / 4
}

/// Dividing a negative number by four, rounding towards minus infinity, is
/// the negated rounded-up quotient of its magnitude.
proof fn lemma_neg_div4(n: int)
    requires
        n >= 1,
    ensures
        (-n) / 4 == -((n + 3) / 4),
{
    let q = (n + 3) / 4;
    let r0 = (n + 3) % 4;
    vstd::arithmetic::div_mod::lemma_fundamental_div_mod(n + 3, 4);
    assert(-n == (-q) * 4 + (3 - r0)) by (nonlinear_arith)
        requires
            n + 3 == 4 * q + r0,
    ;
    vstd::arithmetic::div_mod::lemma_fundamental_div_mod_converse_div(-n, 4, -q, 3 - r0);
}

/// Decode one axis from its low and high sample bytes into a signed count.
pub fn decode_axis(lo: u8, hi: u8) -> (r: i16)
    ensures
        r as int == spec_axis_value(lo, hi),
{
    let v: u16 = (hi as u16) * 256 + (lo as u16);
    if v < 0x8000 {
        (v / 4) as i16
    } else {
        let neg: u32 = 0x10000 - (v as u32);
        let q: u32 = (neg + 3) / 4;
        proof {
            lemma_neg_div4(neg as int);
        }
        -(q as i16)
    }
}

impl<B: Bus> MSA301<B> {
    /// Read the device ID ("who am I"); the expected value for this device
    /// family is decimal 19.
    pub fn get_device_id(&mut self) -> (r: Result<u8, Error<B::BusError>>)
        requires
            old(self).wf(),
        ensures
            final(self).wf(),
            final(self).spec_regs() == old(self).spec_regs(),
            final(self).spec_writes() == old(self).spec_writes(),
            final(self).spec_config() == old(self).spec_config(),
            final(self).spec_infallible() == old(self).spec_infallible(),
            old(self).spec_infallible() ==> r is Ok,
            r matches Ok(id) ==> id == old(self).spec_regs()[Registers::PART_ID.spec_addr()],
            r is Err ==> r->Err_0 is I2C,
    {
        let whoami = match self.read_register(Registers::PART_ID) {
            Ok(d) => d,
            Err(e) => {
                return Err(e);
            },
        };
        Ok(whoami)
    }

    /// Read the six raw sample bytes of the three axes in one burst starting
    /// at the X-low register (the device auto-increments its register
    /// pointer across the burst).
    pub fn read_accel_raw(&mut self) -> (r: Result<[u8; 6], Error<B::BusError>>)
        requires
            old(self).wf(),
        ensures
            final(self).wf(),
            final(self).spec_regs() == old(self).spec_regs(),
            final(self).spec_writes() == old(self).spec_writes(),
            final(self).spec_config() == old(self).spec_config(),
            final(self).spec_infallible() == old(self).spec_infallible(),
            old(self).spec_infallible() ==> r is Ok,
            r matches Ok(d) ==> {
                &&& d@[0] == old(self).spec_regs()[Registers::XAXIS_L.spec_addr()]
                &&& d@[1] == old(self).spec_regs()[Registers::XAXIS_H.spec_addr()]
                &&& d@[2] == old(self).spec_regs()[Registers::YAXIS_L.spec_addr()]
                &&& d@[3] == old(self).spec_regs()[Registers::YAXIS_H.spec_addr()]
                &&& d@[4] == old(self).spec_regs()[Registers::ZAXIS_L.spec_addr()]
                &&& d@[5] == old(self).spec_regs()[Registers::ZAXIS_H.spec_addr()]
            },
            r is Err ==> r->Err_0 is I2C,
    {
        let start = Registers::XAXIS_L.addr();
        let r = self.i2c.bus_read6(start);
        proof {
            assert forall|x: u8| #[trigger] self.spec_regs().dom().contains(x) by {
                assert(old(self).spec_regs().dom().contains(x));
            }
        }
        match r {
            Ok(d) => Ok(d),
            Err(e) => Err(Error::I2C(e)),
        }
    }

    /// Read the three axis samples and decode each into a signed count of
    /// sensitivity steps: raw burst read, two's-complement reconstruction,
    /// arithmetic right shift by two. Dividing a count by the cached range's
    /// sensitivity yields the acceleration in g.
    pub fn read_accel_counts(&mut self) -> (r: Result<(i16, i16, i16), Error<B::BusError>>)
        requires
            old(self).wf(),
        ensures
            final(self).wf(),
            final(self).spec_regs() == old(self).spec_regs(),
            final(self).spec_writes() == old(self).spec_writes(),
            final(self).spec_config() == old(self).spec_config(),
            final(self).spec_infallible() == old(self).spec_infallible(),
            old(self).spec_infallible() ==> r is Ok,
            r matches Ok(c) ==> ({
                let m = old(self).spec_regs();
                &&& c.0 as int == spec_axis_value(
                    m[Registers::XAXIS_L.spec_addr()],
                    m[Registers::XAXIS_H.spec_addr()],
                )
                &&& c.1 as int == spec_axis_value(
                    m[Registers::YAXIS_L.spec_addr()],
                    m[Registers::YAXIS_H.spec_addr()],
                )
                &&& c.2 as int == spec_axis_value(
                    m[Registers::ZAXIS_L.spec_addr()],
                    m[Registers::ZAXIS_H.spec_addr()],
                )
            }),
            r is Err ==> r->Err_0 is I2C,
    {
        let raw = match self.read_accel_raw() {
            Ok(d) => d,
            Err(e) => {
                return Err(e);
            },
        };
        let x = decode_axis(raw[0], raw[1]);
        let y = decode_axis(raw[2], raw[3]);
        let z = decode_axis(raw[4], raw[5]);
        Ok((x, y, z))
    }

    /// The cached configuration snapshot, notably the range whose
    /// sensitivity scales the decoded counts. Writing registers past the
    /// typed setters leaves this snapshot stale.
    pub fn current_config(&self) -> (r: AccelConfig)
        ensures
            r == self.spec_config(),
    {
        self.config
    }
}

} // verus!
