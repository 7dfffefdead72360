//! Bit timing: how the controller's input clock is divided into the time
//! quanta of one bit.

use vstd::prelude::*;
use crate::error::Error;

verus! {

/// Length of the first time segment, in quanta.
pub const TS1: u8 = 13;

/// Length of the second time segment, in quanta.
pub const TS2: u8 = 2;

/// Synchronization jump width, in quanta.
pub const SJW: u8 = 1;

/// Quanta in one bit: the synchronization quantum and the two segments.
pub const QUANTA_PER_BIT: u32 = 16;

/// Bound that the prescaler stays under.
pub const PRESCALER_LIMIT: u32 = 512;

/// The fields of the bit-timing register, as the hardware stores them: each
/// length is held as one less than its value.
#[derive(Clone, Copy, Debug, PartialEq, Eq)]
pub struct BitTiming {
    /// Silent mode.
    pub silm: bool,
    /// Loopback mode.
    pub lbkm: bool,
    pub ts1: u8,
    pub ts2: u8,
    pub sjw: u8,
    /// Baud rate prescaler.
    pub brp: u16,
}

/// Input clock cycles per time quantum for a clock and a baud rate, both in
/// hertz: the clock divided by the quanta per second, which are sixteen to
/// the bit. Meaningful for a baud rate above zero.
pub open spec fn spec_prescaler(clock: u32, baud: u32) -> int
    recommends
        baud > 0,
{
    clock as int / (baud as int * 16)
}

/// The clock and baud rate pairs that the controller can be configured for.
pub open spec fn rates_supported(clock: u32, baud: u32) -> bool {
    baud > 0 && 1 <= spec_prescaler(clock, baud) < PRESCALER_LIMIT
}

/// The register fields for normal operation with the fixed segment lengths
/// and the given prescaler.
pub open spec fn timing_for(prescaler: int) -> BitTiming
    recommends
        1 <= prescaler < PRESCALER_LIMIT,
{
    BitTiming {
        silm: false,
        lbkm: false,
        ts1: (TS1 - 1) as u8,
        ts2: (TS2 - 1) as u8,
        sjw: (SJW - 1) as u8,
        brp: (prescaler - 1) as u16,
    }
}

/// A bit is made of the synchronization quantum and the two time segments:
/// sixteen quanta, by which the prescaler divides.
pub proof fn lemma_quanta_per_bit(clock: u32, baud: u32)
    ensures
        QUANTA_PER_BIT == 1 + TS1 + TS2,
        spec_prescaler(clock, baud) == clock as int / (baud as int * (1 + TS1 + TS2)),
{
}

/// Computes the prescaler, rounding down.
pub fn prescaler(clock: u32, baud: u32) -> (p: u32)
    requires
        baud > 0,
    ensures
        p == spec_prescaler(clock, baud),
{
    let quanta: u64 = baud as u64 * 16;
    let p: u64 = clock as u64 / quanta;
    assert(p <= clock) by (nonlinear_arith)
        requires
            p == clock as int / quanta as int,
            quanta >= 1,
    ;
    p as u32
}

impl BitTiming {
    /// The prescaler that these fields stand for.
    pub open spec fn prescaler(self) -> int {
        self.brp + 1
    }

    /// The quanta that these fields give to one bit.
    pub open spec fn quanta_per_bit(self) -> int {
        1 + (self.ts1 + 1) + (self.ts2 + 1)
    }

    /// The bit rate at which the controller runs with these fields on the
    /// given clock.
    pub open spec fn bit_rate(self, clock: u32) -> int {
        clock as int / (self.prescaler() * self.quanta_per_bit())
    }

    /// Register fields for a prescaler that the hardware can hold.
    pub fn new(prescaler: u32) -> (timing: Self)
        requires
            1 <= prescaler < PRESCALER_LIMIT,
        ensures
            timing == timing_for(prescaler as int),
            timing.prescaler() == prescaler,
    {
        BitTiming {
            silm: false,
            lbkm: false,
            ts1: TS1 - 1,
            ts2: TS2 - 1,
            sjw: SJW - 1,
            brp: (prescaler - 1) as u16,
        }
    }

    /// Register fields for a clock and a baud rate, or the reason why the
    /// controller cannot run at that rate.
    pub fn compute(clock: u32, baud: u32) -> (r: Result<Self, Error>)
        ensures
            match r {
                Ok(timing) => rates_supported(clock, baud) && timing == timing_for(
                    spec_prescaler(clock, baud),
                ),
                Err(e) => !rates_supported(clock, baud) && e == if baud == 0 || spec_prescaler(
                    clock,
                    baud,
                ) >= PRESCALER_LIMIT {
                    Error::PrescalerOverflow
                } else {
                    Error::PrescalerZero
                },
            },
    {
        if baud == 0 {
            return Err(Error::PrescalerOverflow);
        }
        let p: u32 = prescaler(clock, baud);
        if p >= PRESCALER_LIMIT {
            Err(Error::PrescalerOverflow)
        } else if p == 0 {
            Err(Error::PrescalerZero)
        } else {
            Ok(BitTiming::new(p))
        }
    }
}

/// Only the prescaler is fitted to the baud rate, and it is rounded down. So
/// the controller never runs slower than asked, and it runs at exactly the
/// baud rate asked for when the clock is a multiple of sixteen times that
/// rate.
pub proof fn lemma_bit_rate(clock: u32, baud: u32)
    requires
        rates_supported(clock, baud),
    ensures
        timing_for(spec_prescaler(clock, baud)).prescaler() == spec_prescaler(clock, baud),
        timing_for(spec_prescaler(clock, baud)).quanta_per_bit() == QUANTA_PER_BIT,
        timing_for(spec_prescaler(clock, baud)).bit_rate(clock) >= baud,
        clock as int % (baud as int * 16) == 0 ==> timing_for(
            spec_prescaler(clock, baud),
        ).bit_rate(clock) == baud,
{
    let p = spec_prescaler(clock, baud);
    let timing = timing_for(p);
    assert(timing.prescaler() == p);
    assert(timing.quanta_per_bit() == 16);
    let c = clock as int;
    let b = baud as int;
    assert(p * 16 * b <= c && c / (p * 16) >= b) by (nonlinear_arith)
        requires
            p == c / (b * 16),
            p >= 1,
            b >= 1,
            c >= 0,
    ;
    assert(timing.prescaler() * timing.quanta_per_bit() == p * 16) by (nonlinear_arith)
        requires
            timing.prescaler() == p,
            timing.quanta_per_bit() == 16,
    ;
    if c % (b * 16) == 0 {
        assert(c / (p * 16) == b) by (nonlinear_arith)
            requires
                p == c / (b * 16),
                c % (b * 16) == 0,
                p >= 1,
                b >= 1,
                c >= 0,
        ;
    }
}

} // verus!
