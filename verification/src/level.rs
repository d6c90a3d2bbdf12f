//! The ordered severity enumeration shared by guest and host.

use vstd::prelude::*;

verus! {

/// Severity of a span or event.
///
/// The five levels are totally ordered by severity:
/// `TRACE < DEBUG < INFO < WARN < ERROR`. Filtering decisions (`enabled at or
/// above level X`) are made against this order, and any host backend placed
/// underneath the bridge must preserve at least these five distinguishable
/// levels in the same relative order.
#[allow(non_camel_case_types)]
#[derive(Clone, Copy, Debug, PartialEq, Eq, Structural)]
pub enum WasmLevel {
    ERROR,
    WARN,
    INFO,
    DEBUG,
    TRACE,
}

impl WasmLevel {
    /// The position of this level in the severity order, `TRACE` being the
    /// lowest at 0 and `ERROR` the highest at 4.
    pub open spec fn rank(self) -> int {
        match self {
            WasmLevel::TRACE => 0,
            WasmLevel::DEBUG => 1,
            WasmLevel::INFO => 2,
            WasmLevel::WARN => 3,
            WasmLevel::ERROR => 4,
        }
    }

    /// The severity rank as a machine integer.
    pub fn severity(self) -> (r: u8)
        ensures
            r as int == self.rank(),
    {
        match self {
            WasmLevel::TRACE => 0,
            WasmLevel::DEBUG => 1,
            WasmLevel::INFO => 2,
            WasmLevel::WARN => 3,
            WasmLevel::ERROR => 4,
        }
    }

    /// Whether this level is at least as severe as `other`.
    pub fn at_least(self, other: WasmLevel) -> (r: bool)
        ensures
            r == (self.rank() >= other.rank()),
    {
        self.severity() >= other.severity()
    }

    /// The level at a given severity rank, if the rank names one: the
    /// inverse of `severity`, so that a host representation keyed by rank
    /// maps back without loss.
    pub fn from_severity(severity: u8) -> (r: Option<WasmLevel>)
        ensures
            match r {
                Some(l) => l.rank() == severity as int,
                None => severity > 4,
            },
    {
        match severity {
            0 => Some(WasmLevel::TRACE),
            1 => Some(WasmLevel::DEBUG),
            2 => Some(WasmLevel::INFO),
            3 => Some(WasmLevel::WARN),
            4 => Some(WasmLevel::ERROR),
            _ => None,
        }
    }
}

/// The five levels are totally ordered by `rank`: the order is reflexive,
/// antisymmetric, transitive, and any two levels are comparable. Two levels
/// with the same rank are the same level, so the mapping between the guest
/// representation and any faithful host representation is lossless.
pub proof fn lemma_level_order_total(a: WasmLevel, b: WasmLevel, c: WasmLevel)
    ensures
        a.rank() <= a.rank(),
        a.rank() == b.rank() ==> a == b,
        a.rank() <= b.rank() && b.rank() <= c.rank() ==> a.rank() <= c.rank(),
        a.rank() <= b.rank() || b.rank() <= a.rank(),
{
}

} // verus!
