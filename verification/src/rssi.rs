//! Conversion of the raw signal-strength register into dBm.

use vstd::prelude::*;

verus! {

/// Typical offset between the halved register value and the power at the
/// antenna, in dB.
pub const RSSI_OFFSET: i16 = 74;

/// The raw value at and above which the register holds a negative number
/// in two's complement.
pub const RSSI_MIDPOINT: u8 = 128;

/// The power in dBm that a raw register value stands for. Below the
/// midpoint the value is halved; from the midpoint on it is first taken as
/// a negative two's complement number. Halving rounds toward zero.
pub open spec fn rssi_dbm(raw: u8) -> int {
    if raw >= RSSI_MIDPOINT {
        -((256 - raw) / 2) - RSSI_OFFSET
    } else {
        raw / 2 - RSSI_OFFSET
    }
}

/// Converts a raw RSSI register value into dBm.
pub fn rssi_to_dbm(raw: u8) -> (dbm: i16)
    ensures
        dbm == rssi_dbm(raw),
{
    if raw >= RSSI_MIDPOINT {
        (raw as i16 - 256) / 2 - RSSI_OFFSET
    } else {
        raw as i16 / 2 - RSSI_OFFSET
    }
}

/// Within either linear segment a larger raw value never reads as a lower
/// power.
pub proof fn rssi_monotonic(a: u8, b: u8)
    requires
        a < b,
        (a >= RSSI_MIDPOINT) == (b >= RSSI_MIDPOINT),
    ensures
        rssi_dbm(a) <= rssi_dbm(b),
{
}

/// Every reading lies between -138 dBm and -11 dBm.
pub proof fn rssi_range(raw: u8)
    ensures
        -138 <= rssi_dbm(raw) <= -11,
{
}

} // verus!
