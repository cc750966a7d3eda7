use vstd::prelude::*;

verus! {

/// First GPIO pin whose function select field lives in `GPFSEL2`.
pub const GPFSEL2_FIRST_PIN: u32 = 20;

/// Function select value of alternate function 4, which routes pins 22 to
/// 27 to the ARM JTAG signals (TRST, RTCK, TDO, TCK, TDI, TMS).
pub const FSEL_ALT4: u32 = 0b011;

/// The function select fields of pins 22 to 27 in `GPFSEL2`.
pub const JTAG_FIELDS_MASK: u32 = 0x00FF_FFC0;

/// Those six fields, each holding `FSEL_ALT4`.
pub const JTAG_FIELDS_ALT4: u32 = 0x006D_B6C0;

/// The three-bit function select field of `pin` in a `GPFSEL2` value.
pub open spec fn pin_function(reg: u32, pin: u32) -> u32
    recommends
        GPFSEL2_FIRST_PIN <= pin < GPFSEL2_FIRST_PIN + 10,
{
    (reg >> (3 * (pin - GPFSEL2_FIRST_PIN)) as u32) & 0b111u32
}

/// The `GPFSEL2` value that hands pins 22 to 27 to the JTAG debug interface,
/// given the register's current value: those six fields become
/// `FSEL_ALT4` and every other bit is kept.
pub fn setup_debug(gpfsel2: u32) -> (r: u32)
    ensures
        r == (gpfsel2 & !JTAG_FIELDS_MASK) | JTAG_FIELDS_ALT4,
        forall|pin: u32| 22 <= pin <= 27 ==> #[trigger] pin_function(r, pin) == FSEL_ALT4,
        r & !JTAG_FIELDS_MASK == gpfsel2 & !JTAG_FIELDS_MASK,
{
    let r = (gpfsel2 & !JTAG_FIELDS_MASK) | JTAG_FIELDS_ALT4;
    assert((((gpfsel2 & !0x00FF_FFC0u32) | 0x006D_B6C0u32) >> 6u32) & 7u32 == 3u32) by (bit_vector);
    assert((((gpfsel2 & !0x00FF_FFC0u32) | 0x006D_B6C0u32) >> 9u32) & 7u32 == 3u32) by (bit_vector);
    assert((((gpfsel2 & !0x00FF_FFC0u32) | 0x006D_B6C0u32) >> 12u32) & 7u32 == 3u32) by (bit_vector);
    assert((((gpfsel2 & !0x00FF_FFC0u32) | 0x006D_B6C0u32) >> 15u32) & 7u32 == 3u32) by (bit_vector);
    assert((((gpfsel2 & !0x00FF_FFC0u32) | 0x006D_B6C0u32) >> 18u32) & 7u32 == 3u32) by (bit_vector);
    assert((((gpfsel2 & !0x00FF_FFC0u32) | 0x006D_B6C0u32) >> 21u32) & 7u32 == 3u32) by (bit_vector);
    assert(((gpfsel2 & !0x00FF_FFC0u32) | 0x006D_B6C0u32) & !0x00FF_FFC0u32 == gpfsel2
        & !0x00FF_FFC0u32) by (bit_vector);
    assert forall|pin: u32| 22 <= pin <= 27 implies #[trigger] pin_function(r, pin) == FSEL_ALT4 by {
        if pin == 22 {
        } else if pin == 23 {
        } else if pin == 24 {
        } else if pin == 25 {
        } else if pin == 26 {
        } else {
            assert(pin == 27);
        }
    }
    r
}

/// A register value with its lowest bit set and every other bit kept.
pub fn set_first_bit(v: u32) -> (r: u32)
    ensures
        r == v | 1u32,
{
    v | 1
}

} // verus!
