//! The processor status byte and the two flags that instructions recompute.

use vstd::prelude::*;

verus! {

/// Bit 1 of the status byte: the last value written was zero.
pub const ZERO_FLAG: u8 = 0b0000_0010;

/// Bit 7 of the status byte: bit 7 of the last value written was set.
pub const NEGATIVE_FLAG: u8 = 0b1000_0000;

/// Whether the Zero flag is set in `status`.
pub open spec fn zero_flag(status: u8) -> bool {
    status & ZERO_FLAG != 0
}

/// Whether the Negative flag is set in `status`.
pub open spec fn negative_flag(status: u8) -> bool {
    status & NEGATIVE_FLAG != 0
}

/// The bits of `status` that no instruction of the core recomputes.
pub open spec fn reserved_bits(status: u8) -> u8 {
    status & !(ZERO_FLAG | NEGATIVE_FLAG)
}

/// The status byte after an instruction has written `value` to its register:
/// the reserved bits of `status`, Zero if `value` is zero, and bit 7 of
/// `value` as Negative.
pub open spec fn status_after(status: u8, value: u8) -> u8 {
    reserved_bits(status) | (if value == 0 { ZERO_FLAG } else { 0u8 }) | (value & NEGATIVE_FLAG)
}

/// `status_after` is the only byte that has Zero and Negative as `value`
/// dictates and the reserved bits of `status`.
pub proof fn lemma_status_after(status: u8, value: u8)
    ensures
        zero_flag(status_after(status, value)) <==> value == 0,
        negative_flag(status_after(status, value)) <==> value & 0x80 != 0,
        reserved_bits(status_after(status, value)) == reserved_bits(status),
        forall|other: u8|
            (zero_flag(other) <==> value == 0) && (negative_flag(other) <==> value & 0x80 != 0)
                && reserved_bits(other) == reserved_bits(status) ==> other == status_after(
                status,
                value,
            ),
{
    assert(zero_flag(status_after(status, value)) <==> value == 0) by (bit_vector);
    assert(negative_flag(status_after(status, value)) <==> value & 0x80 != 0) by (bit_vector);
    assert(reserved_bits(status_after(status, value)) == reserved_bits(status)) by (bit_vector);
    assert forall|other: u8|
        (zero_flag(other) <==> value == 0) && (negative_flag(other) <==> value & 0x80 != 0)
            && reserved_bits(other) == reserved_bits(status) implies other == status_after(
        status,
        value,
    ) by {
        assert((zero_flag(other) <==> value == 0) && (negative_flag(other) <==> value & 0x80 != 0)
            && reserved_bits(other) == reserved_bits(status) ==> other == status_after(
            status,
            value,
        )) by (bit_vector);
    }
}

} // verus!
