//! Register map of the controller and the byte frames that address it.
//!
//! Register addresses are 16 bits wide and travel on the bus split
//! big-endian, high byte first. Payload fields inside the point record
//! are little-endian instead; that asymmetry is a quirk of the device
//! and is preserved exactly here.
use vstd::prelude::*;

verus! {

/// Address of the 4-byte ASCII product-identity register.
pub const REG_PRODUCT_ID: u16 = 0x8140;

/// Address of the 1-byte point-info status register:
/// bit 7 is the buffer-ready flag, bits 2..=0 the touch count.
pub const REG_POINT_INFO: u16 = 0x814E;

/// Address of the first 7-byte touch-point record.
pub const REG_POINT_1: u16 = 0x814F;

/// High byte of a register address, the byte sent first on the bus.
pub open spec fn spec_reg_hi(reg: u16) -> u8 {
    (reg / 256) as u8
}

/// Low byte of a register address, the byte sent second on the bus.
pub open spec fn spec_reg_lo(reg: u16) -> u8 {
    (reg % 256) as u8
}

/// The register address that a big-endian byte pair denotes.
pub open spec fn spec_reg_addr(hi: u8, lo: u8) -> u16 {
    (hi * 256 + lo) as u16
}

/// Splits a register address into the big-endian byte pair the
/// controller expects on the wire.
pub fn encode_reg_addr(reg: u16) -> (r: [u8; 2])
    ensures
        r@ == seq![spec_reg_hi(reg), spec_reg_lo(reg)],
{
    proof {
        assert((reg >> 8) as u8 == spec_reg_hi(reg)) by (bit_vector);
        assert((reg & 0xFF) as u8 == spec_reg_lo(reg)) by (bit_vector);
    }
    let r: [u8; 2] = [(reg >> 8) as u8, (reg & 0xFF) as u8];
    proof {
        assert(r@ =~= seq![spec_reg_hi(reg), spec_reg_lo(reg)]);
    }
    r
}

/// Joins a big-endian byte pair back into the register address.
pub fn decode_reg_addr(hi: u8, lo: u8) -> (r: u16)
    ensures
        r == spec_reg_addr(hi, lo),
{
    proof {
        assert(((hi as u16) << 8) | (lo as u16) == spec_reg_addr(hi, lo)) by (bit_vector);
    }
    ((hi as u16) << 8) | (lo as u16)
}

/// Frame that selects a register for a combined write-then-read
/// transaction: the address alone, big-endian.
pub fn reg_select_frame(reg: u16) -> (r: Vec<u8>)
    ensures
        r@ == seq![spec_reg_hi(reg), spec_reg_lo(reg)],
{
    let pair = encode_reg_addr(reg);
    let mut v: Vec<u8> = Vec::new();
    v.push(pair[0]);
    v.push(pair[1]);
    proof {
        assert(v@ =~= seq![spec_reg_hi(reg), spec_reg_lo(reg)]);
    }
    v
}

/// Frame that stores a zero byte into a register: the address
/// big-endian, then the zero payload.
pub fn reg_clear_frame(reg: u16) -> (r: Vec<u8>)
    ensures
        r@ == seq![spec_reg_hi(reg), spec_reg_lo(reg), 0u8],
{
    let pair = encode_reg_addr(reg);
    let mut v: Vec<u8> = Vec::new();
    v.push(pair[0]);
    v.push(pair[1]);
    v.push(0u8);
    proof {
        assert(v@ =~= seq![spec_reg_hi(reg), spec_reg_lo(reg), 0u8]);
    }
    v
}

/// Splitting a register address big-endian and joining the two bytes
/// again yields the same 16-bit address.
pub proof fn lemma_reg_addr_round_trip(reg: u16)
    ensures
        spec_reg_addr(spec_reg_hi(reg), spec_reg_lo(reg)) == reg,
{
}

} // verus!
