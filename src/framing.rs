use vstd::prelude::*;
use crate::registers::Register;

verus! {

/// Direction bit of the command byte: set for a read, clear for a write.
pub const READ_BIT: u8 = 0x80;

/// Auto-increment bit of the command byte: set when a transfer spans more
/// than one register.
pub const MULTI_BYTE_BIT: u8 = 0x40;

/// The command byte that starts a read of `len` bytes at `reg`.
pub open spec fn spec_read_command(reg: Register, len: nat) -> u8 {
    if len > 1 {
        reg.spec_addr() | READ_BIT | MULTI_BYTE_BIT
    } else {
        reg.spec_addr() | READ_BIT
    }
}

/// The command byte that starts a write of `len` bytes at `reg`.
pub open spec fn spec_write_command(reg: Register, len: nat) -> u8 {
    if len > 1 {
        (reg.spec_addr() & 0x7F) | MULTI_BYTE_BIT
    } else {
        reg.spec_addr() & 0x7F
    }
}

/// Builds the command byte for a read of `len` bytes starting at `reg`.
pub fn read_command(reg: Register, len: usize) -> (r: u8)
    ensures
        r == spec_read_command(reg, len as nat),
        r & 0x3F == reg.spec_addr(),
        r & 0x80 == 0x80,
        len <= 1 ==> r == reg.spec_addr() | 0x80,
        len <= 1 ==> r & 0x40 == 0,
        len > 1 ==> r & 0xC0 == 0xC0,
{
    let a = reg.addr();
    proof {
        reg.lemma_addr_below_control_bits();
        assert((a | 0x80) & 0x3F == a && (a | 0x80) & 0x80 == 0x80 && (a | 0x80) & 0x40 == 0)
            by (bit_vector)
            requires
                a < 0x40u8,
        ;
        assert(((a | 0x80) | 0x40) & 0x3F == a && ((a | 0x80) | 0x40) & 0x80 == 0x80 && ((a
            | 0x80) | 0x40) & 0xC0 == 0xC0) by (bit_vector)
            requires
                a < 0x40u8,
        ;
    }
    let mut cmd = a | READ_BIT;
    if len > 1 {
        cmd = cmd | MULTI_BYTE_BIT;
    }
    cmd
}

/// Builds the command byte for a write of `len` bytes starting at `reg`.
pub fn write_command(reg: Register, len: usize) -> (r: u8)
    ensures
        r == spec_write_command(reg, len as nat),
        r & 0x3F == reg.spec_addr(),
        r & 0x80 == 0,
        len <= 1 ==> r == reg.spec_addr() & 0x7F,
        len <= 1 ==> r & 0x40 == 0,
        len > 1 ==> r & 0xC0 == 0x40,
{
    let a = reg.addr();
    proof {
        reg.lemma_addr_below_control_bits();
        assert((a & 0x7F) & 0x3F == a && (a & 0x7F) & 0x80 == 0 && (a & 0x7F) & 0x40 == 0)
            by (bit_vector)
            requires
                a < 0x40u8,
        ;
        assert(((a & 0x7F) | 0x40) & 0x3F == a && ((a & 0x7F) | 0x40) & 0x80 == 0 && ((a
            & 0x7F) | 0x40) & 0xC0 == 0x40) by (bit_vector)
            requires
                a < 0x40u8,
        ;
    }
    let mut cmd = a & 0x7F;
    if len > 1 {
        cmd = cmd | MULTI_BYTE_BIT;
    }
    cmd
}

} // verus!
