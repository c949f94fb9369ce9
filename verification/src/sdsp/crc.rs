//! The CRC16 that protects an SDSP frame.
//!
//! The register starts at zero. Each byte is folded into the low half of the
//! register, which is then shifted right eight times; whenever a set bit leaves
//! the register, the polynomial `0x1021` is folded in.

use vstd::prelude::*;

verus! {

/// The polynomial folded into the register when a set bit is shifted out.
pub const CRC_POLYNOMIAL: u16 = 0x1021;

/// One shift of the CRC register.
pub open spec fn crc_shift(crc: u16) -> u16 {
    if crc & 1 != 0 {
        (crc >> 1) ^ CRC_POLYNOMIAL
    } else {
        crc >> 1
    }
}

/// `n` shifts of the CRC register.
pub open spec fn crc_shift_n(crc: u16, n: nat) -> u16
    decreases n,
{
    if n == 0 {
        crc
    } else {
        crc_shift(crc_shift_n(crc, (n - 1) as nat))
    }
}

/// The register after `byte` has been folded into `crc`.
pub open spec fn crc_update(crc: u16, byte: u8) -> u16 {
    crc_shift_n(crc ^ (byte as u16), 8)
}

/// The CRC16 of `data`.
pub open spec fn crc16(data: Seq<u8>) -> u16
    decreases data.len(),
{
    if data.len() == 0 {
        0
    } else {
        crc_update(crc16(data.drop_last()), data.last())
    }
}

/// Computes the CRC16 of `data`.
pub fn sdsp_crc16(data: &Vec<u8>) -> (crc: u16)
    ensures
        crc == crc16(data@),
{
    let mut crc: u16 = 0x0000;
    let mut i: usize = 0;
    while i < data.len()
        invariant
            i <= data.len(),
            crc == crc16(data@.take(i as int)),
        decreases data.len() - i,
    {
        let ghost before = crc;
        crc = crc ^ (data[i] as u16);
        let mut shifts: u8 = 0;
        while shifts < 8
            invariant
                shifts <= 8,
                crc == crc_shift_n(before ^ (data[i as int] as u16), shifts as nat),
                i < data.len(),
            decreases 8 - shifts,
        {
            if (crc & 0x0001) != 0 {
                crc = (crc >> 1) ^ CRC_POLYNOMIAL;
            } else {
                crc = crc >> 1;
            }
            shifts = shifts + 1;
        }
        proof {
            let next = data@.take(i + 1);
            assert(next.drop_last() == data@.take(i as int));
        }
        i = i + 1;
    }
    proof {
        assert(data@.take(data.len() as int) == data@);
    }
    crc
}

/// `byte` with the bit of weight `2^bit` inverted.
pub open spec fn flip_bit(byte: u8, bit: u8) -> u8 {
    byte ^ (1u8 << bit)
}

/// A difference between two registers that no number of further shifts wipes
/// out: three shifts leave something of it.
pub open spec fn persistent(diff: u16) -> bool {
    crc_shift(crc_shift(crc_shift(diff))) != 0
}

/// Shifting is linear: the shift of a difference is the difference of the
/// shifts.
pub proof fn lemma_crc_shift_linear(a: u16, b: u16)
    ensures
        crc_shift(a ^ b) == crc_shift(a) ^ crc_shift(b),
{
    assert(crc_shift(a ^ b) == crc_shift(a) ^ crc_shift(b)) by (bit_vector);
}

/// Any number of shifts is linear.
pub proof fn lemma_crc_shift_n_linear(a: u16, b: u16, n: nat)
    ensures
        crc_shift_n(a ^ b, n) == crc_shift_n(a, n) ^ crc_shift_n(b, n),
    decreases n,
{
    if n > 0 {
        lemma_crc_shift_n_linear(a, b, (n - 1) as nat);
        lemma_crc_shift_linear(crc_shift_n(a, (n - 1) as nat), crc_shift_n(b, (n - 1) as nat));
    }
}

/// A persistent difference stays persistent under any number of shifts.
pub proof fn lemma_persistent_shift_n(diff: u16, n: nat)
    requires
        persistent(diff),
    ensures
        persistent(crc_shift_n(diff, n)),
    decreases n,
{
    if n > 0 {
        lemma_persistent_shift_n(diff, (n - 1) as nat);
        let d = crc_shift_n(diff, (n - 1) as nat);
        assert(persistent(d) ==> persistent(crc_shift(d))) by (bit_vector);
    }
}

/// Two registers with a persistent difference are different.
pub proof fn lemma_persistent_distinct(a: u16, b: u16)
    requires
        persistent(a ^ b),
    ensures
        a != b,
{
    assert(persistent(a ^ b) ==> a != b) by (bit_vector);
}

/// The registers after two byte sequences that differ in one bit of one byte
/// have a persistent difference.
proof fn lemma_crc16_bit_flip_persistent(data: Seq<u8>, index: int, bit: u8)
    requires
        0 <= index < data.len(),
        bit < 8,
    ensures
        persistent(crc16(data) ^ crc16(data.update(index, flip_bit(data[index], bit)))),
    decreases data.len(),
{
    let other = data.update(index, flip_bit(data[index], bit));
    let head = data.drop_last();
    let other_head = other.drop_last();
    let a: u16 = crc16(head);
    let b: u16 = crc16(other_head);
    let x: u8 = data.last();
    let y: u8 = other.last();
    lemma_crc_shift_n_linear(a ^ (x as u16), b ^ (y as u16), 8);
    if index == data.len() - 1 {
        assert(other_head == head);
        let diff: u16 = (a ^ (x as u16)) ^ (a ^ (y as u16));
        assert(persistent(diff)) by (bit_vector)
            requires
                bit < 8,
                y == flip_bit(x, bit),
                diff == (a ^ (x as u16)) ^ (a ^ (y as u16)),
        ;
        lemma_persistent_shift_n(diff, 8);
    } else {
        assert(other_head == head.update(index, flip_bit(head[index], bit)));
        lemma_crc16_bit_flip_persistent(head, index, bit);
        let diff: u16 = (a ^ (x as u16)) ^ (b ^ (x as u16));
        assert(diff == a ^ b) by (bit_vector)
            requires
                diff == (a ^ (x as u16)) ^ (b ^ (x as u16)),
        ;
        lemma_persistent_shift_n(diff, 8);
    }
}

/// The CRC16 tells apart any two byte sequences that differ in a single bit.
pub proof fn lemma_crc16_detects_bit_flip(data: Seq<u8>, index: int, bit: u8)
    requires
        0 <= index < data.len(),
        bit < 8,
    ensures
        crc16(data.update(index, flip_bit(data[index], bit))) != crc16(data),
{
    lemma_crc16_bit_flip_persistent(data, index, bit);
    lemma_persistent_distinct(crc16(data), crc16(data.update(index, flip_bit(data[index], bit))));
}

} // verus!
