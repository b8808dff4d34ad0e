use vstd::prelude::*;

verus! {

/// The reflected Modbus polynomial.
pub const CRC_POLYNOMIAL: u16 = 0xA001;

/// One bit step of the CRC register: shift right, folding in the polynomial
/// when the bit shifted out was set.
pub open spec fn crc_shift(c: u16) -> u16 {
    if c & 1u16 != 0u16 {
        (c >> 1u16) ^ 0xA001u16
    } else {
        c >> 1u16
    }
}

/// `n` bit steps of the CRC register.
pub open spec fn crc_shifts(c: u16, n: nat) -> u16
    decreases n,
{
    if n == 0 {
        c
    } else {
        crc_shift(crc_shifts(c, (n - 1) as nat))
    }
}

/// The CRC register after one more byte.
pub open spec fn crc_byte(c: u16, b: u8) -> u16 {
    crc_shift(
        crc_shift(crc_shift(crc_shift(crc_shift(crc_shift(crc_shift(crc_shift(c ^ (b as u16)))))))),
    )
}

/// The CRC register after the bytes of `s`, starting from `0xFFFF`.
pub open spec fn crc_register(s: Seq<u8>) -> u16
    decreases s.len(),
{
    if s.len() == 0 {
        0xFFFFu16
    } else {
        crc_byte(crc_register(s.drop_last()), s.last())
    }
}

/// `v` with its two bytes exchanged.
pub open spec fn swap16(v: u16) -> u16 {
    ((v % 256) * 256 + v / 256) as u16
}

/// The Modbus CRC-16 of `s`, with its bytes exchanged so that the big-endian
/// bytes of the result are the low register byte, then the high one.
pub open spec fn modbus_crc(s: Seq<u8>) -> u16 {
    swap16(crc_register(s))
}

proof fn lemma_eight_shifts(c: u16)
    ensures
        crc_shifts(c, 8) == crc_shift(
            crc_shift(crc_shift(crc_shift(crc_shift(crc_shift(crc_shift(crc_shift(c))))))),
        ),
{
    reveal_with_fuel(crc_shifts, 9);
}

/// The two bytes of `v`, most significant first.
pub open spec fn be16(v: u16) -> Seq<u8> {
    seq![(v / 256) as u8, (v % 256) as u8]
}

/// The 16-bit value whose big-endian bytes are `hi` and `lo`.
pub open spec fn be_u16(hi: u8, lo: u8) -> u16 {
    (hi * 256 + lo) as u16
}

/// Feeding the CRC register its own low byte, then its high byte, clears it.
proof fn lemma_register_residue(r: u16)
    ensures
        crc_byte(crc_byte(r, (r & 0xffu16) as u8), (r >> 8u16) as u8) == 0u16,
{
    let a0 = r ^ (((r & 0xffu16) as u8) as u16);
    let a1 = crc_shift(a0);
    let a2 = crc_shift(a1);
    let a3 = crc_shift(a2);
    let a4 = crc_shift(a3);
    let a5 = crc_shift(a4);
    let a6 = crc_shift(a5);
    let a7 = crc_shift(a6);
    let a8 = crc_shift(a7);
    let b0 = a8 ^ (((r >> 8u16) as u8) as u16);
    let b1 = crc_shift(b0);
    let b2 = crc_shift(b1);
    let b3 = crc_shift(b2);
    let b4 = crc_shift(b3);
    let b5 = crc_shift(b4);
    let b6 = crc_shift(b5);
    let b7 = crc_shift(b6);
    let b8 = crc_shift(b7);
    assert(b8 == 0u16) by (bit_vector)
        requires
            a0 == r ^ (((r & 0xffu16) as u8) as u16),
            a1 == (if a0 & 1u16 != 0u16 { (a0 >> 1u16) ^ 0xA001u16 } else { a0 >> 1u16 }),
            a2 == (if a1 & 1u16 != 0u16 { (a1 >> 1u16) ^ 0xA001u16 } else { a1 >> 1u16 }),
            a3 == (if a2 & 1u16 != 0u16 { (a2 >> 1u16) ^ 0xA001u16 } else { a2 >> 1u16 }),
            a4 == (if a3 & 1u16 != 0u16 { (a3 >> 1u16) ^ 0xA001u16 } else { a3 >> 1u16 }),
            a5 == (if a4 & 1u16 != 0u16 { (a4 >> 1u16) ^ 0xA001u16 } else { a4 >> 1u16 }),
            a6 == (if a5 & 1u16 != 0u16 { (a5 >> 1u16) ^ 0xA001u16 } else { a5 >> 1u16 }),
            a7 == (if a6 & 1u16 != 0u16 { (a6 >> 1u16) ^ 0xA001u16 } else { a6 >> 1u16 }),
            a8 == (if a7 & 1u16 != 0u16 { (a7 >> 1u16) ^ 0xA001u16 } else { a7 >> 1u16 }),
            b0 == a8 ^ (((r >> 8u16) as u8) as u16),
            b1 == (if b0 & 1u16 != 0u16 { (b0 >> 1u16) ^ 0xA001u16 } else { b0 >> 1u16 }),
            b2 == (if b1 & 1u16 != 0u16 { (b1 >> 1u16) ^ 0xA001u16 } else { b1 >> 1u16 }),
            b3 == (if b2 & 1u16 != 0u16 { (b2 >> 1u16) ^ 0xA001u16 } else { b2 >> 1u16 }),
            b4 == (if b3 & 1u16 != 0u16 { (b3 >> 1u16) ^ 0xA001u16 } else { b3 >> 1u16 }),
            b5 == (if b4 & 1u16 != 0u16 { (b4 >> 1u16) ^ 0xA001u16 } else { b4 >> 1u16 }),
            b6 == (if b5 & 1u16 != 0u16 { (b5 >> 1u16) ^ 0xA001u16 } else { b5 >> 1u16 }),
            b7 == (if b6 & 1u16 != 0u16 { (b6 >> 1u16) ^ 0xA001u16 } else { b6 >> 1u16 }),
            b8 == (if b7 & 1u16 != 0u16 { (b7 >> 1u16) ^ 0xA001u16 } else { b7 >> 1u16 }),
    ;
}

/// Appending to a message the big-endian bytes of its Modbus CRC gives a
/// message whose CRC register is zero: this is how a receiver checks a frame.
pub proof fn lemma_crc_residue(s: Seq<u8>)
    ensures
        crc_register(s + be16(modbus_crc(s))) == 0u16,
{
    let r = crc_register(s);
    let lo = (modbus_crc(s) / 256) as u8;
    let hi = (modbus_crc(s) % 256) as u8;
    assert(lo == (r & 0xffu16) as u8 && hi == (r >> 8u16) as u8) by (bit_vector)
        requires
            lo == (((r % 256) * 256 + r / 256) as u16 / 256) as u8,
            hi == (((r % 256) * 256 + r / 256) as u16 % 256) as u8,
    ;
    let t = s + be16(modbus_crc(s));
    assert(t =~= s + seq![lo, hi]);
    assert(t.drop_last() =~= s.push(lo));
    assert(s.push(lo).drop_last() =~= s);
    assert(t.last() == hi);
    assert(s.push(lo).last() == lo);
    assert(crc_register(s.push(lo)) == crc_byte(r, lo));
    assert(crc_register(t) == crc_byte(crc_register(s.push(lo)), hi));
    lemma_register_residue(r);
}

/// Computes the Modbus CRC-16 of `command`.
#[must_use]
pub fn mod_bus_crc_calculation(command: &[u8]) -> (crc: u16)
    ensures
        crc == modbus_crc(command@),
{
    let mut crc: u16 = 0xFFFF;
    let crc_polinomial: u16 = CRC_POLYNOMIAL;
    let mut i: usize = 0;
    while i < command.len()
        invariant
            i <= command@.len(),
            crc == crc_register(command@.take(i as int)),
            crc_polinomial == 0xA001u16,
        decreases command@.len() - i,
    {
        let byte = command[i];
        crc ^= byte as u16;
        let ghost start = crc;
        let mut j: u8 = 0;
        while j < 8
            invariant
                j <= 8,
                crc == crc_shifts(start, j as nat),
                crc_polinomial == 0xA001u16,
            decreases 8 - j,
        {
            if crc & 0x0001 != 0 {
                crc = (crc >> 1) ^ crc_polinomial;
            } else {
                crc >>= 1;
            }
            j += 1;
        }
        proof {
            lemma_eight_shifts(start);
            assert(command@.take(i + 1).drop_last() =~= command@.take(i as int));
        }
        i += 1;
    }
    assert(command@.take(command@.len() as int) =~= command@);
    (crc % 256) * 256 + crc / 256
}

} // verus!
