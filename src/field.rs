//! Field codec: the named bits of a register and its raw bytes.
//!
//! Field `i` of a register is bit `i % 8` of byte `i / 8`: bits count from
//! the least significant one up (LSB0) and bytes in little-endian order. So
//! the field for pin `b` of port `p` of a port register is field `8 * p + b`,
//! and a one-byte register holds its fields 7 down to 0 in bits 7 down to 0.
use vstd::prelude::*;

verus! {

/// Whether bit `j` of `byte` is set, counting from the least significant bit.
pub open spec fn byte_bit(byte: u8, j: u8) -> bool {
    (byte >> j) & 1u8 == 1u8
}

/// Field `i` of a register that holds `bytes`.
pub open spec fn field_of(bytes: Seq<u8>, i: int) -> bool {
    byte_bit(bytes[i / 8], (i % 8) as u8)
}

/// All fields of a register that holds `bytes`, in field order.
pub open spec fn decode_spec(bytes: Seq<u8>) -> Seq<bool> {
    Seq::new((8 * bytes.len()) as nat, |i: int| field_of(bytes, i))
}

/// `mask` where `set` holds, zero elsewhere.
pub open spec fn flag(set: bool, mask: u8) -> u8 {
    if set {
        mask
    } else {
        0u8
    }
}

/// The byte whose bits 0 to 7 are `b0` to `b7`.
pub open spec fn pack8(
    b0: bool,
    b1: bool,
    b2: bool,
    b3: bool,
    b4: bool,
    b5: bool,
    b6: bool,
    b7: bool,
) -> u8 {
    flag(b0, 1) | flag(b1, 2) | flag(b2, 4) | flag(b3, 8) | flag(b4, 16) | flag(b5, 32)
        | flag(b6, 64) | flag(b7, 128)
}

/// Byte `k` of the register whose fields are `fields`.
pub open spec fn packed_byte(fields: Seq<bool>, k: int) -> u8 {
    pack8(
        fields[8 * k],
        fields[8 * k + 1],
        fields[8 * k + 2],
        fields[8 * k + 3],
        fields[8 * k + 4],
        fields[8 * k + 5],
        fields[8 * k + 6],
        fields[8 * k + 7],
    )
}

/// The bytes of a register whose fields are `fields`.
pub open spec fn encode_spec(fields: Seq<bool>) -> Seq<u8> {
    Seq::new(fields.len() / 8, |k: int| packed_byte(fields, k))
}

proof fn lemma_pack_of_bits(x: u8)
    ensures
        x == pack8(
            byte_bit(x, 0),
            byte_bit(x, 1),
            byte_bit(x, 2),
            byte_bit(x, 3),
            byte_bit(x, 4),
            byte_bit(x, 5),
            byte_bit(x, 6),
            byte_bit(x, 7),
        ),
{
    assert(x == pack8(
        byte_bit(x, 0),
        byte_bit(x, 1),
        byte_bit(x, 2),
        byte_bit(x, 3),
        byte_bit(x, 4),
        byte_bit(x, 5),
        byte_bit(x, 6),
        byte_bit(x, 7),
    )) by (bit_vector);
}

proof fn lemma_bits_of_pack(b0: bool, b1: bool, b2: bool, b3: bool, b4: bool, b5: bool, b6: bool, b7: bool)
    ensures
        byte_bit(pack8(b0, b1, b2, b3, b4, b5, b6, b7), 0) == b0,
        byte_bit(pack8(b0, b1, b2, b3, b4, b5, b6, b7), 1) == b1,
        byte_bit(pack8(b0, b1, b2, b3, b4, b5, b6, b7), 2) == b2,
        byte_bit(pack8(b0, b1, b2, b3, b4, b5, b6, b7), 3) == b3,
        byte_bit(pack8(b0, b1, b2, b3, b4, b5, b6, b7), 4) == b4,
        byte_bit(pack8(b0, b1, b2, b3, b4, b5, b6, b7), 5) == b5,
        byte_bit(pack8(b0, b1, b2, b3, b4, b5, b6, b7), 6) == b6,
        byte_bit(pack8(b0, b1, b2, b3, b4, b5, b6, b7), 7) == b7,
{
    assert(byte_bit(pack8(b0, b1, b2, b3, b4, b5, b6, b7), 0) == b0) by (bit_vector);
    assert(byte_bit(pack8(b0, b1, b2, b3, b4, b5, b6, b7), 1) == b1) by (bit_vector);
    assert(byte_bit(pack8(b0, b1, b2, b3, b4, b5, b6, b7), 2) == b2) by (bit_vector);
    assert(byte_bit(pack8(b0, b1, b2, b3, b4, b5, b6, b7), 3) == b3) by (bit_vector);
    assert(byte_bit(pack8(b0, b1, b2, b3, b4, b5, b6, b7), 4) == b4) by (bit_vector);
    assert(byte_bit(pack8(b0, b1, b2, b3, b4, b5, b6, b7), 5) == b5) by (bit_vector);
    assert(byte_bit(pack8(b0, b1, b2, b3, b4, b5, b6, b7), 6) == b6) by (bit_vector);
    assert(byte_bit(pack8(b0, b1, b2, b3, b4, b5, b6, b7), 7) == b7) by (bit_vector);
}

/// Encoding the decoded fields of any register gives back its bytes exactly.
pub proof fn lemma_encode_decode(bytes: Seq<u8>)
    ensures
        encode_spec(decode_spec(bytes)) == bytes,
{
    let fields = decode_spec(bytes);
    assert(fields.len() / 8 == bytes.len());
    assert forall|k: int| 0 <= k < bytes.len() implies packed_byte(fields, k) == bytes[k] by {
        assert forall|j: int| 0 <= j < 8 implies #[trigger] fields[8 * k + j] == byte_bit(
            bytes[k],
            j as u8,
        ) by {
            assert((8 * k + j) / 8 == k && (8 * k + j) % 8 == j);
        }
        lemma_pack_of_bits(bytes[k]);
    }
    assert(encode_spec(fields) =~= bytes);
}

/// Decoding the bytes encoded from whole bytes' worth of fields gives back
/// those fields exactly.
pub proof fn lemma_decode_encode(fields: Seq<bool>)
    requires
        fields.len() % 8 == 0,
    ensures
        decode_spec(encode_spec(fields)) == fields,
{
    let bytes = encode_spec(fields);
    assert forall|i: int| 0 <= i < fields.len() implies field_of(bytes, i) == fields[i] by {
        let k = i / 8;
        let j = i % 8;
        assert(i == 8 * k + j);
        lemma_bits_of_pack(
            fields[8 * k],
            fields[8 * k + 1],
            fields[8 * k + 2],
            fields[8 * k + 3],
            fields[8 * k + 4],
            fields[8 * k + 5],
            fields[8 * k + 6],
            fields[8 * k + 7],
        );
    }
    assert(decode_spec(bytes) =~= fields);
}

/// Field `index` of a register that holds `bytes`.
pub fn field(bytes: &[u8], index: usize) -> (r: bool)
    requires
        index < 8 * bytes@.len(),
    ensures
        r == field_of(bytes@, index as int),
{
    let j: u8 = (index % 8) as u8;
    (bytes[index / 8] >> j) & 1 == 1
}

/// The byte `byte` with bit `j` set to `value` and every other bit kept.
pub open spec fn with_bit(byte: u8, j: u8, value: bool) -> u8 {
    if value {
        byte | (1u8 << j)
    } else {
        byte & !(1u8 << j)
    }
}

proof fn lemma_with_bit(byte: u8, j: u8, value: bool)
    requires
        j < 8,
    ensures
        forall|t: u8|
            t < 8 ==> #[trigger] byte_bit(with_bit(byte, j, value), t) == if t == j {
                value
            } else {
                byte_bit(byte, t)
            },
{
    assert(forall|t: u8|
        t < 8 ==> #[trigger] byte_bit(with_bit(byte, j, value), t) == if t == j {
            value
        } else {
            byte_bit(byte, t)
        }) by (bit_vector)
        requires
            j < 8,
    ;
}

/// Sets field `index` of the register held in `bytes` to `value`, keeping
/// every other field.
pub fn set_field(bytes: &mut Vec<u8>, index: usize, value: bool)
    requires
        index < 8 * old(bytes)@.len(),
    ensures
        final(bytes)@.len() == old(bytes)@.len(),
        decode_spec(final(bytes)@) == decode_spec(old(bytes)@).update(index as int, value),
{
    let k: usize = index / 8;
    let j: u8 = (index % 8) as u8;
    let byte: u8 = bytes[k];
    let updated: u8 = if value {
        byte | (1u8 << j)
    } else {
        byte & !(1u8 << j)
    };
    assert(updated == with_bit(byte, j, value));
    bytes.set(k, updated);
    proof {
        lemma_with_bit(byte, j, value);
        let before = decode_spec(old(bytes)@);
        let after = decode_spec(bytes@);
        assert forall|i: int| 0 <= i < after.len() implies after[i] == before.update(
            index as int,
            value,
        )[i] by {
            if i / 8 == k as int {
                assert(byte_bit(updated, (i % 8) as u8) == if (i % 8) as u8 == j {
                    value
                } else {
                    byte_bit(byte, (i % 8) as u8)
                });
            }
        }
        assert(after =~= before.update(index as int, value));
    }
}

/// Decodes a register's bytes into its fields, in field order.
pub fn decode(bytes: &[u8]) -> (fields: Vec<bool>)
    ensures
        fields@ == decode_spec(bytes@),
{
    let mut fields: Vec<bool> = Vec::new();
    let mut k: usize = 0;
    while k < bytes.len()
        invariant
            k <= bytes@.len(),
            fields@.len() == 8 * k,
            forall|i: int| 0 <= i < 8 * k ==> fields@[i] == field_of(bytes@, i),
        decreases bytes@.len() - k,
    {
        let byte = bytes[k];
        let mut j: u8 = 0;
        while j < 8
            invariant
                k < bytes@.len(),
                byte == bytes@[k as int],
                j <= 8,
                fields@.len() == 8 * k + j,
                forall|i: int| 0 <= i < 8 * k + j ==> fields@[i] == field_of(bytes@, i),
            decreases 8 - j,
        {
            assert((8 * k + j) / 8 == k && (8 * k + j) % 8 == j as int);
            fields.push((byte >> j) & 1 == 1);
            j = j + 1;
        }
        k = k + 1;
    }
    assert(fields@ =~= decode_spec(bytes@));
    fields
}

/// Encodes a register's fields, given in field order, into its bytes.
pub fn encode(fields: &[bool]) -> (bytes: Vec<u8>)
    requires
        fields@.len() % 8 == 0,
    ensures
        bytes@ == encode_spec(fields@),
{
    let len: usize = fields.len();
    let n: usize = len / 8;
    let mut bytes: Vec<u8> = Vec::new();
    let mut k: usize = 0;
    while k < n
        invariant
            len == fields@.len(),
            n == len / 8,
            k <= n,
            bytes@.len() == k,
            forall|m: int| 0 <= m < k ==> bytes@[m] == packed_byte(fields@, m),
        decreases n - k,
    {
        assert(8 * k + 8 <= len) by (nonlinear_arith)
            requires
                k < n,
                n == len / 8,
        ;
        let b: usize = 8 * k;
        let byte: u8 = (if fields[b] { 1u8 } else { 0u8 }) | (if fields[b + 1] { 2u8 } else { 0u8 })
            | (if fields[b + 2] { 4u8 } else { 0u8 }) | (if fields[b + 3] { 8u8 } else { 0u8 })
            | (if fields[b + 4] { 16u8 } else { 0u8 }) | (if fields[b + 5] { 32u8 } else { 0u8 })
            | (if fields[b + 6] { 64u8 } else { 0u8 }) | (if fields[b + 7] { 128u8 } else { 0u8 });
        bytes.push(byte);
        k = k + 1;
    }
    assert(bytes@ =~= encode_spec(fields@));
    bytes
}

} // verus!
