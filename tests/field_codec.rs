use pcal6416a::field::{decode, encode, field, set_field};

#[test]
fn decode_orders_fields_from_least_significant_bit() {
    let fields = decode(&[0b0100_0011]);
    assert_eq!(fields, vec![true, true, false, false, false, false, true, false]);
}

#[test]
fn decode_second_byte_holds_fields_eight_to_fifteen() {
    let fields = decode(&[0x00, 0x04]);
    assert_eq!(fields.len(), 16);
    assert!(fields[10]);
    assert_eq!(fields.iter().filter(|f| **f).count(), 1);
}

#[test]
fn decode_empty_buffer_has_no_fields() {
    assert!(decode(&[]).is_empty());
}

#[test]
fn encode_packs_fields_into_bytes() {
    let fields = [true, false, true, false, true, true, true, true];
    assert_eq!(encode(&fields), vec![0b1111_0101]);
    assert_eq!(encode(&[false; 16]), vec![0, 0]);
    assert_eq!(encode(&[true; 16]), vec![0xFF, 0xFF]);
}

#[test]
fn encode_of_decode_gives_back_every_byte() {
    for x in 0..=255u8 {
        for y in [0x00u8, 0x5A, 0xA5, 0xFF] {
            let bytes = vec![x, y];
            assert_eq!(encode(&decode(&bytes)), bytes);
        }
    }
}

#[test]
fn decode_of_encode_gives_back_the_fields() {
    let fields = vec![
        true, false, false, true, true, false, true, false, false, false, true, true, false, true,
        false, true,
    ];
    assert_eq!(decode(&encode(&fields)), fields);
}

#[test]
fn field_reads_single_bits() {
    let bytes = [0b0100_0011u8, 0b1000_0000];
    assert!(field(&bytes, 0));
    assert!(field(&bytes, 1));
    assert!(!field(&bytes, 2));
    assert!(field(&bytes, 6));
    assert!(!field(&bytes, 7));
    assert!(!field(&bytes, 8));
    assert!(field(&bytes, 15));
}

#[test]
fn read_modify_write_changes_only_the_mutated_field() {
    let read_back = [0b0101_0111u8];
    let mut fields = decode(&read_back);
    fields[3] = true;
    assert_eq!(encode(&fields), vec![0b0101_1111]);
}

#[test]
fn set_field_sets_and_clears_one_bit() {
    let mut bytes = vec![0b0101_0111u8, 0x00];
    set_field(&mut bytes, 3, true);
    assert_eq!(bytes, vec![0b0101_1111, 0x00]);
    set_field(&mut bytes, 0, false);
    assert_eq!(bytes, vec![0b0101_1110, 0x00]);
    set_field(&mut bytes, 15, true);
    assert_eq!(bytes, vec![0b0101_1110, 0x80]);
    set_field(&mut bytes, 6, true);
    assert_eq!(bytes, vec![0b0101_1110, 0x80]);
}

#[test]
fn set_field_from_zeroed_buffer_builds_the_write_payload() {
    let mut bytes = vec![0u8];
    for (i, value) in [true, false, true, false, true, true, true, true].iter().enumerate() {
        set_field(&mut bytes, i, *value);
    }
    assert_eq!(bytes, vec![0b1111_0101]);
}
