use stl_handler::codec::{bytes_to_string, bytes_to_u16, bytes_to_u32, u32_to_bytes};

#[test]
fn bytes_to_f32_conversion() {
    //the number 0.15625 (as f32) split into bytes
    let stream = [0b00111110, 0b00100000, 0b00000000, 0b00000000];

    let test_f32 = f32::from_bits(bytes_to_u32(&stream));
    assert_eq!(test_f32, 0.15625);
}

#[test]
fn bytes_to_u16_conversion() {
    //the number 5000 in binary, split into bytes
    let stream = [0b0010011, 0b10001000];

    let test_u16 = bytes_to_u16(&stream);
    assert_eq!(test_u16, 5000);
}

#[test]
fn bytes_to_u32_conversion() {
    //the number 5000 in binary, split into bytes
    let stream = [0b00000000, 0b00000000, 0b0010011, 0b10001000];

    let test_u32 = bytes_to_u32(&stream);
    assert_eq!(test_u32, 5000);
}

#[test]
fn f32_to_bytes_conversion() {
    //the numbers they are named, split into bytes
    let ten = [0b01000001, 0b00100000, 0b00000000, 0b00000000];
    let hundred = [0b01000010, 0b11001000, 0b00000000, 0b00000000];
    let twenty = [0b01000001, 0b10100000, 0b00000000, 0b00000000];

    assert_eq!(ten, u32_to_bytes(10.0f32.to_bits()));
    assert_eq!(hundred, u32_to_bytes(100.0f32.to_bits()));
    assert_eq!(twenty, u32_to_bytes(20.0f32.to_bits()));
}

#[test]
fn bytes_to_string_conversion() {
    //ascci code for "hello"
    let hello = [104, 101, 108, 108, 111];
    let test = bytes_to_string(&hello);
    assert_eq!(String::from("hello"), test);
}

#[test]
fn bytes_to_string_keeps_padding() {
    let padded = [104, 105, 0, 32, 32];
    let test = bytes_to_string(&padded);
    assert_eq!(test.len(), 5);
    assert_eq!(test, String::from("hi\0  "));
}

#[test]
fn bytes_to_string_empty() {
    let test = bytes_to_string(&[]);
    assert_eq!(test, String::new());
}

#[test]
fn bytes_round_trip_through_value() {
    // every 4-byte pattern comes back unchanged, a NaN pattern too
    let cases: [[u8; 4]; 4] = [
        [0x41, 0x20, 0x00, 0x00],
        [0x00, 0x00, 0x00, 0x00],
        [0x7F, 0xC0, 0x00, 0x01],
        [0xFF, 0xFF, 0xFF, 0xFF],
    ];
    for bytes in cases.iter() {
        assert_eq!(u32_to_bytes(bytes_to_u32(bytes)), *bytes);
    }
}

#[test]
fn value_round_trip_through_bytes() {
    let cases: [u32; 4] = [0, 5000, 0x41200000, u32::MAX];
    for x in cases.iter() {
        assert_eq!(bytes_to_u32(&u32_to_bytes(*x)), *x);
    }
}

#[test]
fn float_value_round_trip_through_bytes() {
    // a non-NaN float survives the byte decomposition exactly
    for v in [0.15625f32, 10.0, 100.0, 20.0, -1.5].iter() {
        let back = f32::from_bits(bytes_to_u32(&u32_to_bytes(v.to_bits())));
        assert_eq!(back, *v);
    }
}
