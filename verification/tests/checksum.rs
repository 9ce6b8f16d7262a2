use fefix::buffer::Buffer;
use fefix::checksum::CheckSum;
use fefix::error;
use fefix::field::FixFieldValue;

#[test]
fn edges_cases() {
    assert_eq!(CheckSum::compute(&[]).0, 0);
    assert_eq!(CheckSum::compute(&[1]).0, 1);
    assert_eq!(CheckSum::compute(&[128, 127]).0, 255);
    assert_eq!(CheckSum::compute(&[128, 128]).0, 0);
}

#[test]
fn compute_wraps_past_256() {
    assert_eq!(CheckSum::compute(&[255, 255, 255]).0, 253);
    assert_eq!(CheckSum::compute(&[100, 100, 100]).0, 44);
}

#[test]
fn serialize_zero_pads_to_three_digits() {
    let cases: [(u8, &[u8; 3]); 5] = [
        (0, b"000"),
        (1, b"001"),
        (7, b"007"),
        (64, b"064"),
        (255, b"255"),
    ];
    for (value, expected) in cases {
        let mut buffer: Vec<u8> = Vec::new();
        let written = CheckSum(value).serialize(&mut buffer);
        assert_eq!(written, 3);
        assert_eq!(buffer.as_slice(), &expected[..]);
    }
}

#[test]
fn serialize_appends_after_existing_bytes() {
    let mut buffer: Vec<u8> = b"8=FIX.4.4\x019=5\x01".to_vec();
    let written = CheckSum::compute(b"8=FIX.4.4\x019=5\x01").serialize(&mut buffer);
    assert_eq!(written, 3);
    assert_eq!(&buffer[..14], b"8=FIX.4.4\x019=5\x01");
    assert_eq!(&buffer[14..], b"205");
}

#[test]
fn strict_decode_scenarios() {
    assert_eq!(CheckSum::deserialize(b"255"), Ok(CheckSum(255)));
    assert_eq!(CheckSum::deserialize(b"000"), Ok(CheckSum(0)));
    assert_eq!(CheckSum::deserialize(b"007"), Ok(CheckSum(7)));
    assert_eq!(
        CheckSum::deserialize(b"25X"),
        Err(error::CheckSum::NotAsciiDigits)
    );
    assert_eq!(CheckSum::deserialize(b"25"), Err(error::CheckSum::WrongLength));
}

#[test]
fn both_decode_modes_reject_wrong_length() {
    let inputs: [&[u8]; 4] = [b"", b"1", b"1234", b"0000000"];
    for input in inputs {
        assert_eq!(
            CheckSum::deserialize(input),
            Err(error::CheckSum::WrongLength)
        );
        assert_eq!(
            CheckSum::deserialize_lossy(input),
            Err(error::CheckSum::WrongLength)
        );
    }
}

#[test]
fn lossy_decode_skips_digit_checks() {
    // Same malformed-but-correct-length input: strict rejects it,
    // lossy reads it with wrapping digit arithmetic.
    assert_eq!(
        CheckSum::deserialize(b"25X"),
        Err(error::CheckSum::NotAsciiDigits)
    );
    // ('2'-'0')*100 + ('5'-'0')*10 + ('X'-'0') = 200 + 50 + 40 = 290 = 34 mod 256
    assert_eq!(CheckSum::deserialize_lossy(b"25X"), Ok(CheckSum(34)));
}

#[test]
fn lossy_decode_agrees_with_strict_on_digits() {
    assert_eq!(CheckSum::deserialize_lossy(b"255"), Ok(CheckSum(255)));
    assert_eq!(CheckSum::deserialize_lossy(b"042"), Ok(CheckSum(42)));
}

#[test]
fn strict_decode_inverts_serialize_for_every_value() {
    for value in 0..=255u8 {
        let mut buffer: Vec<u8> = Vec::new();
        let written = CheckSum(value).serialize(&mut buffer);
        assert_eq!(written, 3);
        assert_eq!(CheckSum::deserialize(buffer.as_slice()), Ok(CheckSum(value)));
        assert_eq!(
            CheckSum::deserialize_lossy(buffer.as_slice()),
            Ok(CheckSum(value))
        );
    }
}

#[test]
fn checksum_is_pure_ascii() {
    assert!(CheckSum::is_ascii());
    for value in 0..=255u8 {
        let mut buffer: Vec<u8> = Vec::new();
        CheckSum(value).serialize(&mut buffer);
        assert!(buffer.iter().all(|byte| byte.is_ascii_digit()));
    }
}

#[test]
fn buffer_push_byte_appends() {
    let mut buffer: Vec<u8> = b"10=".to_vec();
    Buffer::push_byte(&mut buffer, b'0');
    assert_eq!(buffer.as_slice(), b"10=0");
    Buffer::extend_from_slice(&mut buffer, b"93");
    assert_eq!(buffer.as_slice(), b"10=093");
}
