use students_api::error::ApiError;
use students_api::student_id::StudentId;

const SAMPLE: &str = "53e37d08776f724e42000000";

const SAMPLE_BYTES: [u8; 12] =
    [0x53, 0xe3, 0x7d, 0x08, 0x77, 0x6f, 0x72, 0x4e, 0x42, 0x00, 0x00, 0x00];

#[test]
fn parse_str_reads_each_byte_high_digit_first() {
    let id = StudentId::parse_str(SAMPLE).unwrap();
    assert_eq!(id.bytes, SAMPLE_BYTES);
}

#[test]
fn parse_str_accepts_upper_case_digits() {
    let id = StudentId::parse_str("7FFFFFFF00000000ABCDEF09").unwrap();
    assert_eq!(
        id.bytes,
        [0x7f, 0xff, 0xff, 0xff, 0x00, 0x00, 0x00, 0x00, 0xab, 0xcd, 0xef, 0x09]
    );
}

#[test]
fn parse_str_accepts_mixed_case_digits() {
    let lower = StudentId::parse_str("abcdefabcdefabcdefabcdef").unwrap();
    let mixed = StudentId::parse_str("aBcDeFAbCdEfabcDEFABCdef").unwrap();
    assert_eq!(lower, mixed);
}

#[test]
fn parse_str_rejects_texts_of_other_lengths() {
    assert_eq!(StudentId::parse_str(""), Err(ApiError::BadRequest));
    assert_eq!(StudentId::parse_str("53e37d08776f724e4200000"), Err(ApiError::BadRequest));
    assert_eq!(StudentId::parse_str("53e37d08776f724e420000000"), Err(ApiError::BadRequest));
    assert_eq!(StudentId::parse_str("53e37d08776f724e4200"), Err(ApiError::BadRequest));
    assert_eq!(
        StudentId::parse_str("53e37d08776f724e4200000000"),
        Err(ApiError::BadRequest)
    );
}

#[test]
fn parse_str_rejects_digits_that_are_not_hexadecimal() {
    assert_eq!(StudentId::parse_str("53e37d08776f724e4200000g"), Err(ApiError::BadRequest));
    assert_eq!(StudentId::parse_str("g3e37d08776f724e42000000"), Err(ApiError::BadRequest));
    assert_eq!(StudentId::parse_str("53e37d08776f 24e42000000"), Err(ApiError::BadRequest));
    assert_eq!(StudentId::parse_str("not-a-valid-object-id-ok"), Err(ApiError::BadRequest));
}

#[test]
fn parse_str_rejects_text_that_is_not_ascii() {
    // Twenty-four characters, one of them outside ASCII.
    assert_eq!(StudentId::parse_str("53e37d08776f724e4200000é"), Err(ApiError::BadRequest));
    // Twenty-four bytes, fewer characters.
    assert_eq!(StudentId::parse_str("53e37d08776f724e420000é"), Err(ApiError::BadRequest));
}

#[test]
fn to_hex_writes_lower_case_digits() {
    let id = StudentId { bytes: SAMPLE_BYTES };
    assert_eq!(id.to_hex(), SAMPLE);
    let id = StudentId {
        bytes: [0xab, 0xcd, 0xef, 0x01, 0x23, 0x45, 0x67, 0x89, 0x0a, 0xf0, 0xff, 0x10],
    };
    assert_eq!(id.to_hex(), "abcdef01234567890af0ff10");
}

#[test]
fn to_hex_of_zero_and_of_all_ones() {
    assert_eq!(StudentId { bytes: [0; 12] }.to_hex(), "000000000000000000000000");
    assert_eq!(StudentId { bytes: [0xff; 12] }.to_hex(), "ffffffffffffffffffffffff");
}

#[test]
fn text_of_an_identifier_reads_back_as_the_identifier() {
    let ids = [
        StudentId { bytes: SAMPLE_BYTES },
        StudentId { bytes: [0; 12] },
        StudentId { bytes: [0xff; 12] },
        StudentId { bytes: [1, 2, 3, 4, 5, 6, 7, 8, 9, 10, 11, 12] },
        StudentId {
            bytes: [0x0f, 0xf0, 0x9a, 0xa9, 0x10, 0x01, 0x99, 0xaa, 0xbb, 0xcc, 0xdd, 0xee],
        },
    ];
    for id in ids {
        assert_eq!(StudentId::parse_str(&id.to_hex()), Ok(id));
    }
}

#[test]
fn upper_case_text_reads_back_in_lower_case() {
    let id = StudentId::parse_str("ABCDEFABCDEFABCDEFABCDEF").unwrap();
    assert_eq!(id.to_hex(), "abcdefabcdefabcdefabcdef");
}

#[test]
fn identifiers_agree_with_the_store_driver() {
    let oid = bson::oid::ObjectId::parse_str(SAMPLE).unwrap();
    let id = StudentId::parse_str(SAMPLE).unwrap();
    assert_eq!(id.bytes, oid.bytes());
    assert_eq!(id.to_hex(), oid.to_hex());
    assert_eq!(bson::oid::ObjectId::from_bytes(id.bytes), oid);
}
