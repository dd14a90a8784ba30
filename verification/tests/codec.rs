//! The persisted integer codecs: lossless round trips and the sentinels
//! that keep "absent" apart from every real value.

use plannrs_core::colour::{decode_colour, encode_colour, Colour, MAX_COLOUR_CODE, UNSET_COLOUR_CODE};
use plannrs_core::row::{
    decode_advance, decode_tag_ref, encode_advance, encode_tag_ref, ADVANCE_ABSENT_CODE,
    NO_TAG_CODE,
};

#[test]
fn colour_round_trip_every_code() {
    let mut code: u16 = 0;
    while code <= MAX_COLOUR_CODE {
        let c = Colour { code: code as u8 };
        let encoded = encode_colour(Some(c));
        assert_eq!(encoded, code);
        assert_eq!(decode_colour(encoded), Some(Some(c)));
        code += 1;
    }
}

#[test]
fn colour_unset_round_trip() {
    let encoded = encode_colour(None);
    assert_eq!(encoded, UNSET_COLOUR_CODE);
    assert_eq!(decode_colour(encoded), Some(None));
}

#[test]
fn colour_unset_never_collides() {
    for code in 0..=MAX_COLOUR_CODE {
        assert_ne!(encode_colour(Some(Colour { code: code as u8 })), UNSET_COLOUR_CODE);
    }
}

#[test]
fn colour_rejects_code_out_of_range() {
    assert_eq!(decode_colour(257), None);
    assert_eq!(decode_colour(u16::MAX), None);
}

#[test]
fn advance_absent_round_trip() {
    let encoded = encode_advance(None);
    assert_eq!(encoded, ADVANCE_ABSENT_CODE);
    assert_eq!(decode_advance(encoded), Some(None));
}

#[test]
fn advance_zero_is_distinct_from_absent() {
    let encoded = encode_advance(Some(0));
    assert_eq!(encoded, 0);
    assert_ne!(encoded, ADVANCE_ABSENT_CODE);
    assert_eq!(decode_advance(encoded), Some(Some(0)));
}

#[test]
fn advance_round_trip() {
    for seconds in [1u64, 60, 300, 3600, 86_400] {
        assert_eq!(decode_advance(encode_advance(Some(seconds))), Some(Some(seconds)));
    }
}

#[test]
fn advance_rejects_negative_non_sentinel() {
    assert_eq!(decode_advance(-2), None);
    assert_eq!(decode_advance(i64::MIN), None);
}

#[test]
fn tag_ref_round_trip() {
    for id in 0..=255u16 {
        let encoded = encode_tag_ref(Some(id as u8));
        assert_eq!(encoded, id);
        assert_eq!(decode_tag_ref(encoded), Some(Some(id as u8)));
    }
    assert_eq!(encode_tag_ref(None), NO_TAG_CODE);
    assert_eq!(decode_tag_ref(NO_TAG_CODE), Some(None));
    assert_eq!(decode_tag_ref(257), None);
}
