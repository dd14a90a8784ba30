//! The entity model: construction invariants, row round trips and the
//! tag-reference integrity check.

use plannrs_core::colour::Colour;
use plannrs_core::entity::{
    has_tag_id, plan_tag_valid, tags_have_unique_ids, EntityError, Plan, Tag,
    MAX_ADVANCE_SECONDS,
};
use plannrs_core::row::{decode_plan, decode_tag, encode_plan, encode_tag, RowError};

const WHITE: Colour = Colour { code: 7 };
const BLACK: Colour = Colour { code: 0 };

fn maths_tag() -> Tag {
    Tag::new(0, String::from("Maths"), None, Some(WHITE), BLACK).unwrap()
}

#[test]
fn tag_construction_keeps_fields() {
    let tag = maths_tag();
    assert_eq!(tag.id, 0);
    assert_eq!(tag.name, "Maths");
    assert_eq!(tag.border, None);
    assert_eq!(tag.fill, Some(WHITE));
    assert_eq!(tag.color, BLACK);
}

#[test]
fn tag_rejects_empty_name() {
    let r = Tag::new(3, String::new(), None, None, BLACK);
    assert_eq!(r, Err(EntityError::EmptyName));
}

#[test]
fn tag_row_round_trip_reports_border_absent() {
    let tag = maths_tag();
    let row = encode_tag(tag.clone());
    let reloaded = decode_tag(row).unwrap();
    assert_eq!(reloaded, tag);
    assert_eq!(reloaded.border, None);
    assert_eq!(reloaded.fill, Some(WHITE));
}

#[test]
fn tag_row_rejects_bad_colour_code() {
    let mut row = encode_tag(maths_tag());
    row.border = 300;
    assert_eq!(decode_tag(row), Err(RowError::BadColourCode));
}

#[test]
fn tag_row_rejects_empty_name() {
    let mut row = encode_tag(maths_tag());
    row.name = String::new();
    assert_eq!(decode_tag(row), Err(RowError::EmptyName));
}

#[test]
fn plan_rejects_end_before_start() {
    let r = Plan::new(1, String::from("revise"), 100, 50, None, None, true, false);
    assert_eq!(r, Err(EntityError::EndNotAfterStart));
}

#[test]
fn plan_rejects_end_equal_to_start() {
    let r = Plan::new(1, String::from("revise"), 100, 100, None, None, true, false);
    assert_eq!(r, Err(EntityError::EndNotAfterStart));
}

#[test]
fn plan_rejects_oversized_advance() {
    let r = Plan::new(
        1,
        String::from("revise"),
        100,
        200,
        Some(MAX_ADVANCE_SECONDS + 1),
        None,
        true,
        false,
    );
    assert_eq!(r, Err(EntityError::AdvanceTooLarge));
}

#[test]
fn plan_starts_out_not_done() {
    let p = Plan::new(1, String::from("revise"), 100, 200, Some(600), Some(0), true, true).unwrap();
    assert!(!p.done);
    assert_eq!(p.advance, Some(600));
    assert_eq!(p.tag, Some(0));
    assert!(p.notify);
    assert!(p.porsmo);
}

#[test]
fn plan_row_round_trip_keeps_every_field() {
    let p = Plan::new(9, String::from("mock exam"), 1000, 4600, Some(300), Some(2), true, true)
        .unwrap();
    let row = encode_plan(p.clone(), String::from("exam"));
    assert_eq!(row.name, "exam");
    let reloaded = decode_plan(row).unwrap();
    assert_eq!(reloaded, p);
}

#[test]
fn plan_row_advance_absent_reloads_as_absent() {
    let p = Plan::new(9, String::from("mock exam"), 1000, 4600, None, None, false, false).unwrap();
    let row = encode_plan(p.clone(), String::new());
    assert_eq!(row.advance, -1);
    let reloaded = decode_plan(row).unwrap();
    assert_eq!(reloaded.advance, None);
    assert_ne!(reloaded.advance, Some(0));
}

#[test]
fn plan_row_rejects_bad_codes() {
    let p = Plan::new(9, String::from("mock exam"), 1000, 4600, None, None, false, false).unwrap();
    let mut row = encode_plan(p.clone(), String::new());
    row.advance = -2;
    assert_eq!(decode_plan(row), Err(RowError::BadAdvanceCode));
    let mut row = encode_plan(p.clone(), String::new());
    row.tag = 999;
    assert_eq!(decode_plan(row), Err(RowError::BadTagCode));
    let mut row = encode_plan(p, String::new());
    row.until = row.start;
    assert_eq!(decode_plan(row), Err(RowError::EndNotAfterStart));
}

#[test]
fn notification_is_due_advance_seconds_before_start() {
    let p = Plan::new(1, String::from("revise"), 1_000, 2_000, Some(600), None, true, false)
        .unwrap();
    assert_eq!(p.notify_due_at(), Some(400));
    let p = Plan::new(1, String::from("revise"), 1_000, 2_000, None, None, true, false).unwrap();
    assert_eq!(p.notify_due_at(), Some(1_000));
    let p = Plan::new(1, String::from("revise"), i64::MIN + 10, i64::MIN + 20, Some(11), None,
        true, false)
    .unwrap();
    assert_eq!(p.notify_due_at(), None);
}

#[test]
fn plan_referencing_unknown_tag_is_detected() {
    let tags = vec![maths_tag()];
    let good = Plan::new(1, String::from("revise"), 100, 200, None, Some(0), false, false).unwrap();
    let bad = Plan::new(2, String::from("revise"), 100, 200, None, Some(5), false, false).unwrap();
    let untagged = Plan::new(3, String::from("revise"), 100, 200, None, None, false, false).unwrap();
    assert!(plan_tag_valid(&good, &tags));
    assert!(!plan_tag_valid(&bad, &tags));
    assert!(plan_tag_valid(&untagged, &tags));
    assert!(has_tag_id(&tags, 0));
    assert!(!has_tag_id(&tags, 5));
}

#[test]
fn duplicate_tag_ids_are_detected() {
    let a = Tag::new(1, String::from("Maths"), None, None, BLACK).unwrap();
    let b = Tag::new(2, String::from("Chores"), None, None, WHITE).unwrap();
    let c = Tag::new(1, String::from("Music"), None, None, WHITE).unwrap();
    assert!(tags_have_unique_ids(&vec![a.clone(), b.clone()]));
    assert!(!tags_have_unique_ids(&vec![a, b, c]));
    assert!(tags_have_unique_ids(&vec![]));
}
