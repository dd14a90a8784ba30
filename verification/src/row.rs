//! The persisted form of the entities: one flat row of plain integer,
//! boolean and text fields per entity, matching the relational schema
//! column for column, together with the lossless codecs between the two.
//!
//! Three optional fields need a sentinel so that "absent" never collapses
//! into a real value on read-back: optional colours persist as a code
//! outside the colour range, an absent advance notice persists as a
//! reserved negative count, and an absent tag reference persists as a
//! code outside the identifier range.

use vstd::prelude::*;
use crate::colour::Colour;
use crate::colour::spec_encode_colour;
use crate::colour::spec_decode_colour;
use crate::colour::encode_colour;
use crate::colour::decode_colour;
use crate::entity::Tag;
use crate::entity::Plan;
use crate::entity::advance_valid;

verus! {

/// Code under which an absent advance notice is persisted; a real
/// advance notice is never negative, so the two can never collapse.
pub const ADVANCE_ABSENT_CODE: i64 = -1;

/// Code under which an absent tag reference is persisted; it lies
/// outside the one-byte identifier range, so it never names a tag.
pub const NO_TAG_CODE: u16 = 256;

/// Why a persisted row was refused on read-back.
#[derive(Clone, Copy, PartialEq, Eq, Structural, Debug)]
pub enum RowError {
    /// A colour column held a code that names neither a colour nor the
    /// unset sentinel.
    BadColourCode,
    /// The advance column held a negative count other than the absent
    /// sentinel.
    BadAdvanceCode,
    /// The tag column held a code that names neither an identifier nor
    /// the no-tag sentinel.
    BadTagCode,
    /// The tag name column was empty.
    EmptyName,
    /// The row's end time did not lie strictly after its start time.
    EndNotAfterStart,
}

/// One row of the Tag structure, column for column.
#[derive(Clone, PartialEq, Debug)]
pub struct TagRow {
    /// The ID column.
    pub id: u8,
    /// The TagName column.
    pub name: String,
    /// The Border column: a colour code or the unset sentinel.
    pub border: u16,
    /// The Fill column: a colour code or the unset sentinel.
    pub fill: u16,
    /// The Color column: always a real colour code.
    pub color: u8,
}

/// One row of the Plan structure, column for column. The schema carries a
/// short PlanName label beside the description; the in-memory entity does
/// not model it, so the encoder takes it alongside the plan.
#[derive(Clone, PartialEq, Debug)]
pub struct PlanRow {
    /// The ID column.
    pub id: u8,
    /// The PlanName column.
    pub name: String,
    /// The Descr column.
    pub description: String,
    /// The StartTime column: seconds since the epoch.
    pub start: i64,
    /// The Until column: seconds since the epoch.
    pub until: i64,
    /// The Advance column: a count of seconds, or the absent sentinel.
    pub advance: i64,
    /// The Done column.
    pub done: bool,
    /// The TagID column: a tag identifier or the no-tag sentinel.
    pub tag: u16,
    /// The Notify column.
    pub notify: bool,
    /// The Porsmo column.
    pub porsmo: bool,
}

/// The count under which an advance-notice setting is persisted: the
/// duration itself, or the reserved negative sentinel when absent.
pub open spec fn spec_encode_advance(a: Option<u64>) -> i64
    recommends
        advance_valid(a),
{
    match a {
        Some(s) => s as i64,
        None => ADVANCE_ABSENT_CODE,
    }
}

/// The advance-notice setting a persisted count stands for; `None` when
/// the count is negative but not the absent sentinel.
pub open spec fn spec_decode_advance(code: i64) -> Option<Option<u64>> {
    if code >= 0 {
        Some(Some(code as u64))
    } else if code == ADVANCE_ABSENT_CODE {
        Some(None)
    } else {
        None
    }
}

/// Encodes an advance-notice setting for storage.
pub fn encode_advance(a: Option<u64>) -> (r: i64)
    requires
        advance_valid(a),
    ensures
        r == spec_encode_advance(a),
{
    match a {
        Some(s) => s as i64,
        None => ADVANCE_ABSENT_CODE,
    }
}

/// Reads an advance-notice setting back from its persisted count.
pub fn decode_advance(code: i64) -> (r: Option<Option<u64>>)
    ensures
        r == spec_decode_advance(code),
{
    if code >= 0 {
        Some(Some(code as u64))
    } else if code == ADVANCE_ABSENT_CODE {
        Some(None)
    } else {
        None
    }
}

/// Encoding then decoding an advance-notice setting reproduces it
/// exactly: in particular, an absent setting reads back as absent, never
/// as a zero duration.
pub proof fn lemma_advance_round_trip(a: Option<u64>)
    requires
        advance_valid(a),
    ensures
        spec_decode_advance(spec_encode_advance(a)) == Some(a),
{
}

/// Every count the advance column may hold decodes to a setting that is
/// itself valid and encodes back to the same count.
pub proof fn lemma_advance_code_round_trip(code: i64)
    requires
        code >= ADVANCE_ABSENT_CODE,
    ensures
        spec_decode_advance(code) matches Some(a) && advance_valid(a) && spec_encode_advance(a)
            == code,
{
}

/// The code under which a tag reference is persisted: the referenced
/// identifier, or the no-tag sentinel when absent.
pub open spec fn spec_encode_tag_ref(t: Option<u8>) -> u16 {
    match t {
        Some(id) => id as u16,
        None => NO_TAG_CODE,
    }
}

/// The tag reference a persisted code stands for; `None` when the code
/// names neither an identifier nor the no-tag sentinel.
pub open spec fn spec_decode_tag_ref(code: u16) -> Option<Option<u8>> {
    if code <= 255 {
        Some(Some(code as u8))
    } else if code == NO_TAG_CODE {
        Some(None)
    } else {
        None
    }
}

/// Encodes a tag reference for storage.
pub fn encode_tag_ref(t: Option<u8>) -> (r: u16)
    ensures
        r == spec_encode_tag_ref(t),
{
    match t {
        Some(id) => id as u16,
        None => NO_TAG_CODE,
    }
}

/// Reads a tag reference back from its persisted code.
pub fn decode_tag_ref(code: u16) -> (r: Option<Option<u8>>)
    ensures
        r == spec_decode_tag_ref(code),
{
    if code <= 255 {
        Some(Some(code as u8))
    } else if code == NO_TAG_CODE {
        Some(None)
    } else {
        None
    }
}

/// Encoding then decoding a tag reference reproduces it exactly.
pub proof fn lemma_tag_ref_round_trip(t: Option<u8>)
    ensures
        spec_decode_tag_ref(spec_encode_tag_ref(t)) == Some(t),
{
}

/// The row under which a tag is persisted.
pub open spec fn spec_encode_tag(t: Tag) -> TagRow {
    TagRow {
        id: t.id,
        name: t.name,
        border: spec_encode_colour(t.border),
        fill: spec_encode_colour(t.fill),
        color: t.color.code,
    }
}

/// The tag a persisted row stands for, or why the row was refused.
pub open spec fn spec_decode_tag(r: TagRow) -> Result<Tag, RowError> {
    match (spec_decode_colour(r.border), spec_decode_colour(r.fill)) {
        (Some(border), Some(fill)) => if r.name@.len() == 0 {
            Err(RowError::EmptyName)
        } else {
            Ok(Tag { id: r.id, name: r.name, border, fill, color: Colour { code: r.color } })
        },
        _ => Err(RowError::BadColourCode),
    }
}

/// Lays a tag out as the row under which it is persisted.
pub fn encode_tag(t: Tag) -> (r: TagRow)
    ensures
        r == spec_encode_tag(t),
{
    let border: u16 = encode_colour(t.border);
    let fill: u16 = encode_colour(t.fill);
    TagRow { id: t.id, name: t.name, border, fill, color: t.color.code }
}

/// Reads a tag back from a persisted row, refusing a row whose colour
/// columns hold no decodable code or whose name is empty; a tag read
/// back this way is always valid.
pub fn decode_tag(r: TagRow) -> (res: Result<Tag, RowError>)
    ensures
        res == spec_decode_tag(r),
        res matches Ok(t) ==> t.valid(),
{
    let border: Option<Option<Colour>> = decode_colour(r.border);
    let fill: Option<Option<Colour>> = decode_colour(r.fill);
    match (border, fill) {
        (Some(border), Some(fill)) => {
            if r.name.as_str().is_empty() {
                Err(RowError::EmptyName)
            } else {
                Ok(Tag { id: r.id, name: r.name, border, fill, color: Colour { code: r.color } })
            }
        },
        _ => Err(RowError::BadColourCode),
    }
}

/// A valid tag, persisted and reloaded, reads back with exactly its
/// original fields — the border, fill and colour columns included, and
/// an absent border or fill reported absent, not as some colour.
pub proof fn lemma_tag_round_trip(t: Tag)
    requires
        t.valid(),
    ensures
        spec_decode_tag(spec_encode_tag(t)) == Ok::<Tag, RowError>(t),
{
}

/// The row under which a plan is persisted, beside the given name label.
pub open spec fn spec_encode_plan(p: Plan, name: String) -> PlanRow
    recommends
        p.valid(),
{
    PlanRow {
        id: p.id,
        name: name,
        description: p.description,
        start: p.start,
        until: p.until,
        advance: spec_encode_advance(p.advance),
        done: p.done,
        tag: spec_encode_tag_ref(p.tag),
        notify: p.notify,
        porsmo: p.porsmo,
    }
}

/// The plan a persisted row stands for, or why the row was refused.
pub open spec fn spec_decode_plan(r: PlanRow) -> Result<Plan, RowError> {
    match (spec_decode_advance(r.advance), spec_decode_tag_ref(r.tag)) {
        (Some(advance), Some(tag)) => if r.until <= r.start {
            Err(RowError::EndNotAfterStart)
        } else {
            Ok(
                Plan {
                    id: r.id,
                    description: r.description,
                    start: r.start,
                    until: r.until,
                    advance,
                    done: r.done,
                    tag,
                    notify: r.notify,
                    porsmo: r.porsmo,
                },
            )
        },
        (None, _) => Err(RowError::BadAdvanceCode),
        (Some(_), None) => Err(RowError::BadTagCode),
    }
}

/// Lays a plan out as the row under which it is persisted, beside the
/// name label the schema carries for it.
pub fn encode_plan(p: Plan, name: String) -> (r: PlanRow)
    requires
        p.valid(),
    ensures
        r == spec_encode_plan(p, name),
{
    let advance: i64 = encode_advance(p.advance);
    let tag: u16 = encode_tag_ref(p.tag);
    PlanRow {
        id: p.id,
        name,
        description: p.description,
        start: p.start,
        until: p.until,
        advance,
        done: p.done,
        tag,
        notify: p.notify,
        porsmo: p.porsmo,
    }
}

/// Reads a plan back from a persisted row, refusing a row whose advance
/// or tag column holds no decodable code and one whose end does not lie
/// strictly after its start; a plan read back this way is always valid.
pub fn decode_plan(r: PlanRow) -> (res: Result<Plan, RowError>)
    ensures
        res == spec_decode_plan(r),
        res matches Ok(p) ==> p.valid(),
{
    let advance: Option<Option<u64>> = decode_advance(r.advance);
    let tag: Option<Option<u8>> = decode_tag_ref(r.tag);
    match (advance, tag) {
        (Some(advance), Some(tag)) => {
            if r.until <= r.start {
                Err(RowError::EndNotAfterStart)
            } else {
                Ok(
                    Plan {
                        id: r.id,
                        description: r.description,
                        start: r.start,
                        until: r.until,
                        advance,
                        done: r.done,
                        tag,
                        notify: r.notify,
                        porsmo: r.porsmo,
                    },
                )
            }
        },
        (None, _) => Err(RowError::BadAdvanceCode),
        (Some(_), None) => Err(RowError::BadTagCode),
    }
}

/// A valid plan, persisted and reloaded, reads back with exactly its
/// original fields: an absent advance notice reads back as absent rather
/// than as a zero duration, an absent tag reference as absent, and the
/// reserved porsmo flag unchanged.
pub proof fn lemma_plan_round_trip(p: Plan, name: String)
    requires
        p.valid(),
    ensures
        spec_decode_plan(spec_encode_plan(p, name)) == Ok::<Plan, RowError>(p),
{
}

} // verus!
