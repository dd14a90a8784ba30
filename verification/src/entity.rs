//! The entity model: the canonical shape and invariants of `Tag` and
//! `Plan`, independent of any storage engine.
//!
//! A `Tag` is a named category used to colour-code plans; a `Plan` is one
//! scheduled session or task. Timestamps are absolute points in time,
//! counted in seconds since a fixed epoch, UTC-normalized; the wall-clock
//! rendering is reconstructed by the caller from the system's current
//! zone, so a zone change between creation and due time shifts what a
//! reader displays — intended behaviour that a notification consumer must
//! allow for.

use vstd::prelude::*;
use crate::colour::Colour;

verus! {

/// Upper bound on the advance-notice duration, in seconds: the largest
/// count that the signed persisted representation can carry.
pub const MAX_ADVANCE_SECONDS: u64 = 0x7fff_ffff_ffff_ffff;

/// Why constructing an entity was refused.
#[derive(Clone, Copy, PartialEq, Eq, Structural, Debug)]
pub enum EntityError {
    /// A tag's name must be non-empty.
    EmptyName,
    /// A plan must end strictly after it starts.
    EndNotAfterStart,
    /// An advance-notice duration must fit the persisted representation.
    AdvanceTooLarge,
}

/// A named category used to group plans, rendered in its own colours.
/// At most 256 distinct tags exist system-wide, so the identifier is a
/// single byte by design.
#[derive(Clone, PartialEq, Debug)]
pub struct Tag {
    /// Unique, stable identifier of the tag.
    pub id: u8,
    /// Human-readable label; never empty in a valid tag.
    pub name: String,
    /// Colour of the tag's block outline; absent means "use default".
    pub border: Option<Colour>,
    /// Colour of the tag's block fill; absent means "use default".
    pub fill: Option<Colour>,
    /// Colour of the tag's foreground text; always present.
    pub color: Colour,
}

/// True of an advance-notice setting whose duration, if any, fits the
/// persisted representation.
pub open spec fn advance_valid(a: Option<u64>) -> bool {
    a matches Some(s) ==> s <= MAX_ADVANCE_SECONDS
}

impl Tag {
    /// A tag is valid when its name is non-empty.
    pub open spec fn valid(self) -> bool {
        self.name@.len() > 0
    }

    /// Builds a tag, rejecting an empty name; every other combination of
    /// fields is accepted and returned unchanged.
    pub fn new(
        id: u8,
        name: String,
        border: Option<Colour>,
        fill: Option<Colour>,
        color: Colour,
    ) -> (r: Result<Tag, EntityError>)
        ensures
            name@.len() == 0 ==> r == Err::<Tag, EntityError>(EntityError::EmptyName),
            name@.len() > 0 ==> (r matches Ok(t)
                && t == (Tag { id, name, border, fill, color })
                && t.valid()),
    {
        if name.as_str().is_empty() {
            Err(EntityError::EmptyName)
        } else {
            Ok(Tag { id, name, border, fill, color })
        }
    }
}

/// One scheduled study session or task.
#[derive(Clone, PartialEq, Debug)]
pub struct Plan {
    /// Unique primary identifier of the plan.
    pub id: u8,
    /// Free-text description; no maximum is enforced at this layer.
    pub description: String,
    /// When the session starts: seconds since the epoch, UTC-normalized.
    pub start: i64,
    /// When the session ends; strictly after `start` in a valid plan.
    pub until: i64,
    /// How many seconds before `start` a notification should fire;
    /// absent means no advance notice is configured. Zero is a real
    /// duration, distinct from absent.
    pub advance: Option<u64>,
    /// Whether the task has been completed; false on creation.
    pub done: bool,
    /// The identifier of the tag this plan belongs to, if any; the plan
    /// references the tag by identity and does not own it.
    pub tag: Option<u8>,
    /// Whether a desktop notification should be raised for this plan.
    pub notify: bool,
    /// Reserved flag for a future external timer integration; inert, but
    /// it must round-trip through storage unchanged.
    pub porsmo: bool,
}

impl Plan {
    /// A plan is valid when it ends strictly after it starts and its
    /// advance notice, if any, fits the persisted representation.
    pub open spec fn valid(self) -> bool {
        &&& self.until > self.start
        &&& advance_valid(self.advance)
    }

    /// The moment the plan's notification is due: `advance` seconds
    /// before its start, or at its start when no advance notice is
    /// configured.
    pub open spec fn spec_notify_due_at(self) -> int {
        match self.advance {
            Some(s) => self.start - s,
            None => self.start as int,
        }
    }

    /// Computes when this plan's notification is due, as seconds since
    /// the epoch; `None` only where the lead time reaches back past the
    /// representable range of timestamps.
    pub fn notify_due_at(&self) -> (r: Option<i64>)
        ensures
            r matches Some(t) ==> t == self.spec_notify_due_at(),
            r is None <==> self.spec_notify_due_at() < i64::MIN,
    {
        match self.advance {
            Some(s) => {
                let due: i128 = (self.start as i128) - (s as i128);
                if due >= (i64::MIN as i128) {
                    Some(due as i64)
                } else {
                    None
                }
            },
            None => Some(self.start),
        }
    }

    /// Builds a plan, rejecting one whose end does not lie strictly after
    /// its start, and one whose advance notice cannot be persisted. The
    /// completion flag starts out false.
    pub fn new(
        id: u8,
        description: String,
        start: i64,
        until: i64,
        advance: Option<u64>,
        tag: Option<u8>,
        notify: bool,
        porsmo: bool,
    ) -> (r: Result<Plan, EntityError>)
        ensures
            until <= start ==> r == Err::<Plan, EntityError>(EntityError::EndNotAfterStart),
            until > start && !advance_valid(advance) ==> r == Err::<Plan, EntityError>(
                EntityError::AdvanceTooLarge,
            ),
            until > start && advance_valid(advance) ==> (r matches Ok(p)
                && p == (Plan { id, description, start, until, advance, done: false, tag, notify, porsmo })
                && p.valid()),
    {
        if until <= start {
            Err(EntityError::EndNotAfterStart)
        } else {
            let advance_ok: bool = match advance {
                Some(s) => s <= MAX_ADVANCE_SECONDS,
                None => true,
            };
            if !advance_ok {
                Err(EntityError::AdvanceTooLarge)
            } else {
                Ok(Plan { id, description, start, until, advance, done: false, tag, notify, porsmo })
            }
        }
    }
}

/// True when some tag of `tags` carries the identifier `id`.
pub open spec fn spec_has_tag_id(tags: Seq<Tag>, id: u8) -> bool {
    exists|i: int| 0 <= i < tags.len() && tags[i].id == id
}

/// Looks for a tag with the given identifier.
pub fn has_tag_id(tags: &Vec<Tag>, id: u8) -> (r: bool)
    ensures
        r == spec_has_tag_id(tags@, id),
{
    let mut i: usize = 0;
    while i < tags.len()
        invariant
            0 <= i <= tags@.len(),
            forall|j: int| 0 <= j < i ==> tags@[j].id != id,
        decreases tags@.len() - i,
    {
        if tags[i].id == id {
            return true;
        }
        i = i + 1;
    }
    false
}

/// True when the plan either carries no tag reference, or references a
/// tag that is present in `tags`.
pub open spec fn spec_plan_tag_valid(p: Plan, tags: Seq<Tag>) -> bool {
    p.tag matches Some(id) ==> spec_has_tag_id(tags, id)
}

/// Decides whether the plan's tag reference, if any, names a tag that
/// actually exists: no plan may silently reference a tag that was never
/// created.
pub fn plan_tag_valid(p: &Plan, tags: &Vec<Tag>) -> (r: bool)
    ensures
        r == spec_plan_tag_valid(*p, tags@),
{
    match p.tag {
        Some(id) => has_tag_id(tags, id),
        None => true,
    }
}

/// True when no two tags of the sequence share an identifier.
pub open spec fn spec_unique_tag_ids(tags: Seq<Tag>) -> bool {
    forall|i: int, j: int| 0 <= i < j < tags.len() ==> tags[i].id != tags[j].id
}

/// Decides whether every tag identifier occurs at most once: the
/// identifier of a tag must determine the tag.
pub fn tags_have_unique_ids(tags: &Vec<Tag>) -> (r: bool)
    ensures
        r == spec_unique_tag_ids(tags@),
{
    let mut i: usize = 0;
    while i < tags.len()
        invariant
            0 <= i <= tags@.len(),
            forall|a: int, b: int| 0 <= a < b < tags@.len() && b < i ==> tags@[a].id != tags@[b].id,
        decreases tags@.len() - i,
    {
        let mut j: usize = 0;
        while j < i
            invariant
                0 <= j <= i < tags@.len(),
                forall|a: int, b: int| 0 <= a < b < tags@.len() && b < i ==> tags@[a].id != tags@[b].id,
                forall|a: int| 0 <= a < j ==> tags@[a].id != tags@[i as int].id,
            decreases i - j,
        {
            if tags[j].id == tags[i].id {
                return false;
            }
            j = j + 1;
        }
        i = i + 1;
    }
    true
}

} // verus!
