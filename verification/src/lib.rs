//! Persistence core of a study/task planner: the entity model for
//! colour-tagged, time-scheduled plans, the integer codecs under which
//! they are persisted, and the bootstrap protocol that brings up a
//! schema-initialized store handle on every start.

pub mod colour;
pub mod entity;
pub mod row;
pub mod schema;
pub mod bootstrap;
