//! A JSON codec for a chat gateway's two tagged unions: UI components, told
//! apart by a numeric `type` member, and gateway events, told apart by a
//! string `t` member with their payload in `d`.
use vstd::prelude::*;

pub mod component;
pub mod component_codec;
pub mod component_spec;
pub mod component_type;
pub mod event;
pub mod event_kind;
pub mod json;
pub mod round_trip;

verus! {

} // verus!
