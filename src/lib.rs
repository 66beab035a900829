//! Companion id enums for tagged unions.
//!
//! Given a source enum (its name, visibility, attributes and cases) and the
//! directives attached to it, the library computes everything that is
//! generated for it: a payload-free companion enum with the same case names,
//! a getter that maps each source case to its companion case, and the
//! optional `Display` impls and case list that the directives ask for.
//!
//! - `attr`: the directive vocabulary and its keys.
//! - `context`: reading a directive list, and the policy it sets.
//! - `source`: the model of the source enum.
//! - `transform`: what is generated, as a whole.
//! - `naming`: snake case and comma-separated lists.
//! - `laws`: properties of the above, proved.
pub mod attr;
pub mod context;
pub mod laws;
pub mod naming;
pub mod source;
pub mod transform;

pub use attr::{Attr, DirectiveError, Expected};
pub use context::{parse_entry, Context, Entry};
pub use naming::{split_list, to_snake_case, trimmed};
pub use source::{Case, Shape, SourceAttr, SourceEnum, SourceView, Vis, VisView};
pub use transform::{enum_ids, Generated, GeneratedView};
