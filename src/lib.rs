//! A globally comparable identity for fonts, derived from the OpenType `head` table.

pub mod flags;
pub mod id;
pub mod revision;
pub mod text;

pub use flags::{FontIdFlag, FontIdFlags};
pub use id::FontId;
pub use revision::FontRevision;
