//! The names that most callers need, in one place.

pub use crate::errors::LevelSpecterError;
pub use crate::levelparser::{levelspec_parser, levelspec_parser_with_mode};
pub use crate::levelspec::{LevelName, LevelSpec};
pub use crate::leveltype::LevelType;
pub use crate::lexical::CaseMode;
pub use std::str::FromStr;
