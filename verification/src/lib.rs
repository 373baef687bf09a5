//! A recognizer and data model for the three-tier `SHOW.SEQUENCE.SHOT`
//! naming notation.

pub mod casing;
pub mod errors;
pub mod grammar;
pub mod laws;
pub mod levelparser;
pub mod levelspec;
pub mod leveltype;
pub mod lexical;
pub mod prelude;

pub use errors::LevelSpecterError;
pub use levelparser::{levelspec_parser, levelspec_parser_with_mode};
pub use levelspec::{LevelName, LevelSpec};
pub use leveltype::LevelType;
pub use lexical::CaseMode;
