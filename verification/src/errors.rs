//! The error type shared by parsing and relative resolution.

use vstd::prelude::*;

verus! {

/// What can go wrong. Each failing operation reports one of these and
/// nothing else: no partial result comes with it.
#[derive(Debug, PartialEq, Eq, Clone)]
pub enum LevelSpecterError {
    Placeholder,
    /// The input matched no form of the notation in full.
    ParseError(String),
    /// A relative level could not be given a value.
    RelToAbsError(String),
}

/// An error in contracts: its kind and the characters of its message.
pub enum ErrorView {
    Placeholder,
    ParseError(Seq<char>),
    RelToAbsError(Seq<char>),
}

impl View for LevelSpecterError {
    type V = ErrorView;

    open spec fn view(&self) -> ErrorView {
        match self {
            LevelSpecterError::Placeholder => ErrorView::Placeholder,
            LevelSpecterError::ParseError(msg) => ErrorView::ParseError(msg@),
            LevelSpecterError::RelToAbsError(msg) => ErrorView::RelToAbsError(msg@),
        }
    }
}

impl LevelSpecterError {
    /// The message that the error carries, ready to print.
    pub fn message(&self) -> (r: String)
        ensures
            r@ == self@.message(),
    {
        match self {
            LevelSpecterError::Placeholder => {
                proof {
                    reveal_strlit("Placeholder error");
                }
                "Placeholder error".to_owned()
            },
            LevelSpecterError::ParseError(msg) => {
                proof {
                    reveal_strlit("Parse Error ");
                }
                "Parse Error ".to_owned().concat(msg.as_str())
            },
            LevelSpecterError::RelToAbsError(msg) => {
                proof {
                    reveal_strlit("RelToAbs Error: ");
                }
                "RelToAbs Error: ".to_owned().concat(msg.as_str())
            },
        }
    }
}

impl ErrorView {
    pub open spec fn message(self) -> Seq<char> {
        match self {
            ErrorView::Placeholder => "Placeholder error"@,
            ErrorView::ParseError(msg) => "Parse Error "@ + msg,
            ErrorView::RelToAbsError(msg) => "RelToAbs Error: "@ + msg,
        }
    }
}

} // verus!
