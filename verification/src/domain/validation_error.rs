//! Why a piece of subscriber data was turned down.

use vstd::prelude::*;

verus! {

/// The reason for which a raw name or address was rejected.
#[derive(Debug, Clone, Copy, PartialEq, Eq, Structural)]
pub enum ValidationError {
    /// The name is empty or holds white space only.
    EmptyOrWhitespace,
    /// The name is longer than 256 grapheme clusters.
    TooLong,
    /// The name holds one of the characters `/ ( ) " < > { } \`.
    ForbiddenCharacter,
    /// The address is not a syntactically valid e-mail address.
    MalformedEmail,
}

impl ValidationError {
    /// The stable reason code of this error, as text.
    pub open spec fn code_text(self) -> Seq<char> {
        match self {
            ValidationError::EmptyOrWhitespace => "empty"@,
            ValidationError::TooLong => "too-long"@,
            ValidationError::ForbiddenCharacter => "forbidden-character"@,
            ValidationError::MalformedEmail => "malformed-email"@,
        }
    }

    /// The stable reason code of this error.
    pub fn code(&self) -> (r: &'static str)
        ensures
            r@ == self.code_text(),
    {
        match self {
            ValidationError::EmptyOrWhitespace => "empty",
            ValidationError::TooLong => "too-long",
            ValidationError::ForbiddenCharacter => "forbidden-character",
            ValidationError::MalformedEmail => "malformed-email",
        }
    }
}

} // verus!
