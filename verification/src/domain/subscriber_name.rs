//! The display name of a subscriber.

use super::validation_error::ValidationError;
use crate::text::{blank, is_blank};
use unicode_segmentation::UnicodeSegmentation;
use vstd::prelude::*;

verus! {

/// The greatest number of grapheme clusters that a name may have.
pub const MAX_GRAPHEMES: usize = 256;

/// Whether `c` is one of the characters that no name may hold.
pub open spec fn is_forbidden(c: char) -> bool {
    c == '/' || c == '(' || c == ')' || c == '"' || c == '<' || c == '>' || c == '{' || c == '}'
        || c == '\\'
}

/// Whether some character of `s` is forbidden.
pub open spec fn has_forbidden(s: Seq<char>) -> bool {
    exists|i: int| 0 <= i < s.len() && is_forbidden(#[trigger] s[i])
}

/// The number of extended grapheme clusters of `s`, as
/// `unicode_segmentation` counts them.
pub uninterp spec fn grapheme_count(s: Seq<char>) -> nat;

/// The verdict on a name `s` that has `graphemes` grapheme clusters. Where
/// several rules are broken, blankness is reported before length, and length
/// before a forbidden character.
pub open spec fn name_verdict(s: Seq<char>, graphemes: nat) -> Result<(), ValidationError> {
    if is_blank(s) {
        Err(ValidationError::EmptyOrWhitespace)
    } else if graphemes > MAX_GRAPHEMES {
        Err(ValidationError::TooLong)
    } else if has_forbidden(s) {
        Err(ValidationError::ForbiddenCharacter)
    } else {
        Ok(())
    }
}

/// The verdict on a name `s`.
pub open spec fn name_check(s: Seq<char>) -> Result<(), ValidationError> {
    name_verdict(s, grapheme_count(s))
}

/// Whether `s` may be the name of a subscriber.
pub open spec fn is_valid_name(s: Seq<char>) -> bool {
    name_check(s) is Ok
}

/// Counts the extended grapheme clusters of `s` with
/// `UnicodeSegmentation::graphemes`. The count is a function of the text
/// alone; nothing more is claimed of it.
#[verifier::external_body]
fn count_graphemes(s: &str) -> (n: usize)
    ensures
        n == grapheme_count(s@),
{
    s.graphemes(true).count()
}

/// Tells whether `c` is a forbidden character.
pub fn forbidden(c: char) -> (r: bool)
    ensures
        r == is_forbidden(c),
{
    c == '/' || c == '(' || c == ')' || c == '"' || c == '<' || c == '>' || c == '{' || c == '}'
        || c == '\\'
}

/// Tells whether `s` holds a forbidden character.
pub fn contains_forbidden(s: &str) -> (r: bool)
    ensures
        r == has_forbidden(s@),
{
    let mut found: bool = false;
    for c in it: s.chars()
        invariant
            it.seq() == s@,
            found == (exists|i: int| 0 <= i < it.index() && is_forbidden(#[trigger] s@[i])),
    {
        found = found || forbidden(c);
    }
    found
}

/// A subscriber's name: not blank, at most 256 grapheme clusters long, and
/// free of forbidden characters.
#[derive(Debug)]
pub struct SubscriberName(String);

impl View for SubscriberName {
    type V = Seq<char>;

    closed spec fn view(&self) -> Seq<char> {
        self.0@
    }
}

impl SubscriberName {
    #[verifier::type_invariant]
    spec fn well_formed(self) -> bool {
        is_valid_name(self.0@)
    }

    /// Applies the three rules to `name`, given the number of its grapheme
    /// clusters. Every rule is tested, whatever the others say.
    pub fn check(name: &str, graphemes: usize) -> (r: Result<(), ValidationError>)
        ensures
            r == name_verdict(name@, graphemes as nat),
    {
        let is_empty_or_whitespace = blank(name);
        let is_too_long = graphemes > MAX_GRAPHEMES;
        let contains_forbidden_character = contains_forbidden(name);
        if is_empty_or_whitespace {
            Err(ValidationError::EmptyOrWhitespace)
        } else if is_too_long {
            Err(ValidationError::TooLong)
        } else if contains_forbidden_character {
            Err(ValidationError::ForbiddenCharacter)
        } else {
            Ok(())
        }
    }

    /// Validates `name` and keeps it, untrimmed, when it passes.
    pub fn parse(name: String) -> (r: Result<SubscriberName, ValidationError>)
        ensures
            match r {
                Ok(parsed) => parsed@ == name@ && name_check(name@) is Ok,
                Err(e) => name_check(name@) == Err::<(), ValidationError>(e),
            },
    {
        let graphemes = count_graphemes(name.as_str());
        match Self::check(name.as_str(), graphemes) {
            Ok(()) => Ok(SubscriberName(name)),
            Err(e) => Err(e),
        }
    }

    /// Gives up the name as an owned string.
    pub fn inner(self) -> (s: String)
        ensures
            s@ == self@,
            is_valid_name(s@),
    {
        proof {
            use_type_invariant(&self);
        }
        self.0
    }
}

impl AsRef<str> for SubscriberName {
    /// The name as text.
    fn as_ref(&self) -> (s: &str)
        ensures
            s@ == self@,
            is_valid_name(s@),
    {
        proof {
            use_type_invariant(self);
        }
        self.0.as_str()
    }
}

/// A name of exactly 256 grapheme clusters that is not blank and holds no
/// forbidden character is accepted.
pub proof fn law_name_of_greatest_length_accepted(s: Seq<char>)
    requires
        grapheme_count(s) == 256,
        !has_forbidden(s),
        !is_blank(s),
    ensures
        name_check(s) is Ok,
{
}

/// A name of 257 or more grapheme clusters is rejected, whatever it holds.
pub proof fn law_overlong_name_rejected(s: Seq<char>)
    requires
        grapheme_count(s) >= 257,
    ensures
        name_check(s) is Err,
{
}

/// An empty name, and one made of white space alone, is rejected as such.
pub proof fn law_blank_name_rejected(s: Seq<char>)
    requires
        s.len() == 0 || is_blank(s),
    ensures
        name_check(s) == Err::<(), ValidationError>(ValidationError::EmptyOrWhitespace),
{
}

/// A name that holds a forbidden character anywhere is rejected.
pub proof fn law_forbidden_character_rejected(s: Seq<char>, i: int)
    requires
        0 <= i < s.len(),
        is_forbidden(s[i]),
    ensures
        name_check(s) is Err,
{
}

/// The name made of one forbidden character is rejected.
pub proof fn law_single_forbidden_character_rejected(c: char)
    requires
        is_forbidden(c),
    ensures
        name_check(seq![c]) is Err,
{
    law_forbidden_character_rejected(seq![c], 0);
}

} // verus!
