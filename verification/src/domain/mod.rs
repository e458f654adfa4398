//! The validated value types that guard everything stored or mailed.

pub mod subscriber_email;
pub mod subscriber_name;
pub mod validation_error;

pub use subscriber_email::SubscriberEmail;
pub use subscriber_name::SubscriberName;
pub use validation_error::ValidationError;

use subscriber_email::{email_check, is_valid_email};
use subscriber_name::{is_valid_name, name_check};
use vstd::prelude::*;

verus! {

/// What a subscriber is made of, as plain text.
pub struct SubscriberView {
    pub name: Seq<char>,
    pub email: Seq<char>,
}

/// The verdict on a pair of raw name and address: the name is judged first,
/// so where both are invalid the error is the name's.
pub open spec fn subscriber_check(name: Seq<char>, email: Seq<char>) -> Result<
    (),
    ValidationError,
> {
    match name_check(name) {
        Err(e) => Err(e),
        Ok(_) => email_check(email),
    }
}

/// A subscriber: a valid name together with a valid address.
#[derive(Debug)]
pub struct Subscriber {
    name: SubscriberName,
    email: SubscriberEmail,
}

impl View for Subscriber {
    type V = SubscriberView;

    closed spec fn view(&self) -> SubscriberView {
        SubscriberView { name: self.name@, email: self.email@ }
    }
}

impl Subscriber {
    /// Validates both fields and builds the subscriber, or reports the first
    /// failure: the name's before the address's. Both texts are kept as given.
    pub fn new(name: String, email: String) -> (r: Result<Subscriber, ValidationError>)
        ensures
            match r {
                Ok(subscriber) => {
                    &&& subscriber@.name == name@
                    &&& subscriber@.email == email@
                    &&& subscriber_check(name@, email@) is Ok
                },
                Err(e) => subscriber_check(name@, email@) == Err::<(), ValidationError>(e),
            },
    {
        let name = match SubscriberName::parse(name) {
            Ok(name) => name,
            Err(e) => {
                return Err(e);
            },
        };
        let email = match SubscriberEmail::parse(email) {
            Ok(email) => email,
            Err(e) => {
                return Err(e);
            },
        };
        Ok(Subscriber { name, email })
    }

    /// The subscriber's name.
    pub fn name(&self) -> (s: &str)
        ensures
            s@ == self@.name,
            is_valid_name(s@),
    {
        self.name.as_ref()
    }

    /// The subscriber's address.
    pub fn email(&self) -> (s: &str)
        ensures
            s@ == self@.email,
            is_valid_email(s@),
    {
        self.email.as_ref()
    }
}

/// A subscriber is built exactly from a valid name with a valid address.
pub proof fn law_subscriber_needs_both_valid(name: Seq<char>, email: Seq<char>)
    ensures
        subscriber_check(name, email) is Ok <==> is_valid_name(name) && is_valid_email(email),
{
}

} // verus!
