//! The decisions of the subscription handler: whether a form is taken, and
//! what the client is told.

use crate::domain::{subscriber_check, Subscriber, SubscriberView};
use vstd::prelude::*;

verus! {

/// The status for a subscription that was stored.
pub const STATUS_OK: u16 = 200;

/// The status for a form that does not hold a valid subscriber.
pub const STATUS_BAD_REQUEST: u16 = 400;

/// The status for a subscription that could not be stored.
pub const STATUS_INTERNAL_SERVER_ERROR: u16 = 500;

/// The fields of a subscription form, as submitted.
pub struct FormData {
    email: String,
    name: String,
}

impl View for FormData {
    type V = SubscriberView;

    closed spec fn view(&self) -> SubscriberView {
        SubscriberView { name: self.name@, email: self.email@ }
    }
}

impl FormData {
    /// The form that holds `name` and `email`.
    pub fn new(name: String, email: String) -> (form: FormData)
        ensures
            form@ == (SubscriberView { name: name@, email: email@ }),
    {
        FormData { email, name }
    }

    /// The name, as submitted.
    pub fn name(&self) -> (name: &str)
        ensures
            name@ == self@.name,
    {
        self.name.as_str()
    }

    /// The address, as submitted.
    pub fn email(&self) -> (email: &str)
        ensures
            email@ == self@.email,
    {
        self.email.as_str()
    }
}

/// What the handler does after it has read the form.
pub enum Next {
    /// Store this subscriber, then answer as [`stored`] says.
    Store(Subscriber),
    /// Answer with this status at once.
    Reply(u16),
}

/// Decides on a submitted form: a valid subscriber is to be stored, and
/// anything else is answered with 400.
pub fn subscribe(form: FormData) -> (next: Next)
    ensures
        match next {
            Next::Store(subscriber) => subscriber@ == form@ && subscriber_check(
                form@.name,
                form@.email,
            ) is Ok,
            Next::Reply(status) => status == STATUS_BAD_REQUEST && subscriber_check(
                form@.name,
                form@.email,
            ) is Err,
        },
{
    match Subscriber::new(form.name, form.email) {
        Ok(subscriber) => Next::Store(subscriber),
        Err(_) => Next::Reply(STATUS_BAD_REQUEST),
    }
}

/// The status that answers a valid form: 200 once the subscriber is saved,
/// and 500 if saving failed.
pub fn stored(saved: bool) -> (status: u16)
    ensures
        status == if saved {
            STATUS_OK
        } else {
            STATUS_INTERNAL_SERVER_ERROR
        },
{
    if saved {
        STATUS_OK
    } else {
        STATUS_INTERNAL_SERVER_ERROR
    }
}

} // verus!
