//! The e-mail address of a subscriber.

use super::validation_error::ValidationError;
use validator::validate_email;
use vstd::prelude::*;

verus! {

/// Whether `validator::validate_email` accepts `s`: the address grammar of
/// the HTML5 specification, with the length limits of RFC 5321 on both parts
/// and with internationalised domain names.
pub uninterp spec fn email_grammar_accepts(s: Seq<char>) -> bool;

/// Whether two `@` stand side by side somewhere in `s`.
pub open spec fn has_double_at(s: Seq<char>) -> bool {
    exists|i: int| 0 <= i && i + 1 < s.len() && s[i] == '@' && #[trigger] s[i + 1] == '@'
}

/// Whether no `@` stands after the place `k` of `s`.
pub open spec fn no_at_after(s: Seq<char>, k: int) -> bool {
    forall|j: int| k < j < s.len() ==> #[trigger] s[j] != '@'
}

/// Whether the domain of `s`, the text after its last `@`, holds a `.`:
/// some `.` of `s` has no `@` after it.
pub open spec fn domain_has_dot(s: Seq<char>) -> bool {
    exists|k: int| 0 <= k < s.len() && #[trigger] s[k] == '.' && no_at_after(s, k)
}

/// Whether `s` is laid out as an address: it holds an `@`; neither its
/// first nor its last character is one, so that a local part stands before
/// the `@` and a domain after it; no two `@` are neighbours; and the domain
/// holds a `.`.
pub open spec fn has_address_shape(s: Seq<char>) -> bool {
    &&& s.contains('@')
    &&& s.first() != '@'
    &&& s.last() != '@'
    &&& !has_double_at(s)
    &&& domain_has_dot(s)
}

/// Whether `s` may be the address of a subscriber: it is laid out as an
/// address and the address grammar accepts it.
pub open spec fn is_valid_email(s: Seq<char>) -> bool {
    has_address_shape(s) && email_grammar_accepts(s)
}

/// The verdict on the address `s`, given whether the validator accepted it.
pub open spec fn email_verdict(s: Seq<char>, accepted: bool) -> Result<(), ValidationError> {
    if accepted && has_address_shape(s) {
        Ok(())
    } else {
        Err(ValidationError::MalformedEmail)
    }
}

/// The verdict on an address `s`.
pub open spec fn email_check(s: Seq<char>) -> Result<(), ValidationError> {
    email_verdict(s, email_grammar_accepts(s))
}

/// Asks `validator::validate_email` whether `s` is an address. The function
/// turns down every text without an `@`. It splits the others at the last
/// `@`, and the part before it must match a pattern of one character or more
/// whose class has no `@`. So what it accepts holds an `@`, does not begin
/// with one, and has no two of them side by side.
#[verifier::external_body]
fn email_accepted(s: &str) -> (ok: bool)
    ensures
        ok == email_grammar_accepts(s@),
        ok ==> s@.contains('@'),
        ok ==> s@.first() != '@',
        ok ==> !has_double_at(s@),
{
    validate_email(s)
}

/// One more character at the end of `p` begins the domain anew if it is an
/// `@`, puts a `.` into it if it is one, and leaves it as it was otherwise.
proof fn lemma_domain_dot_grows(p: Seq<char>, c: char)
    ensures
        domain_has_dot(p.push(c)) == (c != '@' && (c == '.' || domain_has_dot(p))),
{
    let q = p.push(c);
    let n = p.len() as int;
    assert(q[n] == c);
    if c == '@' {
        assert forall|k: int| 0 <= k < q.len() && q[k] == '.' implies !no_at_after(q, k) by {
            assert(q[n] == '@');
        }
    } else if c == '.' {
        assert(no_at_after(q, n));
    } else if domain_has_dot(p) {
        let k = choose|k: int| 0 <= k < p.len() && #[trigger] p[k] == '.' && no_at_after(p, k);
        assert(q[k] == '.');
        assert forall|j: int| k < j < q.len() implies #[trigger] q[j] != '@' by {
            if j < n {
                assert(q[j] == p[j]);
            }
        }
        assert(no_at_after(q, k));
    } else if domain_has_dot(q) {
        let k = choose|k: int| 0 <= k < q.len() && #[trigger] q[k] == '.' && no_at_after(q, k);
        assert(k < n);
        assert(p[k] == '.');
        assert forall|j: int| k < j < p.len() implies #[trigger] p[j] != '@' by {
            assert(q[j] == p[j]);
        }
        assert(no_at_after(p, k));
    }
}

/// One more character at the end of `p` makes a pair of `@` exactly when it
/// is an `@` that follows one.
proof fn lemma_double_at_grows(p: Seq<char>, c: char)
    ensures
        has_double_at(p.push(c)) == (has_double_at(p) || (p.len() > 0 && p.last() == '@' && c
            == '@')),
{
    let q = p.push(c);
    let n = p.len() as int;
    assert(q[n] == c);
    if has_double_at(p) {
        let i = choose|i: int| 0 <= i && i + 1 < p.len() && p[i] == '@' && #[trigger] p[i + 1] == '@';
        assert(q[i] == '@' && q[i + 1] == '@');
    } else if p.len() > 0 && p.last() == '@' && c == '@' {
        assert(q[n - 1] == '@' && q[(n - 1) + 1] == '@');
    } else if has_double_at(q) {
        let i = choose|i: int| 0 <= i && i + 1 < q.len() && q[i] == '@' && #[trigger] q[i + 1] == '@';
        if i + 1 < n {
            assert(p[i] == '@' && p[i + 1] == '@');
        } else {
            assert(q[i] == p[i]);
        }
    }
}

/// Tells whether `s` is laid out as an address.
pub fn address_shape(s: &str) -> (r: bool)
    ensures
        r == has_address_shape(s@),
{
    let mut seen_at: bool = false;
    let mut first_is_at: bool = false;
    let mut last_is_at: bool = false;
    let mut double_at: bool = false;
    let mut dot_in_domain: bool = false;
    let mut empty: bool = true;
    for c in it: s.chars()
        invariant
            it.seq() == s@,
            empty == (it.index() == 0),
            seen_at == s@.take(it.index()).contains('@'),
            first_is_at == (it.index() > 0 && s@[0] == '@'),
            last_is_at == (it.index() > 0 && s@[it.index() - 1] == '@'),
            double_at == has_double_at(s@.take(it.index())),
            dot_in_domain == domain_has_dot(s@.take(it.index())),
    {
        let ghost p = s@.take(it.index());
        proof {
            assert(s@.take(it.index() + 1) == p.push(c));
            lemma_domain_dot_grows(p, c);
            lemma_double_at_grows(p, c);
            assert(p.push(c)[p.len() as int] == c);
            if p.contains('@') {
                let i = choose|i: int| 0 <= i < p.len() && p[i] == '@';
                assert(p.push(c)[i] == '@');
            }
            if p.push(c).contains('@') && c != '@' {
                let i = choose|i: int| 0 <= i < p.push(c).len() && p.push(c)[i] == '@';
                assert(p[i] == '@');
            }
        }
        let is_at = c == '@';
        if empty {
            first_is_at = is_at;
        }
        double_at = double_at || (last_is_at && is_at);
        dot_in_domain = !is_at && (c == '.' || dot_in_domain);
        seen_at = seen_at || is_at;
        last_is_at = is_at;
        empty = false;
    }
    assert(s@.take(s@.len() as int) == s@);
    seen_at && !first_is_at && !last_is_at && !double_at && dot_in_domain
}

/// A subscriber's address: a text that is laid out as an address and that
/// the address grammar accepts.
#[derive(Debug)]
pub struct SubscriberEmail(String);

impl View for SubscriberEmail {
    type V = Seq<char>;

    closed spec fn view(&self) -> Seq<char> {
        self.0@
    }
}

impl SubscriberEmail {
    #[verifier::type_invariant]
    spec fn well_formed(self) -> bool {
        is_valid_email(self.0@)
    }

    /// Judges `email`, given the validator's answer on it: the text must be
    /// accepted and be laid out as an address, with a `.` in its domain.
    pub fn check(email: &str, accepted: bool) -> (r: Result<(), ValidationError>)
        ensures
            r == email_verdict(email@, accepted),
    {
        let shaped = address_shape(email);
        if accepted && shaped {
            Ok(())
        } else {
            Err(ValidationError::MalformedEmail)
        }
    }

    /// Validates `email` and keeps it when it is an address: when the
    /// validator accepts it and its domain holds a `.`. Nothing is looked
    /// up: the test is one of syntax.
    pub fn parse(email: String) -> (r: Result<SubscriberEmail, ValidationError>)
        ensures
            match r {
                Ok(parsed) => parsed@ == email@ && is_valid_email(email@),
                Err(e) => e == ValidationError::MalformedEmail && !is_valid_email(email@),
            },
            r is Ok <==> email_grammar_accepts(email@) && domain_has_dot(email@),
    {
        let accepted = email_accepted(email.as_str());
        match Self::check(email.as_str(), accepted) {
            Ok(()) => Ok(SubscriberEmail(email)),
            Err(e) => Err(e),
        }
    }
}

impl AsRef<str> for SubscriberEmail {
    /// The address as text.
    fn as_ref(&self) -> (s: &str)
        ensures
            s@ == self@,
            is_valid_email(s@),
    {
        proof {
            use_type_invariant(self);
        }
        self.0.as_str()
    }
}

impl Clone for SubscriberEmail {
    fn clone(&self) -> (r: Self)
        ensures
            r@ == self@,
    {
        proof {
            use_type_invariant(self);
        }
        SubscriberEmail(self.0.clone())
    }
}

/// The empty text is no address.
pub proof fn law_empty_email_rejected()
    ensures
        email_check(Seq::<char>::empty()) is Err,
{
}

/// A text without an `@` is no address.
pub proof fn law_email_without_at_rejected(s: Seq<char>)
    requires
        !s.contains('@'),
    ensures
        email_check(s) is Err,
{
}

/// A text whose local part is empty, that is one that begins with `@`, is no
/// address.
pub proof fn law_email_without_local_part_rejected(s: Seq<char>)
    requires
        s.len() > 0,
        s[0] == '@',
    ensures
        email_check(s) is Err,
{
}

/// A text whose domain is empty, that is one that ends with `@`, is no
/// address.
pub proof fn law_email_without_domain_rejected(s: Seq<char>)
    requires
        s.len() > 0,
        s.last() == '@',
    ensures
        email_check(s) is Err,
{
}

/// A text in which two `@` are neighbours is no address.
pub proof fn law_email_with_double_at_rejected(s: Seq<char>, i: int)
    requires
        0 <= i,
        i + 1 < s.len(),
        s[i] == '@',
        s[i + 1] == '@',
    ensures
        email_check(s) is Err,
{
}

/// A text whose domain holds no `.` is no address, whatever the validator
/// says of it.
pub proof fn law_email_without_dot_in_domain_rejected(s: Seq<char>)
    requires
        !domain_has_dot(s),
    ensures
        email_check(s) is Err,
{
}

/// In a text that holds an `@`, the `.` that [`domain_has_dot`] asks for
/// stands after the last `@`.
pub proof fn law_domain_dot_follows_last_at(s: Seq<char>, at: int)
    requires
        0 <= at < s.len(),
        s[at] == '@',
        no_at_after(s, at),
    ensures
        domain_has_dot(s) <==> exists|k: int| at < k < s.len() && #[trigger] s[k] == '.',
{
    if domain_has_dot(s) {
        let k = choose|k: int| 0 <= k < s.len() && #[trigger] s[k] == '.' && no_at_after(s, k);
        assert(at < k) by {
            if k < at {
                assert(s[at] != '@');
            }
        }
    }
    if exists|k: int| at < k < s.len() && #[trigger] s[k] == '.' {
        let k = choose|k: int| at < k < s.len() && #[trigger] s[k] == '.';
        assert(no_at_after(s, k));
    }
}

} // verus!
