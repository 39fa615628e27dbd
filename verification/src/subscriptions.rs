//! The ingestion handler's decision logic: assembling a form from submitted
//! key–value pairs, converting it into a validated aggregate, and choosing
//! the HTTP outcome for each persistence result.

use vstd::prelude::*;
use vstd::pervasive::unreached;
use vstd::string::StringExecFns;
use crate::domain::{NewSubscriber, SubscriberEmail, SubscriberName, ValidationError};
use crate::domain::{valid_email, valid_name};
use crate::outcome::HttpOutcome;

verus! {

/// The two text fields of a subscription form submission, still
/// unvalidated.
#[derive(Debug)]
pub struct FormData {
    pub email: String,
    pub name: String,
}

impl FormData {
    /// Convert this raw submission into a validated aggregate. The name is
    /// checked first, then the email; the first failure aborts the whole
    /// conversion, so either both fields pass or no aggregate exists at
    /// all.
    pub fn try_into(self) -> (r: Result<NewSubscriber, ValidationError>)
        ensures
            r is Ok <==> valid_name(self.name@) && valid_email(self.email@),
            r matches Ok(ns) ==> ns.name@ == self.name@ && ns.email@ == self.email@,
            r matches Err(e) ==> e == (if !valid_name(self.name@) {
                ValidationError::InvalidName
            } else {
                ValidationError::InvalidEmail
            }),
{
    let FormData { email, name } = self;
    let name = match SubscriberName::parse(name) {
        Ok(n) => n,
        Err(e) => {
            return Err(e);
        },
    };
    let email = match SubscriberEmail::parse(email) {
        Ok(m) => m,
        Err(e) => {
            return Err(e);
        },
    };
    Ok(NewSubscriber { email, name })
}
}

/// Why a list of submitted key–value pairs could not be assembled into a
/// form.
#[derive(Clone, Copy, Debug, PartialEq, Eq, Structural)]
pub enum FormError {
    /// A required field occurs in no pair.
    MissingField,
    /// A required field occurs in more than one pair.
    DuplicateField,
}

/// How many pairs of `pairs` carry the key `key`.
pub open spec fn key_count(pairs: Seq<(String, String)>, key: Seq<char>) -> nat
    decreases pairs.len(),
{
    if pairs.len() == 0 {
        0
    } else {
        key_count(pairs.drop_last(), key) + (if pairs.last().0@ == key {
            1nat
        } else {
            0nat
        })
    }
}

/// Assemble a form from the decoded key–value pairs of a submission body.
/// Succeeds exactly when each required field (`name`, `email`) occurs in
/// exactly one pair; pairs with other keys are ignored. A duplicated
/// required field is reported as such; otherwise a missing one is.
pub fn form_from_pairs(pairs: &Vec<(String, String)>) -> (r: Result<FormData, FormError>)
    ensures
        r is Ok <==> key_count(pairs@, "name"@) == 1 && key_count(pairs@, "email"@) == 1,
        r matches Ok(f) ==> (exists|k: int|
            0 <= k < pairs@.len() && pairs@[k].0@ == "name"@ && f.name@ == pairs@[k].1@),
        r matches Ok(f) ==> (exists|k: int|
            0 <= k < pairs@.len() && pairs@[k].0@ == "email"@ && f.email@ == pairs@[k].1@),
        r matches Err(e) ==> (e == FormError::DuplicateField <==> (key_count(pairs@, "name"@) > 1
            || key_count(pairs@, "email"@) > 1)),
{
    let name_key = String::from_str("name");
    let email_key = String::from_str("email");
    let n: usize = pairs.len();
    let mut i: usize = 0;
    let mut name_count: usize = 0;
    let mut email_count: usize = 0;
    let mut name_val: Option<String> = None;
    let mut email_val: Option<String> = None;
    while i < n
        invariant
            i <= n,
            n == pairs@.len(),
            name_key@ == "name"@,
            email_key@ == "email"@,
            name_count == key_count(pairs@.take(i as int), "name"@),
            email_count == key_count(pairs@.take(i as int), "email"@),
            name_count <= i,
            email_count <= i,
            name_val is Some <==> name_count >= 1,
            email_val is Some <==> email_count >= 1,
            name_val matches Some(v) ==> (exists|k: int|
                0 <= k < i && pairs@[k].0@ == "name"@ && v@ == pairs@[k].1@),
            email_val matches Some(v) ==> (exists|k: int|
                0 <= k < i && pairs@[k].0@ == "email"@ && v@ == pairs@[k].1@),
        decreases n - i,
    {
        proof {
            assert(pairs@.take(i + 1).drop_last() =~= pairs@.take(i as int));
            assert(pairs@.take(i + 1).last() == pairs@[i as int]);
        }
        let p = &pairs[i];
        if p.0 == name_key {
            if name_count == 0 {
                name_val = Some(p.1.clone());
            }
            name_count = name_count + 1;
        }
        if p.0 == email_key {
            if email_count == 0 {
                email_val = Some(p.1.clone());
            }
            email_count = email_count + 1;
        }
        i = i + 1;
    }
    proof {
        assert(pairs@.take(n as int) =~= pairs@);
    }
    if name_count > 1 || email_count > 1 {
        Err(FormError::DuplicateField)
    } else if name_count == 0 || email_count == 0 {
        Err(FormError::MissingField)
    } else {
        match (name_val, email_val) {
            (Some(nv), Some(ev)) => Ok(FormData { email: ev, name: nv }),
            _ => unreached(),
        }
    }
}

/// A storage-layer failure as reported to the handler: carried for
/// diagnostics, never shown to the HTTP caller.
pub struct StorageError {
    pub detail: String,
}

/// What the handler decides to do with one submission.
pub enum SubscribeAction {
    /// Validation failed: answer with this client-error outcome and do not
    /// touch storage.
    Reject(HttpOutcome),
    /// Validation succeeded: persist exactly this aggregate, once.
    Persist(NewSubscriber),
}

/// The handler's first decision: convert the raw form and either hand the
/// validated aggregate on for one persistence attempt or reject with
/// `BadRequest`, in which case storage is never touched.
pub fn subscribe_request(form: FormData) -> (r: SubscribeAction)
    ensures
        valid_name(form.name@) && valid_email(form.email@) ==> (r matches SubscribeAction::Persist(
            ns,
        ) && ns.name@ == form.name@ && ns.email@ == form.email@),
        !(valid_name(form.name@) && valid_email(form.email@)) ==> (r
            matches SubscribeAction::Reject(o) && o == HttpOutcome::BadRequest),
{
    match form.try_into() {
        Ok(ns) => SubscribeAction::Persist(ns),
        Err(_) => SubscribeAction::Reject(HttpOutcome::BadRequest),
    }
}

/// The handler's second decision: translate the persistence result into
/// the reported outcome — success maps to `Success`, any storage error to
/// `InternalServerError`, leaking no detail of the error to the caller.
pub fn subscribe_response(persisted: &Result<(), StorageError>) -> (r: HttpOutcome)
    ensures
        r == (if persisted is Ok {
            HttpOutcome::Success
        } else {
            HttpOutcome::InternalServerError
        }),
{
    match persisted {
        Ok(_) => HttpOutcome::Success,
        Err(_) => HttpOutcome::InternalServerError,
    }
}

} // verus!
