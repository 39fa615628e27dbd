//! Construction of the stored subscription row: server-generated identifier
//! and capture timestamp beside the validated strings.

use vstd::prelude::*;
use vstd::string::StringExecFns;
use crate::domain::NewSubscriber;

verus! {

#[verifier::external_type_specification]
#[verifier::external_body]
pub struct ExUuid(uuid::Uuid);

/// Relies on `uuid::Uuid::new_v4`: a freshly drawn random identifier, of
/// which nothing is promised beyond its type.
#[verifier::external_body]
fn fresh_id() -> uuid::Uuid {
    uuid::Uuid::new_v4()
}

/// Relies on `chrono::Utc::now` and `chrono::DateTime::timestamp_micros`:
/// the clock reading at the moment of the call, as microseconds since the
/// Unix epoch, of which nothing is promised beyond its type.
#[verifier::external_body]
fn capture_instant() -> i64 {
    chrono::Utc::now().timestamp_micros()
}

/// One row of the subscription store, fully assembled and ready to be
/// written by a single atomic insert.
pub struct SubscriptionRecord {
    pub id: uuid::Uuid,
    pub email: String,
    pub name: String,
    /// Capture time in microseconds since the Unix epoch; the storage edge
    /// turns it back into a timestamp value of its own.
    pub subscribed_at_micros: i64,
}

/// Assemble the row that persists an accepted subscriber: a fresh random
/// identifier and the current timestamp — both server-generated, never
/// client-supplied — beside exactly the validated email and name strings.
pub fn subscription_record(subscriber: &NewSubscriber) -> (r: SubscriptionRecord)
    ensures
        r.email@ == subscriber.email@,
        r.name@ == subscriber.name@,
{
    SubscriptionRecord {
        id: fresh_id(),
        email: String::from_str(subscriber.email.as_ref()),
        name: String::from_str(subscriber.name.as_ref()),
        subscribed_at_micros: capture_instant(),
    }
}

} // verus!
