//! What the world contributes to one request: the readings of the clock and
//! freshly drawn identifiers.

use vstd::prelude::*;

verus! {

/// `chrono::Utc::now` as seconds since the Unix epoch. Nothing is known of
/// the clock.
#[verifier::external_body]
pub(crate) fn unix_seconds() -> i64 {
    chrono::Utc::now().timestamp()
}

/// `chrono::Utc::now` as microseconds since the Unix epoch. Nothing is
/// known of the clock.
#[verifier::external_body]
fn unix_micros() -> i64 {
    chrono::Utc::now().timestamp_micros()
}

/// `uuid::Uuid::new_v4` printed by `to_string`: a random identifier in its
/// hyphenated form, which has 36 characters.
#[verifier::external_body]
fn fresh_id() -> (id: String)
    ensures
        id@.len() == 36,
{
    uuid::Uuid::new_v4().to_string()
}

/// The circumstances of one request.
#[derive(Debug, PartialEq, Eq)]
pub struct RequestContext {
    /// The clock in seconds since the Unix epoch: credentials are judged by it.
    pub now: i64,
    /// The clock in microseconds since the Unix epoch: new rows are stamped
    /// with it.
    pub created_at: i64,
    /// The identifier of the row that the request may create.
    pub new_id: String,
    /// An identifier for naming an upload that comes without a name.
    pub spare_id: String,
}

/// The mathematical value of a [`RequestContext`].
pub struct RequestContextView {
    pub now: i64,
    pub created_at: i64,
    pub new_id: Seq<char>,
    pub spare_id: Seq<char>,
}

impl View for RequestContext {
    type V = RequestContextView;

    open spec fn view(&self) -> RequestContextView {
        RequestContextView {
            now: self.now,
            created_at: self.created_at,
            new_id: self.new_id@,
            spare_id: self.spare_id@,
        }
    }
}

impl RequestContext {
    /// Reads the clock and draws two random identifiers.
    pub fn capture() -> (context: RequestContext)
        ensures
            context.new_id@.len() == 36,
            context.spare_id@.len() == 36,
    {
        RequestContext {
            now: unix_seconds(),
            created_at: unix_micros(),
            new_id: fresh_id(),
            spare_id: fresh_id(),
        }
    }
}

} // verus!
