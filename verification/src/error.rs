//! Uniform success/error envelope for every remote call.
//!
//! The remote platform answers HTTP 200 with the expected success schema
//! and any other status with a structured error body. Every caller
//! receives a two-variant union and must match on it explicitly, so an
//! error body is never misread as a success payload.

use vstd::prelude::*;

verus! {

/// One structured error entry from a remote error body.
#[derive(Clone, Debug)]
pub struct SquareError {
    pub category: String,
    pub code: String,
    pub detail: String,
    pub field: String,
}

/// The error body of a non-200 remote response.
#[derive(Clone, Debug)]
pub struct SquareErrorResponse {
    pub errors: Vec<SquareError>,
}

/// The decoded outcome of one remote call.
#[derive(Clone, Debug)]
pub enum SquareResponse<T> {
    Success(T),
    Error(SquareErrorResponse),
}

/// How a remote failure is reported to callers.
#[derive(Clone, Debug)]
pub enum ApiFailure {
    /// The request could not be sent or the response never arrived.
    TransportError,
    /// A non-200 response carrying a structured error body.
    RemoteBusinessError(SquareErrorResponse),
    /// A 200 response whose body did not match the expected shape.
    SchemaMismatch,
    /// A logical absence: no customer for an email, no active subscription.
    NotFound,
    /// A state the remote platform promises never to produce.
    InvariantViolation,
}

/// Whether a response with this status carries the success schema; any
/// other status carries the structured error schema.
pub fn status_is_success(status: u16) -> (r: bool)
    ensures
        r == (status == 200),
{
    status == 200
}

/// The success payloads of a run of outcomes, in order, errors dropped.
pub open spec fn spec_successes<T>(s: Seq<SquareResponse<T>>) -> Seq<T>
    decreases s.len(),
{
    if s.len() == 0 {
        Seq::empty()
    } else {
        match s.last() {
            SquareResponse::Success(t) => spec_successes(s.drop_last()).push(t),
            SquareResponse::Error(_) => spec_successes(s.drop_last()),
        }
    }
}

/// Keeps the success payloads of a run of outcomes, in order. The
/// subscription listing re-fetches each found subscription individually
/// and reports those fetches that succeeded.
pub fn collect_successes<T>(results: Vec<SquareResponse<T>>) -> (r: Vec<T>)
    ensures
        r@ == spec_successes(results@),
{
    let mut kept: Vec<T> = Vec::new();
    let mut remaining = results;
    let ghost all = remaining@;
    let ghost mut i: int = 0;
    loop
        invariant
            0 <= i <= all.len(),
            remaining@ == all.skip(i),
            kept@ == spec_successes(all.take(i)),
        ensures
            kept@ == spec_successes(all),
        decreases all.len() - i,
    {
        if remaining.len() == 0 {
            proof {
                assert(all.take(i) =~= all);
            }
            break;
        }
        let head = remaining.remove(0);
        proof {
            assert(all.take(i + 1).drop_last() =~= all.take(i));
            assert(all.take(i + 1).last() == all[i]);
            assert(all.skip(i)[0] == all[i]);
            assert(all.skip(i).remove(0) =~= all.skip(i + 1));
        }
        match head {
            SquareResponse::Success(t) => kept.push(t),
            SquareResponse::Error(_) => (),
        }
        proof {
            i = i + 1;
        }
    }
    kept
}

impl<T> SquareResponse<T> {
    /// Whether this outcome is the success variant.
    pub fn is_success(&self) -> (r: bool)
        ensures
            r == (self is Success),
    {
        match self {
            SquareResponse::Success(_) => true,
            SquareResponse::Error(_) => false,
        }
    }

    /// The envelope as a `Result`, with the error body kept inspectable.
    pub fn into_result(self) -> (r: Result<T, ApiFailure>)
        ensures
            match self {
                SquareResponse::Success(t) => r == Ok::<T, ApiFailure>(t),
                SquareResponse::Error(e) => r == Err::<T, ApiFailure>(
                    ApiFailure::RemoteBusinessError(e),
                ),
            },
    {
        match self {
            SquareResponse::Success(t) => Ok(t),
            SquareResponse::Error(e) => Err(ApiFailure::RemoteBusinessError(e)),
        }
    }
}

} // verus!
