//! Image fetching: what to request, what to make of a reply, and when to try again. Retrying the
//! real request is how the device waits for Wi-Fi after it woke.
use vstd::prelude::*;
use vstd::string::*;

use crate::text::{chars_of, has_prefix, starts_with};

verus! {

/// Pause between two attempts.
pub const RETRY_PAUSE_SECS: u64 = 2;

/// Longest time for one request, whatever the overall budget.
pub const MAX_REQUEST_SECS: u64 = 15;

/// The signature that every PNG file begins with.
pub open spec fn png_magic() -> Seq<u8> {
    seq![0x89u8, 0x50u8, 0x4eu8, 0x47u8, 0x0du8, 0x0au8, 0x1au8, 0x0au8]
}

/// Whether bytes begin like a PNG file.
pub open spec fn is_png(bytes: Seq<u8>) -> bool {
    bytes.len() >= png_magic().len() && bytes.take(png_magic().len() as int) == png_magic()
}

/// What a fetch begins with.
#[derive(Debug)]
pub enum Plan<'a> {
    /// The image is read from this file.
    ReadFile(&'a str),
    /// The image is requested over HTTP, each request bounded by so many seconds.
    Request { per_request_secs: u64 },
}

/// Why an attempt brought no image.
#[derive(Debug)]
pub enum Cause {
    /// The request failed.
    Request(String),
    /// The server answered with this status.
    Status(u16),
    /// The body of the response could not be read.
    Body(String),
    /// The file could not be read.
    Read(String),
    /// The content, of so many bytes, is no PNG image.
    NotPng(usize),
}

/// A failed attempt, by whether trying again in the same cycle can help.
#[derive(Debug)]
pub enum FetchError {
    /// Worth retrying while Wi-Fi comes up.
    Transient(Cause),
    /// The reply is unusable; trying again now would not help.
    Permanent(Cause),
}

/// What came of one request.
#[derive(Debug)]
pub enum Reply {
    /// There was no response.
    NoResponse(String),
    /// A response; its body matters only where the status is a success.
    Response { status: u16, body: Result<Vec<u8>, String> },
}

/// Why a fetch failed.
#[derive(Debug)]
pub struct FetchFailure {
    pub cause: Cause,
    /// The number of attempts, where the time for them ran out.
    pub gave_up_after: Option<u32>,
}

/// What to do after an attempt.
#[derive(Debug)]
pub enum Next {
    /// Store these bytes as the image.
    Store(Vec<u8>),
    /// Pause, then make the attempt of this number.
    RetryAfter { pause_secs: u64, attempt: u32 },
    /// The fetch failed.
    Fail(FetchFailure),
}

pub open spec fn is_success(status: u16) -> bool {
    200 <= status < 300
}

/// Whether a status that is no success is worth a retry: a rate limit, or a server error.
pub open spec fn transient_status(status: u16) -> bool {
    status == 429 || 500 <= status < 600
}

/// Whether `error` is what an attempt with this reply comes to; none where the reply brings an
/// image.
pub open spec fn explains(error: FetchError, reply: Reply) -> bool {
    match reply {
        Reply::NoResponse(why) => error matches FetchError::Transient(Cause::Request(w)) && w@
            == why@,
        Reply::Response { status, body } => if !is_success(status) {
            if transient_status(status) {
                error matches FetchError::Transient(Cause::Status(code)) && code == status
            } else {
                error matches FetchError::Permanent(Cause::Status(code)) && code == status
            }
        } else {
            match body {
                Err(why) => error matches FetchError::Transient(Cause::Body(w)) && w@ == why@,
                Ok(bytes) => !is_png(bytes@) && (error matches FetchError::Permanent(Cause::NotPng(
                    n,
                )) && n == bytes@.len()),
            }
        },
    }
}

/// Whether a reply brings the image `bytes`.
pub open spec fn brings(reply: Reply, bytes: Seq<u8>) -> bool {
    reply matches Reply::Response { status, body: Ok(b) } && is_success(status) && is_png(b@) && b@
        == bytes
}

/// Begins a fetch of `url` with a budget of `timeout_secs`. A `file://` URL is read from disk,
/// without retries. A request is bounded by the budget, so that a small one is small, and by
/// [`MAX_REQUEST_SECS`], so that a generous one still fails in reasonable time.
pub fn fetch_to(url: &str, timeout_secs: u64) -> (plan: Plan<'_>)
    ensures
        if starts_with(url@, "file://"@) {
            plan matches Plan::ReadFile(path) && path@ == url@.skip(7)
        } else {
            plan matches Plan::Request { per_request_secs } && per_request_secs == (
            if timeout_secs < 1 {
                1
            } else if timeout_secs > MAX_REQUEST_SECS {
                MAX_REQUEST_SECS
            } else {
                timeout_secs
            })
        },
{
    proof {
        reveal_strlit("file://");
    }
    if has_prefix(url, "file://") {
        let n: usize = chars_of(url).len();
        let path = url.substring_char(7, n);
        assert(path@ =~= url@.skip(7));
        return Plan::ReadFile(path);
    }
    let per_request_secs: u64 = if timeout_secs < 1 {
        1
    } else if timeout_secs > MAX_REQUEST_SECS {
        MAX_REQUEST_SECS
    } else {
        timeout_secs
    };
    Plan::Request { per_request_secs }
}

/// Whether an HTTP status is a success; only then is the body worth reading.
pub fn status_is_success(code: u16) -> (r: bool)
    ensures
        r == is_success(code),
{
    200 <= code && code < 300
}

/// Whether an HTTP status that is no success is worth retrying within the budget: rate limiting
/// (429) and server or proxy errors (5xx) may clear, other errors will not.
pub fn status_is_transient(code: u16) -> (r: bool)
    ensures
        r == transient_status(code),
{
    code == 429 || (500 <= code && code < 600)
}

/// Checks that bytes begin like a PNG file, which guards against an error page served with a
/// success status.
pub fn validate_png(bytes: &Vec<u8>) -> (r: Result<(), Cause>)
    ensures
        match r {
            Ok(()) => is_png(bytes@),
            Err(e) => !is_png(bytes@) && (e matches Cause::NotPng(n) && n == bytes@.len()),
        },
{
    if bytes.len() >= 8 && bytes[0] == 0x89 && bytes[1] == 0x50 && bytes[2] == 0x4e && bytes[3]
        == 0x47 && bytes[4] == 0x0d && bytes[5] == 0x0a && bytes[6] == 0x1a && bytes[7] == 0x0a {
        assert(bytes@.take(8) =~= png_magic());
        Ok(())
    } else {
        proof {
            if is_png(bytes@) {
                assert(bytes@.take(8)[0] == png_magic()[0]);
                assert(bytes@.take(8)[1] == png_magic()[1]);
                assert(bytes@.take(8)[2] == png_magic()[2]);
                assert(bytes@.take(8)[3] == png_magic()[3]);
                assert(bytes@.take(8)[4] == png_magic()[4]);
                assert(bytes@.take(8)[5] == png_magic()[5]);
                assert(bytes@.take(8)[6] == png_magic()[6]);
                assert(bytes@.take(8)[7] == png_magic()[7]);
            }
        }
        Err(Cause::NotPng(bytes.len()))
    }
}

/// The image in a file that was read, or why there is none.
pub fn from_file(contents: Result<Vec<u8>, String>) -> (r: Result<Vec<u8>, FetchFailure>)
    ensures
        match (contents, r) {
            (Ok(bytes), Ok(image)) => is_png(bytes@) && image@ == bytes@,
            (Ok(bytes), Err(e)) => !is_png(bytes@) && e.gave_up_after is None && (e.cause matches
                Cause::NotPng(n) && n == bytes@.len()),
            (Err(why), Ok(_)) => false,
            (Err(why), Err(e)) => e.gave_up_after is None && (e.cause matches Cause::Read(w) && w@
                == why@),
        },
{
    match contents {
        Ok(bytes) => match validate_png(&bytes) {
            Ok(()) => Ok(bytes),
            Err(cause) => Err(FetchFailure { cause, gave_up_after: None }),
        },
        Err(why) => Err(FetchFailure { cause: Cause::Read(why), gave_up_after: None }),
    }
}

/// The image in a reply, or why there is none and whether a retry can help.
pub fn try_fetch(reply: Reply) -> (r: Result<Vec<u8>, FetchError>)
    ensures
        match r {
            Ok(bytes) => brings(reply, bytes@),
            Err(e) => explains(e, reply),
        },
{
    match reply {
        Reply::NoResponse(why) => Err(FetchError::Transient(Cause::Request(why))),
        Reply::Response { status, body } => {
            if !status_is_success(status) {
                return Err(
                    if status_is_transient(status) {
                        FetchError::Transient(Cause::Status(status))
                    } else {
                        FetchError::Permanent(Cause::Status(status))
                    },
                );
            }
            match body {
                Err(why) => Err(FetchError::Transient(Cause::Body(why))),
                Ok(bytes) => match validate_png(&bytes) {
                    Ok(()) => Ok(bytes),
                    Err(cause) => Err(FetchError::Permanent(cause)),
                },
            }
        },
    }
}

/// What to do after attempt number `attempt`, `elapsed_secs` into a budget of `timeout_secs`.
/// An image is stored; a permanent failure ends the fetch; a transient one is retried until the
/// budget is spent. The attempt number wraps.
pub fn after_attempt(attempt: u32, elapsed_secs: u64, timeout_secs: u64, reply: Reply) -> (next:
    Next)
    ensures
        match next {
            Next::Store(bytes) => brings(reply, bytes@),
            Next::RetryAfter { pause_secs, attempt: n } => {
                &&& pause_secs == RETRY_PAUSE_SECS
                &&& n == (attempt + 1) % 0x1_0000_0000
                &&& elapsed_secs < timeout_secs
                &&& exists|cause: Cause| explains(FetchError::Transient(cause), reply)
            },
            Next::Fail(failure) => match failure.gave_up_after {
                Some(n) => n == attempt && elapsed_secs >= timeout_secs && explains(
                    FetchError::Transient(failure.cause),
                    reply,
                ),
                None => explains(FetchError::Permanent(failure.cause), reply),
            },
        },
{
    match try_fetch(reply) {
        Ok(bytes) => Next::Store(bytes),
        Err(FetchError::Permanent(cause)) => Next::Fail(FetchFailure { cause, gave_up_after: None }),
        Err(FetchError::Transient(cause)) => {
            if elapsed_secs >= timeout_secs {
                Next::Fail(FetchFailure { cause, gave_up_after: Some(attempt) })
            } else {
                assert(explains(FetchError::Transient(cause), reply));
                Next::RetryAfter { pause_secs: RETRY_PAUSE_SECS, attempt: attempt.wrapping_add(1) }
            }
        },
    }
}

/// A reply has one outcome: it never both brings an image and fails, and a failure is never both
/// transient and permanent.
pub proof fn law_a_reply_has_one_outcome(reply: Reply, a: FetchError, b: FetchError, bytes: Seq<u8>)
    ensures
        explains(a, reply) ==> !brings(reply, bytes),
        explains(a, reply) && explains(b, reply) ==> (a is Transient <==> b is Transient),
{
}

/// What a reply brings is always a PNG image from a successful response, so that nothing else is
/// ever stored or shown.
pub proof fn law_only_images_are_stored(reply: Reply, bytes: Seq<u8>)
    requires
        brings(reply, bytes),
    ensures
        is_png(bytes),
        reply matches Reply::Response { status, .. } && is_success(status),
{
}

/// Whatever follows the eight signature bytes, and however long it is, makes a PNG image; without
/// them there is none.
pub proof fn law_png_is_its_signature_and_anything(rest: Seq<u8>, bytes: Seq<u8>)
    ensures
        is_png(seq![0x89u8, 0x50u8, 0x4eu8, 0x47u8, 0x0du8, 0x0au8, 0x1au8, 0x0au8] + rest),
        is_png(bytes) ==> bytes.len() >= 8 && bytes == seq![
            0x89u8,
            0x50u8,
            0x4eu8,
            0x47u8,
            0x0du8,
            0x0au8,
            0x1au8,
            0x0au8,
        ] + bytes.skip(8),
{
    let magic = seq![0x89u8, 0x50u8, 0x4eu8, 0x47u8, 0x0du8, 0x0au8, 0x1au8, 0x0au8];
    assert((magic + rest).take(8) =~= magic);
    if is_png(bytes) {
        assert(bytes.take(8) == magic);
        assert(bytes =~= bytes.take(8) + bytes.skip(8));
    }
}

/// A successful response whose body begins with the signature always brings that body, unchanged,
/// and never fails.
pub proof fn law_image_in_a_success_is_brought(
    status: u16,
    body: Vec<u8>,
    rest: Seq<u8>,
    error: FetchError,
)
    requires
        200 <= status <= 299,
        body@ == seq![0x89u8, 0x50u8, 0x4eu8, 0x47u8, 0x0du8, 0x0au8, 0x1au8, 0x0au8] + rest,
    ensures
        brings(Reply::Response { status, body: Ok(body) }, body@),
        forall|bytes: Seq<u8>|
            brings(Reply::Response { status, body: Ok(body) }, bytes) ==> bytes == body@,
        !explains(error, Reply::Response { status, body: Ok(body) }),
{
    law_png_is_its_signature_and_anything(rest, body@);
}

/// A success without the signature is permanently refused, with the number of its bytes.
pub proof fn law_other_content_is_refused_for_good(
    status: u16,
    body: Vec<u8>,
    error: FetchError,
    bytes: Seq<u8>,
)
    requires
        200 <= status <= 299,
        body@.len() < 8 || body@.take(8) != seq![
            0x89u8,
            0x50u8,
            0x4eu8,
            0x47u8,
            0x0du8,
            0x0au8,
            0x1au8,
            0x0au8,
        ],
    ensures
        !brings(Reply::Response { status, body: Ok(body) }, bytes),
        explains(error, Reply::Response { status, body: Ok(body) }) <==> error
            == FetchError::Permanent(Cause::NotPng(body.len())),
{
}

/// What a reply without a readable image comes to: no response and an unreadable body are worth a
/// retry, as are a rate limit and the statuses from 500 to 599; every other status that is no
/// success is not.
pub proof fn law_failed_replies(
    status: u16,
    body: Result<Vec<u8>, String>,
    why: String,
    error: FetchError,
    bytes: Seq<u8>,
)
    ensures
        explains(error, Reply::NoResponse(why)) <==> (error matches FetchError::Transient(
            Cause::Request(w),
        ) && w@ == why@),
        !brings(Reply::NoResponse(why), bytes),
        200 <= status <= 299 ==> {
            &&& explains(error, Reply::Response { status, body: Err(why) }) <==> (error matches
                FetchError::Transient(Cause::Body(w)) && w@ == why@)
            &&& !brings(Reply::Response { status, body: Err(why) }, bytes)
        },
        status == 429 || 500 <= status <= 599 ==> (explains(
            error,
            Reply::Response { status, body },
        ) <==> error == FetchError::Transient(Cause::Status(status))),
        !(200 <= status <= 299) && status != 429 && !(500 <= status <= 599) ==> (explains(
            error,
            Reply::Response { status, body },
        ) <==> error == FetchError::Permanent(Cause::Status(status))),
        !(200 <= status <= 299) ==> !brings(Reply::Response { status, body }, bytes),
{
}

/// Which statuses are a success, and which failures are worth a retry.
pub proof fn law_statuses(status: u16)
    ensures
        is_success(status) <==> status / 100 == 2,
        transient_status(status) <==> status == 429 || status / 100 == 5,
        RETRY_PAUSE_SECS == 2,
        MAX_REQUEST_SECS == 15,
{
}

} // verus!
