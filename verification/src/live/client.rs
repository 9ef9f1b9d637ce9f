//! Delivering one request: what to do after each send, and what to make of
//! the response that is finally accepted.
//!
//! The client sends the request and looks at what came back. A send that
//! fails outright ends the call at once. A response with a status of success
//! ends it well. Any other response is answered by sending the same request
//! again, at once, until the count of such repeats has passed the retry
//! ceiling; the response that comes then ends the call with its status as
//! the error. The count is compared with the ceiling before it is raised, so
//! a server that never succeeds is asked `ceiling + 2` times, and the count
//! that the error reports is `ceiling + 1`.
//!
//! Sending is the caller's part. [`next_step`] is the decision after one
//! send; [`replay`] is the whole call against a given run of sends.

use vstd::prelude::*;
use crate::live::config::LiveClientConfig;
use crate::live::decode::{agrees, Decode, DecodeError};
use crate::live::error::{Cause, CauseView, LiveClientError, LiveClientErrorView};
use crate::live::json::{parse_document, parsed_document};

verus! {

/// What one send gave.
#[derive(Debug)]
pub enum SendOutcome {
    /// No response: the transport failed, and this is its account of it.
    Failed(String),
    /// A response with this status.
    Responded(u16),
}

/// The mathematical value of a [`SendOutcome`].
pub ghost enum SendOutcomeView {
    Failed(Seq<char>),
    Responded(u16),
}

impl DeepView for SendOutcome {
    type V = SendOutcomeView;

    open spec fn deep_view(&self) -> SendOutcomeView {
        match self {
            SendOutcome::Failed(detail) => SendOutcomeView::Failed(detail@),
            SendOutcome::Responded(status) => SendOutcomeView::Responded(*status),
        }
    }
}

/// A response that was accepted: its status, and the number of times the
/// request had been sent again before it came.
#[derive(Clone, Copy, Debug, PartialEq, Eq, Structural)]
pub struct ResponseInfo {
    pub status: u16,
    pub retries: u16,
}

/// What the client does next.
#[derive(Debug)]
pub enum Step {
    /// Send the same request again; this is the new count of repeats.
    Resend(u16),
    /// The call has succeeded with this response.
    Deliver(ResponseInfo),
    /// The call has failed.
    Fail(LiveClientError),
}

/// The mathematical value of a [`Step`].
pub ghost enum StepView {
    Resend(u16),
    Deliver(ResponseInfo),
    Fail(LiveClientErrorView),
}

impl DeepView for Step {
    type V = StepView;

    open spec fn deep_view(&self) -> StepView {
        match self {
            Step::Resend(retries) => StepView::Resend(*retries),
            Step::Deliver(info) => StepView::Deliver(*info),
            Step::Fail(error) => StepView::Fail(error.deep_view()),
        }
    }
}

/// Whether `status` is in the success range, 200 to 299.
pub open spec fn is_success(status: u16) -> bool {
    200 <= status <= 299
}

/// Whether `status` is in the success range.
pub fn status_is_success(status: u16) -> (yes: bool)
    ensures
        yes == is_success(status),
{
    200 <= status && status <= 299
}

/// The error of a send that failed outright after `retries` repeats.
pub open spec fn connection_error(detail: Seq<char>, retries: u16) -> LiveClientErrorView {
    LiveClientErrorView { cause: CauseView::Connection(detail), retries, status_code: None }
}

/// The error of a call that ended on the status `status` after `retries` repeats.
pub open spec fn status_error(status: u16, retries: u16) -> LiveClientErrorView {
    LiveClientErrorView {
        cause: CauseView::HttpStatus(status),
        retries,
        status_code: Some(status),
    }
}

/// The error of a body that came with `info` and does not decode.
pub open spec fn decode_error(e: DecodeError, info: ResponseInfo) -> LiveClientErrorView {
    LiveClientErrorView {
        cause: CauseView::Decode(e),
        retries: info.retries,
        status_code: Some(info.status),
    }
}

/// The decision after a send that gave `outcome`, for a client with retry
/// ceiling `ceiling` that has sent the request again `retries` times so far.
pub open spec fn step(ceiling: u8, retries: u16, outcome: SendOutcomeView) -> StepView {
    match outcome {
        SendOutcomeView::Failed(detail) => StepView::Fail(connection_error(detail, retries)),
        SendOutcomeView::Responded(status) => if is_success(status) {
            StepView::Deliver(ResponseInfo { status, retries })
        } else if retries > ceiling {
            StepView::Fail(status_error(status, retries))
        } else {
            StepView::Resend((retries + 1) as u16)
        },
    }
}

/// Decides what follows a send.
pub fn next_step(config: &LiveClientConfig, retries: u16, outcome: &SendOutcome) -> (next: Step)
    ensures
        next.deep_view() == step(config.retries, retries, outcome.deep_view()),
{
    match outcome {
        SendOutcome::Failed(detail) => Step::Fail(
            LiveClientError::new(Cause::Connection(detail.clone()), retries, None),
        ),
        SendOutcome::Responded(status) => {
            if status_is_success(*status) {
                Step::Deliver(ResponseInfo { status: *status, retries })
            } else if retries > config.retries as u16 {
                Step::Fail(LiveClientError::new(Cause::HttpStatus(*status), retries, Some(*status)))
            } else {
                Step::Resend(retries + 1)
            }
        },
    }
}

/// How a call ends that has sent the request again `retries` times and whose
/// further sends give `outcomes[from]`, `outcomes[from + 1]` and so on:
/// `None` where the outcomes run out before the call has ended.
pub open spec fn run(
    ceiling: u8,
    retries: u16,
    outcomes: Seq<SendOutcomeView>,
    from: int,
) -> Option<Result<ResponseInfo, LiveClientErrorView>>
    decreases outcomes.len() - from,
{
    if from < 0 || from >= outcomes.len() {
        None
    } else {
        match step(ceiling, retries, outcomes[from]) {
            StepView::Resend(more) => run(ceiling, more, outcomes, from + 1),
            StepView::Deliver(info) => Some(Ok(info)),
            StepView::Fail(error) => Some(Err(error)),
        }
    }
}

/// `got` is the end of a call that `expected` describes.
pub open spec fn ends_as(
    got: Option<Result<ResponseInfo, LiveClientError>>,
    expected: Option<Result<ResponseInfo, LiveClientErrorView>>,
) -> bool {
    match got {
        None => expected is None,
        Some(Ok(info)) => expected == Some(Ok::<ResponseInfo, LiveClientErrorView>(info)),
        Some(Err(error)) => expected == Some(
            Err::<ResponseInfo, LiveClientErrorView>(error.deep_view()),
        ),
    }
}

/// Runs a whole call against a given run of sends: the first send gives
/// `outcomes[0]`, the next one `outcomes[1]`, and so on. Returns how the call
/// ends, or `None` where it would send once more than there are outcomes.
pub fn replay(config: &LiveClientConfig, outcomes: &Vec<SendOutcome>) -> (end: Option<
    Result<ResponseInfo, LiveClientError>,
>)
    ensures
        ends_as(end, run(config.retries, 0, outcomes.deep_view(), 0)),
{
    let mut retries: u16 = 0;
    let mut i: usize = 0;
    while i < outcomes.len()
        invariant
            i <= outcomes.len(),
            run(config.retries, 0, outcomes.deep_view(), 0) == run(
                config.retries,
                retries,
                outcomes.deep_view(),
                i as int,
            ),
        decreases outcomes.len() - i,
    {
        match next_step(config, retries, &outcomes[i]) {
            Step::Resend(more) => {
                retries = more;
            },
            Step::Deliver(info) => {
                return Some(Ok(info));
            },
            Step::Fail(error) => {
                return Some(Err(error));
            },
        }
        i += 1;
    }
    None
}

/// In `outcomes` the server answers `failures` times with a status other
/// than success and then once with success.
pub open spec fn fails_then_succeeds(outcomes: Seq<SendOutcomeView>, failures: int) -> bool {
    &&& 0 <= failures < outcomes.len()
    &&& forall|i: int|
        0 <= i < failures ==> (#[trigger] outcomes[i]) is Responded && !is_success(
            outcomes[i]->Responded_0,
        )
    &&& outcomes[failures] is Responded
    &&& is_success(outcomes[failures]->Responded_0)
}

/// How a call ends on a server that succeeds after `failures` failures, for
/// a client with retry ceiling `ceiling`.
pub open spec fn end_after_failures(
    ceiling: u8,
    outcomes: Seq<SendOutcomeView>,
    failures: int,
) -> Result<ResponseInfo, LiveClientErrorView> {
    if failures <= ceiling + 1 {
        Ok(ResponseInfo { status: outcomes[failures]->Responded_0, retries: failures as u16 })
    } else {
        Err(status_error(outcomes[ceiling + 1]->Responded_0, (ceiling + 1) as u16))
    }
}

proof fn lemma_run_after(ceiling: u8, outcomes: Seq<SendOutcomeView>, failures: int, sent: int)
    requires
        fails_then_succeeds(outcomes, failures),
        0 <= sent <= failures,
        sent <= ceiling + 1,
    ensures
        run(ceiling, sent as u16, outcomes, sent) == Some(
            end_after_failures(ceiling, outcomes, failures),
        ),
    decreases failures - sent,
{
    if sent < failures && sent <= ceiling {
        lemma_run_after(ceiling, outcomes, failures, sent + 1);
    }
}

/// The retry boundary. Against a server that answers `failures` times with a
/// status other than success and then with success, the call succeeds if
/// and only if `failures <= ceiling + 1`, and then reports `failures`
/// retries; otherwise it fails on the status of the answer numbered
/// `ceiling + 2`, and reports `ceiling + 1` retries.
pub proof fn law_retry_boundary(ceiling: u8, outcomes: Seq<SendOutcomeView>, failures: int)
    requires
        fails_then_succeeds(outcomes, failures),
    ensures
        run(ceiling, 0, outcomes, 0) == Some(end_after_failures(ceiling, outcomes, failures)),
        run(ceiling, 0, outcomes, 0)->Some_0 is Ok <==> failures <= ceiling + 1,
{
    lemma_run_after(ceiling, outcomes, failures, 0);
}

/// The number of retries that the end of a call reports.
pub open spec fn retries_of(end: Result<ResponseInfo, LiveClientErrorView>) -> u16 {
    match end {
        Ok(info) => info.retries,
        Err(error) => error.retries,
    }
}

proof fn lemma_retries_bounded_from(
    ceiling: u8,
    retries: u16,
    outcomes: Seq<SendOutcomeView>,
    from: int,
)
    requires
        retries <= ceiling + 1,
    ensures
        run(ceiling, retries, outcomes, from) matches Some(end) ==> retries <= retries_of(end)
            <= ceiling + 1,
    decreases outcomes.len() - from,
{
    if 0 <= from < outcomes.len() {
        if let StepView::Resend(more) = step(ceiling, retries, outcomes[from]) {
            lemma_retries_bounded_from(ceiling, more, outcomes, from + 1);
        }
    }
}

/// However a call ends, it reports at most `ceiling + 1` retries.
pub proof fn law_retries_bounded(ceiling: u8, outcomes: Seq<SendOutcomeView>)
    ensures
        run(ceiling, 0, outcomes, 0) matches Some(end) ==> retries_of(end) <= ceiling + 1,
{
    lemma_retries_bounded_from(ceiling, 0, outcomes, 0);
}

proof fn lemma_ends_within(ceiling: u8, outcomes: Seq<SendOutcomeView>, sent: int)
    requires
        0 <= sent <= ceiling + 1,
        outcomes.len() >= ceiling + 2,
    ensures
        run(ceiling, sent as u16, outcomes, sent) is Some,
    decreases ceiling + 1 - sent,
{
    if sent <= ceiling {
        lemma_ends_within(ceiling, outcomes, sent + 1);
    }
}

/// A call sends at most `ceiling + 2` times: with that many outcomes at
/// hand it always comes to an end.
pub proof fn law_sends_bounded(ceiling: u8, outcomes: Seq<SendOutcomeView>)
    requires
        outcomes.len() >= ceiling + 2,
    ensures
        run(ceiling, 0, outcomes, 0) is Some,
{
    lemma_ends_within(ceiling, outcomes, 0);
}

/// A send that fails outright is not repeated: where the first send fails,
/// the call ends there as a connection error with no retries and no status,
/// whatever the ceiling and whatever further sends would have given.
pub proof fn law_connection_failure_ends_call(ceiling: u8, outcomes: Seq<SendOutcomeView>)
    requires
        outcomes.len() > 0,
        outcomes[0] is Failed,
    ensures
        run(ceiling, 0, outcomes, 0) == Some(
            Err::<ResponseInfo, LiveClientErrorView>(
                connection_error(outcomes[0]->Failed_0, 0),
            ),
        ),
{
}

/// What a body decodes to as a `T`: the body must be a JSON document, and
/// the document must have the shape.
pub open spec fn decoded_body<T: Decode>(body: Seq<u8>) -> Result<T::V, DecodeError> {
    match parsed_document(body) {
        None => Err(DecodeError::Syntax),
        Some(j) => T::decoded(j),
    }
}

/// Decodes a body as a `T`.
pub fn decode_body<T: Decode>(body: &[u8]) -> (r: Result<T, DecodeError>)
    ensures
        agrees(r, decoded_body::<T>(body@)),
{
    match parse_document(body) {
        None => Err(DecodeError::Syntax),
        Some(j) => T::decode(&j),
    }
}

/// `got` is what a call makes of a body that decodes to `expected` and came
/// with `info`: the value, or the decode error with the status and the
/// retries of the response.
pub open spec fn concludes<T: DeepView>(
    got: Result<T, LiveClientError>,
    expected: Result<T::V, DecodeError>,
    info: ResponseInfo,
) -> bool {
    match got {
        Ok(value) => expected == Ok::<T::V, DecodeError>(value.deep_view()),
        Err(error) => expected is Err && error.deep_view() == decode_error(
            expected->Err_0,
            info,
        ),
    }
}

/// Turns an accepted response into the value that the caller asked for.
pub fn decode_response<T: Decode>(info: ResponseInfo, body: &[u8]) -> (r: Result<
    T,
    LiveClientError,
>)
    ensures
        concludes(r, decoded_body::<T>(body@), info),
{
    match decode_body::<T>(body) {
        Ok(value) => Ok(value),
        Err(e) => Err(LiveClientError::new(Cause::Decode(e), info.retries, Some(info.status))),
    }
}

/// Decoding is a function of the body: two decodings of the same body both
/// succeed or both fail, with equal values or with the same error.
pub proof fn law_decoding_repeats<T: Decode>(
    body: Seq<u8>,
    first: Result<T, DecodeError>,
    second: Result<T, DecodeError>,
)
    requires
        agrees(first, decoded_body::<T>(body)),
        agrees(second, decoded_body::<T>(body)),
    ensures
        first is Ok <==> second is Ok,
        first is Ok ==> first->Ok_0.deep_view() == second->Ok_0.deep_view(),
        first is Err ==> first->Err_0 == second->Err_0,
{
}

} // verus!
