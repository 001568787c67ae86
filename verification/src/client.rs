//! The client's operations against the backend.
//!
//! Each operation builds its URL and request body in verified code,
//! performs the exchange through the trusted transport boundary, and
//! classifies whatever came back. The streaming history operation feeds
//! each received chunk to a caller-supplied sink; the status operation
//! decides from the reported state whether a finished task's patch is to
//! be saved. Operations that poll a task try the dev lineage first and
//! fall back to the cover lineage, because the client cannot know which
//! lineage a task id belongs to.

use vstd::prelude::*;
use vstd::string::StringExecFns;
use crate::endpoints::{HistoryEndPoint, StatusEndPoint, history_url, operation_url, status_url};
use crate::errors::CustomError;
use crate::events::{FetchEvent, FetchStep, classify_event};
use crate::http::{HttpReply, http_exchange, open_event_stream, recv_event};
use crate::json::{cover_request_body, dev_request_body, lint_request_body};
use crate::parse::{Status, parse_status};
use crate::reader::{ReaderError, read_with_retries, spec_read};

verus! {

/// The request headers every call carries: the API key, and for calls
/// with a JSON body (or a JSON answer) the content type.
fn request_headers(api_key: &str, json_content: bool) -> (r: Vec<(String, String)>)
    ensures
        1 <= r@.len() <= 2,
        r@[0].0@ == ("Authorization")@ && r@[0].1@ == api_key@,
        json_content ==> r@.len() == 2 && r@[1].0@ == ("Content-Type")@ && r@[1].1@ == (
        "application/json")@,
        !json_content ==> r@.len() == 1,
{
    let mut headers: Vec<(String, String)> = Vec::new();
    headers.push(("Authorization".to_owned(), api_key.to_owned()));
    if json_content {
        headers.push(("Content-Type".to_owned(), "application/json".to_owned()));
    }
    headers
}

/// How one completed exchange is read: a vanished transport worker is a
/// channel fault; a transport-level failure is an HTTP error without a
/// status code; a reply outside the success range is an HTTP error
/// carrying its status code and whatever body text was available; a
/// success without readable text has its body missing; and otherwise the
/// body text is the result.
pub fn classify_reply(outcome: Option<Result<HttpReply, String>>) -> (r: Result<
    String,
    CustomError,
>)
    ensures
        outcome is None ==> r == Err::<String, CustomError>(CustomError::ChannelError),
        outcome matches Some(Err(m)) ==> r == Err::<String, CustomError>(
            CustomError::HttpError { status: None, body: m },
        ),
        outcome matches Some(Ok(reply)) ==> {
            if !(200 <= reply.status < 300) {
                &&& r matches Err(e)
                &&& e matches CustomError::HttpError { status, body }
                &&& status == Some(reply.status)
                &&& body@ == (match reply.text {
                    Some(t) => t@,
                    None => Seq::<char>::empty(),
                })
            } else {
                match reply.text {
                    Some(t) => r == Ok::<String, CustomError>(t),
                    None => r == Err::<String, CustomError>(CustomError::BodyMissing),
                }
            }
        },
{
    match outcome {
        None => Err(CustomError::ChannelError),
        Some(Err(m)) => Err(CustomError::HttpError { status: None, body: m }),
        Some(Ok(reply)) => {
            if !(200 <= reply.status && reply.status < 300) {
                let body = match reply.text {
                    Some(t) => t,
                    None => String::new(),
                };
                Err(CustomError::HttpError { status: Some(reply.status), body })
            } else {
                match reply.text {
                    Some(t) => Ok(t),
                    None => Err(CustomError::BodyMissing),
                }
            }
        },
    }
}

/// One blocking exchange: perform it and classify the outcome. What the
/// network returns is not ours to promise; [`classify_reply`] states
/// exactly how every possible outcome is read. Whatever comes back, the
/// failure kinds below are the only ones a blocking exchange can raise:
/// in particular it never raises the transient chunk-decode kind, so the
/// retry policy never has reason to re-issue one of these calls.
fn block_fetching(url: &str, headers: &[(String, String)], body: Option<Vec<u8>>) -> (r: Result<
    String,
    CustomError,
>)
    ensures
        r matches Err(e) ==> (e is HttpError || e is ChannelError || e is BodyMissing),
{
    classify_reply(http_exchange(url, headers, body))
}

/// Ask the backend which review topics it supports. The network decides
/// the outcome; a failure is never of a kind the retry policy retries.
pub fn supported_topics(url: &str, api_key: &str) -> (r: Result<String, CustomError>)
    ensures
        r matches Err(e) ==> (e is HttpError || e is ChannelError || e is BodyMissing),
{
    let full_url = operation_url(url, "/supported_topics");
    let headers = request_headers(api_key, false);
    block_fetching(full_url.as_str(), headers.as_slice(), None)
}

/// Submit a change-generation task described by `desc` against `repo`,
/// and hand back the backend's reply body (a task object on success).
pub fn dev(url: &str, api_key: &str, repo: &str, token: &str, desc: &str, model: &str) -> (r:
    Result<String, CustomError>)
    ensures
        r matches Err(e) ==> (e is HttpError || e is ChannelError || e is BodyMissing),
{
    let body = dev_request_body(repo, token, desc, model);
    let full_url = operation_url(url, "/dev");
    let headers = request_headers(api_key, true);
    block_fetching(full_url.as_str(), headers.as_slice(), Some(body))
}

/// Submit a test-generation task for `source_file` / `test_file` in
/// `repo`, and hand back the backend's reply body.
pub fn cover(
    url: &str,
    api_key: &str,
    repo: &str,
    token: &str,
    source_file: &str,
    test_file: &str,
) -> (r: Result<String, CustomError>)
    ensures
        r matches Err(e) ==> (e is HttpError || e is ChannelError || e is BodyMissing),
{
    let body = cover_request_body(repo, token, source_file, test_file);
    let full_url = operation_url(url, "/cover");
    let headers = request_headers(api_key, true);
    block_fetching(full_url.as_str(), headers.as_slice(), Some(body))
}

/// Ask the backend to review `code` under `topic`, and hand back the
/// reply body (a risk report).
pub fn lint(url: &str, api_key: &str, topic: &str, code: &str, model: &str) -> (r: Result<
    String,
    CustomError,
>)
    ensures
        r matches Err(e) ==> (e is HttpError || e is ChannelError || e is BodyMissing),
{
    let body = lint_request_body(code, topic, model);
    let full_url = operation_url(url, "/lint");
    let headers = request_headers(api_key, true);
    block_fetching(full_url.as_str(), headers.as_slice(), Some(body))
}

/// Read a task's status under the given lineage, and hand back the raw
/// reply body.
pub fn status(url: &str, api_key: &str, endpoint: StatusEndPoint, id: &str) -> (r: Result<
    String,
    CustomError,
>)
    ensures
        r matches Err(e) ==> (e is HttpError || e is ChannelError || e is BodyMissing),
{
    let full_url = status_url(url, endpoint, id);
    let headers = request_headers(api_key, true);
    block_fetching(full_url.as_str(), headers.as_slice(), None)
}

/// Follow a task's history stream under the given lineage: one fetch
/// attempt, no retries. Every received chunk is handed to `callback` in
/// transport order; an empty chunk ends the stream successfully and is
/// not handed on. The result is the attempt's outcome, classified as
/// [`crate::events::classify_event`] states; a transport worker that
/// goes silent without ending the stream is a channel fault.
pub fn history<F: Fn(&Vec<u8>)>(
    url: &str,
    api_key: &str,
    id: &str,
    endpoint: HistoryEndPoint,
    callback: F,
) -> (r: Result<(), CustomError>)
    requires
        forall|chunk: &Vec<u8>| #[trigger] call_requires(callback, (chunk,)),
    ensures
        r matches Err(e) ==> (e is ChunkDecodeError || e is HttpError || e is ChannelError),
{
    let full_url = history_url(url, endpoint, id);
    let headers = request_headers(api_key, true);
    let rx = open_event_stream(full_url.as_str(), headers.as_slice());
    // A stream that somehow outlives this many events is abandoned as an
    // internal fault; no real stream comes anywhere near the bound, which
    // also keeps the consumption loop visibly bounded.
    let mut fuel: u64 = u64::MAX;
    while fuel > 0
        invariant
            forall|chunk: &Vec<u8>| #[trigger] call_requires(callback, (chunk,)),
        decreases fuel,
    {
        fuel = fuel - 1;
        match recv_event(&rx) {
            None => {
                return Err(CustomError::ChannelError);
            },
            Some(ev) => {
                match classify_event(ev) {
                    FetchStep::Forward(chunk) => callback(&chunk),
                    FetchStep::Proceed => {},
                    FetchStep::Complete => {
                        return Ok(());
                    },
                    FetchStep::Abort(e) => {
                        return Err(e);
                    },
                }
            },
        }
    }
    Err(CustomError::ChannelError)
}

/// What is to be done with a polled task's status.
#[derive(Debug, Clone, PartialEq, Eq)]
pub enum PatchAction {
    /// The task is done and carries a patch: write `content` to the file
    /// named `file_name`.
    Save { file_name: String, content: String },
    /// The task is not done (or done without a patch): show its status
    /// as it stands. A normal, expected outcome, not a failure.
    NotDone { status: Status },
}

/// Decide from a task's reported status what to do: exactly when the
/// state is `DONE` and a patch is present, the patch is saved under
/// `<task-id>.diff`; anything else only displays the status.
pub fn patch_plan(uuid: &str, st: Status) -> (r: PatchAction)
    ensures
        st.patch matches Some(p) ==> (st.status@ == ("DONE")@ ==> (r matches PatchAction::Save {
            file_name,
            content,
        } && file_name@ == uuid@ + (".diff")@ && content == p)),
        !(st.status@ == ("DONE")@ && st.patch is Some) ==> r == (PatchAction::NotDone {
            status: st,
        }),
{
    let done = st.status.eq(&String::from_str("DONE"));
    match st.patch {
        Some(content) => {
            if done {
                let mut file_name = uuid.to_owned();
                file_name.append(".diff");
                PatchAction::Save { file_name, content }
            } else {
                PatchAction::NotDone {
                    status: Status { status: st.status, patch: Some(content) },
                }
            }
        },
        None => PatchAction::NotDone { status: Status { status: st.status, patch: None } },
    }
}

/// Poll a task's status under one lineage and decide what to do with it.
/// Network and server decide the outcome; for every reply body that
/// parses as a status object, the returned action is [`patch_plan`] of
/// it, and a body that does not parse is reported as missing. Whatever
/// comes back: a returned save carries the spec'd `<task-id>.diff` file
/// name, a returned not-done really reported no saveable patch, and a
/// failure is never of a kind the retry policy retries.
pub fn download_patch(url: &str, api_key: &str, endpoint: StatusEndPoint, uuid: &str) -> (r:
    Result<PatchAction, CustomError>)
    ensures
        r matches Ok(a) ==> (a matches PatchAction::Save { file_name, content } ==> file_name@
            == uuid@ + (".diff")@),
        r matches Ok(a) ==> (a matches PatchAction::NotDone { status } ==> !(status.status@ == (
        "DONE")@ && status.patch is Some)),
        r matches Err(e) ==> (e is HttpError || e is ChannelError || e is BodyMissing),
{
    let resp = match status(url, api_key, endpoint, uuid) {
        Ok(resp) => resp,
        Err(e) => {
            return Err(e);
        },
    };
    let st = match parse_status(resp.as_str()) {
        Ok(st) => st,
        Err(e) => {
            return Err(e);
        },
    };
    Ok(patch_plan(uuid, st))
}

/// Poll a task's status trying the dev lineage first; if that fails for
/// any reason, try the cover lineage and return its outcome
/// unconditionally. The primary's failure is never inspected, the
/// primary is never retried, and the cover lineage is never queried
/// after a dev success. The selection between the two outcomes goes
/// through [`try_both`], whose contract fixes it; what each poll itself
/// returns is the network's to decide, within [`download_patch`]'s
/// clauses, which carry over to the selected outcome.
pub fn fallback_download_patch(url: &str, api_key: &str, uuid: &str) -> (r: Result<
    PatchAction,
    CustomError,
>)
    ensures
        r matches Ok(a) ==> (a matches PatchAction::Save { file_name, content } ==> file_name@
            == uuid@ + (".diff")@),
        r matches Ok(a) ==> (a matches PatchAction::NotDone { status } ==> !(status.status@ == (
        "DONE")@ && status.patch is Some)),
        r matches Err(e) ==> (e is HttpError || e is ChannelError || e is BodyMissing),
{
    let primary = download_patch(url, api_key, StatusEndPoint::DevStatus, uuid);
    if primary.is_ok() {
        return primary;
    }
    let fallback = download_patch(url, api_key, StatusEndPoint::CoverStatus, uuid);
    try_both(primary, fallback)
}

/// The endpoint-fallback rule over two outcomes: a successful primary is
/// returned as it is; a failed primary is answered with the fallback's
/// outcome — success or failure — unconditionally.
pub fn try_both<T, E>(primary: Result<T, E>, fallback: Result<T, E>) -> (r: Result<T, E>)
    ensures
        primary is Ok ==> r == primary,
        primary is Err ==> r == fallback,
{
    if primary.is_ok() {
        primary
    } else {
        fallback
    }
}

/// Follow a task's history over recorded transport behaviour, trying
/// the primary lineage first and, if its read fails for any reason,
/// the fallback lineage — whose outcome is returned unconditionally.
///
/// This is the follow operation's decision core: each argument lists the
/// event sequences the successive fetch attempts against that lineage
/// would produce, and the bounded-retry reader of
/// [`crate::reader::read_with_retries`] consumes them. Chunks reach
/// `sink` in reading order, from both lineages' attempts where the
/// fallback was tried. The live loop around the real transport adds only
/// its timing — the inter-attempt delay — which has no bearing on what
/// is read. `None` means a recording ended while the reader would have
/// issued another attempt.
pub fn fallback_display_history(
    primary: Vec<Vec<FetchEvent>>,
    fallback: Vec<Vec<FetchEvent>>,
    sink: &mut Vec<Vec<u8>>,
) -> (r: Option<Result<(), ReaderError>>)
    ensures
        spec_read(primary@, 0).0 == Some(Ok::<(), ReaderError>(())) ==> r == spec_read(
            primary@,
            0,
        ).0 && final(sink)@ == old(sink)@ + spec_read(primary@, 0).1,
        spec_read(primary@, 0).0 matches Some(Err(_)) ==> r == spec_read(fallback@, 0).0
            && final(sink)@ == old(sink)@ + spec_read(primary@, 0).1 + spec_read(fallback@, 0).1,
        spec_read(primary@, 0).0 is None ==> r is None && final(sink)@ == old(sink)@ + spec_read(
            primary@,
            0,
        ).1,
{
    let ghost p = spec_read(primary@, 0);
    let first = read_with_retries(primary, sink);
    match first {
        Some(Ok(())) => Some(Ok(())),
        None => None,
        Some(Err(_)) => {
            let second = read_with_retries(fallback, sink);
            proof {
                assert(sink@ =~= (old(sink)@ + p.1) + spec_read(fallback@, 0).1);
                assert((old(sink)@ + p.1) + spec_read(fallback@, 0).1 =~= old(sink)@ + p.1
                    + spec_read(fallback@, 0).1);
            }
            second
        },
    }
}

/// What the change-generation command does, decided from its mutually
/// exclusive options: fetching a finished task's patch wins over
/// following a running task's history, which wins over submitting a new
/// task from a description file; with none of the three, the command
/// only shows its usage.
#[derive(Debug, Clone, PartialEq, Eq)]
pub enum DevAction {
    /// Poll the task and save its patch.
    DownloadPatch(String),
    /// Follow the task's history stream.
    FollowHistory(String),
    /// Read a task description from this file and submit it.
    SubmitFromFile(String),
    /// Print the command's usage.
    ShowHelp,
}

/// Decide what the change-generation command does; see [`DevAction`] for
/// the precedence.
pub fn choose_dev_action(
    description_filename: Option<String>,
    follow: Option<String>,
    patch: Option<String>,
) -> (r: DevAction)
    ensures
        patch matches Some(u) ==> r == DevAction::DownloadPatch(u),
        patch is None ==> (follow matches Some(u) ==> r == DevAction::FollowHistory(u)),
        patch is None && follow is None ==> (description_filename matches Some(f) ==> r
            == DevAction::SubmitFromFile(f)),
        patch is None && follow is None && description_filename is None ==> r
            == DevAction::ShowHelp,
{
    if let Some(uuid) = patch {
        DevAction::DownloadPatch(uuid)
    } else if let Some(uuid) = follow {
        DevAction::FollowHistory(uuid)
    } else if let Some(filename) = description_filename {
        DevAction::SubmitFromFile(filename)
    } else {
        DevAction::ShowHelp
    }
}

/// A task description as read from the operator's file: the repository,
/// and either a change description (a dev task) or a source/test file
/// pair (a cover task), with an optional access token.
#[derive(Debug, Clone, PartialEq, Eq)]
pub struct DevTask {
    pub repo: String,
    pub description: Option<String>,
    pub token: Option<String>,
    pub source_file: Option<String>,
    pub test_file: Option<String>,
}

/// Which submission a task description asks for.
#[derive(Debug, Clone, PartialEq, Eq)]
pub enum SubmitPlan {
    /// Submit a change-generation task.
    Dev { repo: String, token: String, desc: String },
    /// Submit a test-generation task.
    Cover { repo: String, token: String, source_file: String, test_file: String },
    /// The description names neither a change nor a complete source/test
    /// pair.
    MissingFiles,
}

/// Decide which submission a task description asks for: a description
/// makes it a dev task; otherwise a complete source/test pair makes it a
/// cover task; otherwise it is incomplete. A missing token stands for
/// the empty token.
pub fn plan_submission(task: DevTask) -> (r: SubmitPlan)
    ensures
        task.description matches Some(d) ==> (r matches SubmitPlan::Dev { repo, token, desc }
            && repo == task.repo && desc == d && spec_token_of(task.token, token)),
        task.description is None ==> (task.source_file matches Some(sf) ==> (
        task.test_file matches Some(tf) ==> (r matches SubmitPlan::Cover {
            repo,
            token,
            source_file,
            test_file,
        } && repo == task.repo && source_file == sf && test_file == tf && spec_token_of(
            task.token,
            token,
        )))),
        task.description is None && (task.source_file is None || task.test_file is None) ==> r
            == SubmitPlan::MissingFiles,
{
    let token = match task.token {
        Some(t) => t,
        None => String::new(),
    };
    if let Some(desc) = task.description {
        SubmitPlan::Dev { repo: task.repo, token, desc }
    } else if let (Some(source_file), Some(test_file)) = (task.source_file, task.test_file) {
        SubmitPlan::Cover { repo: task.repo, token, source_file, test_file }
    } else {
        SubmitPlan::MissingFiles
    }
}

/// The token a plan carries: the description's own, or empty where the
/// description had none.
pub open spec fn spec_token_of(given: Option<String>, used: String) -> bool {
    match given {
        Some(t) => used == t,
        None => used@ == Seq::<char>::empty(),
    }
}

} // verus!