//! Reading the backend's JSON reply bodies.
//!
//! The backend answers a status poll with `{"status": ..., "patch": ...}`
//! and a submit call with `{"task_id": ...}`. Decoding JSON is delegated
//! to an outside parser behind a trusted boundary; what a given text
//! parses to is a function of the text alone, so each parse gets a name
//! that the callers' contracts are stated over.

use vstd::prelude::*;
use vstd::string::StringExecFns;
use crate::errors::CustomError;

verus! {

/// A task's state as the backend reports it: the lifecycle word
/// (`PENDING`, `RUNNING`, `DONE`, ...) and, once finished, the patch.
#[derive(Debug, Clone, PartialEq, Eq)]
pub struct Status {
    pub status: String,
    pub patch: Option<String>,
}

/// A freshly accepted task: its id.
#[derive(Debug, Clone, PartialEq, Eq)]
pub struct Task {
    pub task_id: String,
}

/// What a status reply body parses to: the status word and the optional
/// patch, or nothing when the text is not such an object.
pub uninterp spec fn parsed_status(s: Seq<char>) -> Option<(Seq<char>, Option<Seq<char>>)>;

/// What a submit reply body parses to: the task id, or nothing when the
/// text is not such an object.
pub uninterp spec fn parsed_task(s: Seq<char>) -> Option<Seq<char>>;

/// Relies on `serde_json::from_str` and `serde_json::Value`'s accessors:
/// what a text parses to depends on the text alone.
#[verifier::external_body]
fn parse_status_json(s: &str) -> (r: Option<Status>)
    ensures
        r is Some <==> parsed_status(s@) is Some,
        r matches Some(st) ==> parsed_status(s@) == Some(
            (
                st.status@,
                match st.patch {
                    Some(p) => Some(p@),
                    None => None,
                },
            ),
        ),
{
    let v: serde_json::Value = serde_json::from_str(s).ok()?;
    let status = v.get("status")?.as_str()?.to_string();
    let patch = v.get("patch").and_then(|p| p.as_str()).map(|p| p.to_string());
    Some(Status { status, patch })
}

/// Relies on `serde_json::from_str` and `serde_json::Value`'s accessors:
/// what a text parses to depends on the text alone.
#[verifier::external_body]
fn parse_task_json(s: &str) -> (r: Option<Task>)
    ensures
        r is Some <==> parsed_task(s@) is Some,
        r matches Some(t) ==> parsed_task(s@) == Some(t.task_id@),
{
    let v: serde_json::Value = serde_json::from_str(s).ok()?;
    Some(Task { task_id: v.get("task_id")?.as_str()?.to_string() })
}

/// Decode a status reply body, or report that the server's answer did
/// not carry a readable status object.
pub fn parse_status(s: &str) -> (r: Result<Status, CustomError>)
    ensures
        r is Ok <==> parsed_status(s@) is Some,
        r matches Ok(st) ==> parsed_status(s@) == Some(
            (
                st.status@,
                match st.patch {
                    Some(p) => Some(p@),
                    None => None,
                },
            ),
        ),
        r is Err ==> r == Err::<Status, CustomError>(CustomError::BodyMissing),
{
    match parse_status_json(s) {
        Some(st) => Ok(st),
        None => Err(CustomError::BodyMissing),
    }
}

/// Decode a submit reply body, or report that the server's answer did
/// not carry a readable task object.
pub fn parse_task(s: &str) -> (r: Result<Task, CustomError>)
    ensures
        r is Ok <==> parsed_task(s@) is Some,
        r matches Ok(t) ==> parsed_task(s@) == Some(t.task_id@),
        r is Err ==> r == Err::<Task, CustomError>(CustomError::BodyMissing),
{
    match parse_task_json(s) {
        Some(t) => Ok(t),
        None => Err(CustomError::BodyMissing),
    }
}

/// One finding of a review reply: the code it points at, why it is a
/// risk, and the suggested fix.
#[derive(Debug, Clone, PartialEq, Eq)]
pub struct Risk {
    pub which_part_of_code: String,
    pub reason: String,
    pub fix: String,
}

/// A review reply: structured findings when the backend produces them,
/// a plain-text report otherwise, and the backend's name, which decides
/// which of the two carries the content.
#[derive(Debug, Clone, PartialEq, Eq)]
pub struct Risks {
    pub risks: Vec<Risk>,
    pub plain_risks: String,
    pub backend: String,
}

/// The views of a finding list.
pub open spec fn spec_risk_views(rs: Seq<Risk>) -> Seq<(Seq<char>, Seq<char>, Seq<char>)> {
    rs.map_values(|r: Risk| (r.which_part_of_code@, r.reason@, r.fix@))
}

/// What a review reply body parses to: the findings' fields, the plain
/// report and the backend name, or nothing when the text is not such an
/// object.
pub uninterp spec fn parsed_risks(s: Seq<char>) -> Option<
    (Seq<(Seq<char>, Seq<char>, Seq<char>)>, Seq<char>, Seq<char>),
>;

/// Relies on `serde_json::from_str` and `serde_json::Value`'s accessors:
/// what a text parses to depends on the text alone.
#[verifier::external_body]
fn parse_risks_json(s: &str) -> (r: Option<Risks>)
    ensures
        r is Some <==> parsed_risks(s@) is Some,
        r matches Some(rs) ==> parsed_risks(s@) == Some(
            (spec_risk_views(rs.risks@), rs.plain_risks@, rs.backend@),
        ),
{
    let v: serde_json::Value = serde_json::from_str(s).ok()?;
    let mut risks = Vec::new();
    for item in v.get("risks")?.as_array()? {
        risks.push(Risk {
            which_part_of_code: item.get("which_part_of_code")?.as_str()?.to_string(),
            reason: item.get("reason")?.as_str()?.to_string(),
            fix: item.get("fix")?.as_str()?.to_string(),
        });
    }
    let plain_risks = v.get("plain_risks")?.as_str()?.to_string();
    let backend = v.get("backend")?.as_str()?.to_string();
    Some(Risks { risks, plain_risks, backend })
}

/// Decode a review reply body, or report that the server's answer did
/// not carry a readable risk report.
pub fn parse_risks(s: &str) -> (r: Result<Risks, CustomError>)
    ensures
        r is Ok <==> parsed_risks(s@) is Some,
        r matches Ok(rs) ==> parsed_risks(s@) == Some(
            (spec_risk_views(rs.risks@), rs.plain_risks@, rs.backend@),
        ),
        r is Err ==> r == Err::<Risks, CustomError>(CustomError::BodyMissing),
{
    match parse_risks_json(s) {
        Some(rs) => Ok(rs),
        None => Err(CustomError::BodyMissing),
    }
}

impl Risks {
    /// Whether the structured findings carry this report's content:
    /// exactly when the backend names itself `openai`. Any other backend
    /// answers in the plain-text report instead.
    pub fn use_structured(&self) -> (r: bool)
        ensures
            r <==> self.backend@ == ("openai")@,
    {
        self.backend.eq(&String::from_str("openai"))
    }
}

} // verus!