//! The two parallel backend resource lineages.
//!
//! The backend exposes the same logical operations — read a task's status,
//! follow a task's history — under two URL path families ("dev" and
//! "cover"). A given task id belongs to one of them, but the client cannot
//! know which in advance, so callers try the dev lineage first and fall
//! back to the cover lineage.

use vstd::prelude::*;
use vstd::string::StringExecFns;

verus! {

/// Path family for the status ("tasks") operation.
#[derive(Copy, Clone, Debug, PartialEq, Eq, Structural)]
pub enum StatusEndPoint {
    DevStatus,
    CoverStatus,
}

/// Path family for the history-streaming operation.
#[derive(Copy, Clone, Debug, PartialEq, Eq, Structural)]
pub enum HistoryEndPoint {
    DevHistory,
    CoverHistory,
}

impl StatusEndPoint {
    /// The path template of this lineage's status resource.
    pub open spec fn spec_path(self) -> Seq<char> {
        match self {
            StatusEndPoint::DevStatus => "/dev/tasks/"@,
            StatusEndPoint::CoverStatus => "/cover/tasks/"@,
        }
    }

    /// The path fragment inserted between the base URL and the task id.
    pub fn to_string(&self) -> (r: String)
        ensures
            r@ == self.spec_path(),
    {
        match self {
            StatusEndPoint::DevStatus => "/dev/tasks/".to_owned(),
            StatusEndPoint::CoverStatus => "/cover/tasks/".to_owned(),
        }
    }
}

impl HistoryEndPoint {
    /// The path template of this lineage's history resource.
    pub open spec fn spec_path(self) -> Seq<char> {
        match self {
            HistoryEndPoint::DevHistory => "/dev/histories/"@,
            HistoryEndPoint::CoverHistory => "/cover/histories/"@,
        }
    }

    /// The path fragment inserted between the base URL and the task id.
    pub fn to_string(&self) -> (r: String)
        ensures
            r@ == self.spec_path(),
    {
        match self {
            HistoryEndPoint::DevHistory => "/dev/histories/".to_owned(),
            HistoryEndPoint::CoverHistory => "/cover/histories/".to_owned(),
        }
    }
}

/// Full URL of a fixed-path operation under the base URL.
pub fn operation_url(base: &str, path: &str) -> (r: String)
    ensures
        r@ == base@ + path@,
{
    let mut url = base.to_owned();
    url.append(path);
    url
}

/// Full URL of the status resource for `id` under `endpoint`'s lineage.
pub fn status_url(base: &str, endpoint: StatusEndPoint, id: &str) -> (r: String)
    ensures
        r@ == base@ + endpoint.spec_path() + id@,
{
    let mut url = base.to_owned();
    url.append(endpoint.to_string().as_str());
    url.append(id);
    url
}

/// Full URL of the history resource for `id` under `endpoint`'s lineage.
pub fn history_url(base: &str, endpoint: HistoryEndPoint, id: &str) -> (r: String)
    ensures
        r@ == base@ + endpoint.spec_path() + id@,
{
    let mut url = base.to_owned();
    url.append(endpoint.to_string().as_str());
    url.append(id);
    url
}

} // verus!
