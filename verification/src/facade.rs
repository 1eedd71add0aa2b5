//! The application facade: it binds the validated options and exposes
//! the two read operations of the tool. Each operation is one
//! request/map/return cycle: the facade describes the first-page list
//! request to perform (page size 50, page index 1, the configured
//! account and repository), the caller performs it, and the facade
//! maps the fetched page items into local record types, keeping the
//! upstream order and never yielding more than one page's worth.

use crate::config::AppOptions;
use vstd::prelude::*;

verus! {

/// Page size of every list request: only the first page, of at most
/// this many items, is ever fetched.
pub const PAGE_SIZE: u32 = 50;

/// Page index of every list request: the first page.
pub const FIRST_PAGE: u32 = 1;

/// One workflow-run record of the fetched page, projected to plain
/// values.
#[derive(Debug)]
pub struct RunItem {
    pub id: u64,
    pub name: String,
    pub status: String,
}

/// One job record of the fetched page, projected to plain values.
#[derive(Debug)]
pub struct JobItem {
    pub id: u64,
    pub run_id: u64,
    pub name: String,
    pub status: String,
}

/// Read-only projection of one workflow-run record, as returned to
/// the caller.
#[derive(Debug)]
pub struct RunInfo {
    pub id: u64,
    pub name: String,
}

/// Read-only projection of one job record, as returned to the caller.
#[derive(Debug)]
pub struct JobInfo {
    pub id: u64,
    pub run_id: u64,
    pub name: String,
}

/// Why a fetch did not yield a page.
#[derive(Debug, Clone, Copy, PartialEq, Eq, Structural)]
pub enum FetchError {
    /// The request did not complete.
    Network,
    /// The upstream API rejected the credentials.
    Authentication,
    /// The account, repository or run is unknown upstream.
    NotFound,
}

/// A list request for the workflow runs of one repository.
#[derive(Debug)]
pub struct RunsRequest {
    pub owner: String,
    pub repo: String,
    pub per_page: u32,
    pub page: u32,
}

/// A list request for the jobs of one workflow run.
#[derive(Debug)]
pub struct JobsRequest {
    pub owner: String,
    pub repo: String,
    pub run_id: u64,
    pub per_page: u32,
    pub page: u32,
}

/// The facade: the validated options it was constructed with.
#[derive(Debug)]
pub struct App {
    pub opts: AppOptions,
}

/// How many of the fetched items are returned: all of them, up to the
/// page size.
pub open spec fn capped_len(n: int) -> int {
    if n <= PAGE_SIZE as int {
        n
    } else {
        PAGE_SIZE as int
    }
}

/// `info` is the projection of the run record `item`.
pub open spec fn run_info_matches(info: RunInfo, item: RunItem) -> bool {
    &&& info.id == item.id
    &&& info.name@ == item.name@
}

/// `info` is the projection of the job record `item`.
pub open spec fn job_info_matches(info: JobInfo, item: JobItem) -> bool {
    &&& info.id == item.id
    &&& info.run_id == item.run_id
    &&& info.name@ == item.name@
}

/// `infos` projects the fetched `items` one for one and in their
/// order, capped at the page size.
pub open spec fn runs_mapped(items: Seq<RunItem>, infos: Seq<RunInfo>) -> bool {
    &&& infos.len() == capped_len(items.len() as int)
    &&& forall|i: int| 0 <= i < infos.len() ==> run_info_matches(#[trigger] infos[i], items[i])
}

/// `infos` projects the fetched `items` one for one and in their
/// order, capped at the page size.
pub open spec fn jobs_mapped(items: Seq<JobItem>, infos: Seq<JobInfo>) -> bool {
    &&& infos.len() == capped_len(items.len() as int)
    &&& forall|i: int| 0 <= i < infos.len() ==> job_info_matches(#[trigger] infos[i], items[i])
}

impl App {
    /// Binds the validated options.
    pub fn new(opts: AppOptions) -> (app: App)
        ensures
            app.opts == opts,
    {
        App { opts }
    }

    /// The one list request `get_runs` maps the outcome of: the first
    /// page, of at most `PAGE_SIZE` items, of all workflow runs of
    /// the configured account and repository.
    pub fn runs_request(&self) -> (req: RunsRequest)
        ensures
            req.owner@ == self.opts.gh_user@,
            req.repo@ == self.opts.repo_name@,
            req.per_page == PAGE_SIZE,
            req.page == FIRST_PAGE,
    {
        RunsRequest {
            owner: self.opts.gh_user.clone(),
            repo: self.opts.repo_name.clone(),
            per_page: PAGE_SIZE,
            page: FIRST_PAGE,
        }
    }

    /// The one list request `get_jobs` maps the outcome of: the first
    /// page, of at most `PAGE_SIZE` items, of the jobs of the given
    /// run under the configured account and repository.
    pub fn jobs_request(&self, run_id: u64) -> (req: JobsRequest)
        ensures
            req.owner@ == self.opts.gh_user@,
            req.repo@ == self.opts.repo_name@,
            req.run_id == run_id,
            req.per_page == PAGE_SIZE,
            req.page == FIRST_PAGE,
    {
        JobsRequest {
            owner: self.opts.gh_user.clone(),
            repo: self.opts.repo_name.clone(),
            run_id,
            per_page: PAGE_SIZE,
            page: FIRST_PAGE,
        }
    }

    /// Maps the outcome of the runs request: on a fetched page, the
    /// ordered projections of its items, at most `PAGE_SIZE` of them;
    /// on a failed fetch, that failure, unchanged.
    pub fn get_runs(&self, fetched: Result<Vec<RunItem>, FetchError>) -> (r: Result<
        Vec<RunInfo>,
        FetchError,
    >)
        ensures
            r is Ok <==> fetched is Ok,
            fetched matches Err(e) ==> r == Err::<Vec<RunInfo>, FetchError>(e),
            fetched matches Ok(items) ==> r matches Ok(infos) && runs_mapped(items@, infos@),
            r matches Ok(infos) ==> infos@.len() <= PAGE_SIZE,
    {
        match fetched {
            Ok(items) => Ok(map_runs(&items)),
            Err(e) => Err(e),
        }
    }

    /// Maps the outcome of the jobs request for one run: on a fetched
    /// page, the ordered projections of its items, at most
    /// `PAGE_SIZE` of them (an empty page yields an empty sequence);
    /// on a failed fetch, that failure, unchanged.
    pub fn get_jobs(&self, fetched: Result<Vec<JobItem>, FetchError>) -> (r: Result<
        Vec<JobInfo>,
        FetchError,
    >)
        ensures
            r is Ok <==> fetched is Ok,
            fetched matches Err(e) ==> r == Err::<Vec<JobInfo>, FetchError>(e),
            fetched matches Ok(items) ==> r matches Ok(infos) && jobs_mapped(items@, infos@),
            r matches Ok(infos) ==> infos@.len() <= PAGE_SIZE,
    {
        match fetched {
            Ok(items) => Ok(map_jobs(&items)),
            Err(e) => Err(e),
        }
    }
}

/// Projects the fetched run records in order, at most a page's worth.
fn map_runs(items: &Vec<RunItem>) -> (infos: Vec<RunInfo>)
    ensures
        runs_mapped(items@, infos@),
{
    let n: usize = if items.len() > PAGE_SIZE as usize {
        PAGE_SIZE as usize
    } else {
        items.len()
    };
    let mut infos: Vec<RunInfo> = Vec::new();
    let mut i: usize = 0;
    while i < n
        invariant
            n == capped_len(items@.len() as int),
            n <= items@.len(),
            i <= n,
            infos@.len() == i,
            forall|j: int| 0 <= j < i ==> run_info_matches(#[trigger] infos@[j], items@[j]),
        decreases n - i,
    {
        let item = &items[i];
        infos.push(RunInfo { id: item.id, name: item.name.clone() });
        i += 1;
    }
    infos
}

/// Projects the fetched job records in order, at most a page's worth.
fn map_jobs(items: &Vec<JobItem>) -> (infos: Vec<JobInfo>)
    ensures
        jobs_mapped(items@, infos@),
{
    let n: usize = if items.len() > PAGE_SIZE as usize {
        PAGE_SIZE as usize
    } else {
        items.len()
    };
    let mut infos: Vec<JobInfo> = Vec::new();
    let mut i: usize = 0;
    while i < n
        invariant
            n == capped_len(items@.len() as int),
            n <= items@.len(),
            i <= n,
            infos@.len() == i,
            forall|j: int| 0 <= j < i ==> job_info_matches(#[trigger] infos@[j], items@[j]),
        decreases n - i,
    {
        let item = &items[i];
        infos.push(JobInfo { id: item.id, run_id: item.run_id, name: item.name.clone() });
        i += 1;
    }
    infos
}

} // verus!
