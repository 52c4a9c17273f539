//! Merge requests, as GitLab reports them.

use vstd::prelude::*;
use crate::data::merge_request::{MergeRequest, MergeRequestStatus, MergeRequestView};
use crate::data::project::Project;
use crate::data::user::User;
use crate::forge::{ForgeError, ForgeTask, ForgeTaskOutcome};
use crate::gitlab::forge::GitlabForge;
use crate::objects::vec::data::{Refs, Stamped};
use crate::objects::vec::{find_key, lemma_upsert, record_of, upsert, VecIndex, VecLookupView};
use crate::text::{str_eq, string_or_empty, text_or_empty};
use crate::time::Timestamp;

verus! {

/// A merge request in a listing.
#[derive(Debug)]
pub struct GitlabMergeRequest {
    pub iid: u64,
}

/// The tasks that update each merge request of a listing of `project`, in
/// its order.
pub open spec fn merge_request_updates(project: u64, listed: Seq<GitlabMergeRequest>) -> Seq<
    ForgeTask,
> {
    Seq::new(
        listed.len(),
        |i: int| ForgeTask::UpdateMergeRequest { project, merge_request: listed[i].iid },
    )
}

/// Ask for an update of every merge request that GitLab listed for `project`.
pub fn discover_merge_requests(project: u64, listed: Vec<GitlabMergeRequest>) -> (r:
    ForgeTaskOutcome)
    ensures
        r.additional_tasks@ == merge_request_updates(project, listed@),
        r.task_delay is None,
{
    let mut tasks: Vec<ForgeTask> = Vec::new();
    let mut i: usize = 0;
    while i < listed.len()
        invariant
            i <= listed.len(),
            tasks@ == merge_request_updates(project, listed@.subrange(0, i as int)),
        decreases listed.len() - i,
    {
        tasks.push(ForgeTask::UpdateMergeRequest { project, merge_request: listed[i].iid });
        assert(tasks@ =~= merge_request_updates(project, listed@.subrange(0, i + 1)));
        i += 1;
    }
    assert(listed@.subrange(0, listed@.len() as int) =~= listed@);
    ForgeTaskOutcome::with_tasks(tasks)
}

/// The author of a merge request.
#[derive(Debug)]
pub struct GitlabAuthor {
    pub id: u64,
}

/// The state of a merge request, as GitLab names it.
#[derive(Debug, Clone, Copy, PartialEq, Eq, Structural)]
pub enum GitlabMergeState {
    /// `opened`
    Opened,
    /// `closed`
    Closed,
    /// `reopened`
    Reopened,
    /// `merged`
    Merged,
    /// `locked`
    Locked,
}

impl GitlabMergeState {
    /// The state that GitLab writes as `name`.
    pub open spec fn spec_from_name(name: Seq<char>) -> Option<GitlabMergeState> {
        if name == "opened"@ {
            Some(GitlabMergeState::Opened)
        } else if name == "closed"@ {
            Some(GitlabMergeState::Closed)
        } else if name == "reopened"@ {
            Some(GitlabMergeState::Reopened)
        } else if name == "merged"@ {
            Some(GitlabMergeState::Merged)
        } else if name == "locked"@ {
            Some(GitlabMergeState::Locked)
        } else {
            None
        }
    }

    /// The status of the monitoring model that stands for this state: a
    /// merge request that is opened, reopened or locked is open.
    pub open spec fn spec_into(self) -> MergeRequestStatus {
        match self {
            GitlabMergeState::Opened => MergeRequestStatus::Open,
            GitlabMergeState::Reopened => MergeRequestStatus::Open,
            GitlabMergeState::Locked => MergeRequestStatus::Open,
            GitlabMergeState::Closed => MergeRequestStatus::Closed,
            GitlabMergeState::Merged => MergeRequestStatus::Merged,
        }
    }

    /// The state that GitLab writes as `name`.
    pub fn from_name(name: &str) -> (r: Option<GitlabMergeState>)
        ensures
            r == Self::spec_from_name(name@),
    {
        if str_eq(name, "opened") {
            Some(GitlabMergeState::Opened)
        } else if str_eq(name, "closed") {
            Some(GitlabMergeState::Closed)
        } else if str_eq(name, "reopened") {
            Some(GitlabMergeState::Reopened)
        } else if str_eq(name, "merged") {
            Some(GitlabMergeState::Merged)
        } else if str_eq(name, "locked") {
            Some(GitlabMergeState::Locked)
        } else {
            None
        }
    }

    /// The status of the monitoring model that stands for this state.
    pub fn into_model(self) -> (r: MergeRequestStatus)
        ensures
            r == self.spec_into(),
    {
        match self {
            GitlabMergeState::Opened => MergeRequestStatus::Open,
            GitlabMergeState::Reopened => MergeRequestStatus::Open,
            GitlabMergeState::Locked => MergeRequestStatus::Open,
            GitlabMergeState::Closed => MergeRequestStatus::Closed,
            GitlabMergeState::Merged => MergeRequestStatus::Merged,
        }
    }
}

/// A merge request as GitLab reports it.
#[derive(Debug)]
pub struct GitlabMergeRequestDetails {
    pub id: u64,
    pub iid: u64,
    pub author: GitlabAuthor,
    pub web_url: String,
    pub title: String,
    pub description: String,
    pub state: GitlabMergeState,
    pub source_project_id: Option<u64>,
    pub source_branch: String,
    pub sha: Option<String>,
    pub target_project_id: u64,
    pub target_branch: String,
}

/// The ID of the project that the merge request comes from: the target
/// project where GitLab names no source.
pub open spec fn merge_request_source(gl: GitlabMergeRequestDetails) -> u64 {
    match gl.source_project_id {
        Some(id) => id,
        None => gl.target_project_id,
    }
}

/// The tasks that fetch what the merge request refers to and the store does
/// not hold: the author, the target project, and the source project where it
/// is another one.
pub open spec fn merge_request_fetches(
    storage: VecLookupView,
    gl: GitlabMergeRequestDetails,
) -> Seq<
    ForgeTask,
> {
    let none = Seq::<ForgeTask>::empty();
    let author = if find_key(storage.users, gl.author.id) is None {
        none.push(ForgeTask::UpdateUser { user: gl.author.id })
    } else {
        none
    };
    let target = if find_key(storage.projects, gl.target_project_id) is None {
        author.push(ForgeTask::UpdateProject { project: gl.target_project_id })
    } else {
        author
    };
    if merge_request_source(gl) != gl.target_project_id && find_key(
        storage.projects,
        merge_request_source(gl),
    ) is None {
        target.push(ForgeTask::UpdateProject { project: merge_request_source(gl) })
    } else {
        target
    }
}

/// Whether the store holds everything that the merge request refers to.
pub open spec fn merge_request_resolved(
    storage: VecLookupView,
    gl: GitlabMergeRequestDetails,
) -> bool {
    &&& find_key(storage.users, gl.author.id) is Some
    &&& find_key(storage.projects, gl.target_project_id) is Some
    &&& find_key(storage.projects, merge_request_source(gl)) is Some
}

/// The tasks that follow from a report of a merge request that the task
/// `UpdateMergeRequest { project, merge_request }` asked for: while something
/// is missing, the fetches and the task itself again; else the discovery of
/// the merge request's pipelines.
pub open spec fn merge_request_tasks(
    storage: VecLookupView,
    project: u64,
    merge_request: u64,
    gl: GitlabMergeRequestDetails,
) -> Seq<ForgeTask> {
    if merge_request_resolved(storage, gl) {
        merge_request_fetches(storage, gl).push(
            ForgeTask::DiscoverMergeRequestPipelines { project, merge_request: gl.iid },
        )
    } else {
        merge_request_fetches(storage, gl).push(
            ForgeTask::UpdateMergeRequest { project, merge_request },
        )
    }
}

/// The record of a merge request that the store has not seen, first seen
/// at `now`, before GitLab's report is written into it.
pub open spec fn merge_request_fresh(
    storage: VecLookupView,
    gl: GitlabMergeRequestDetails,
    now: Timestamp,
) -> MergeRequestView {
    MergeRequestView {
        id: gl.iid,
        source_project: VecIndex::at(
            find_key(storage.projects, merge_request_source(gl)).unwrap() as usize,
        ),
        source_branch: Seq::empty(),
        sha: Seq::empty(),
        target_project: VecIndex::at(
            find_key(storage.projects, gl.target_project_id).unwrap() as usize,
        ),
        target_branch: Seq::empty(),
        forge_id: gl.id,
        title: Seq::empty(),
        description: Seq::empty(),
        state: gl.state.spec_into(),
        author: VecIndex::at(find_key(storage.users, gl.author.id).unwrap() as usize),
        url: gl.web_url@,
        cim_fetched_at: now,
        cim_refreshed_at: now,
    }
}

/// The record `base` brought up to date with what GitLab reports at `now`.
/// The projects, the author and the URL stay as they are.
pub open spec fn merge_request_refreshed(
    base: MergeRequestView,
    gl: GitlabMergeRequestDetails,
    now: Timestamp,
) -> MergeRequestView {
    MergeRequestView {
        source_branch: gl.source_branch@,
        sha: text_or_empty(gl.sha),
        target_branch: gl.target_branch@,
        title: gl.title@,
        description: gl.description@,
        state: gl.state.spec_into(),
        cim_refreshed_at: base.cim_fetched_at.spec_latest(now),
        ..base
    }
}

/// The record that the store holds for the merge request after the report,
/// once everything that it refers to is there.
pub open spec fn merge_request_record(
    storage: VecLookupView,
    gl: GitlabMergeRequestDetails,
    now: Timestamp,
) -> MergeRequestView {
    match record_of(storage.merge_requests, gl.id) {
        Some(existing) => merge_request_refreshed(existing, gl, now),
        None => merge_request_refreshed(merge_request_fresh(storage, gl, now), gl, now),
    }
}

/// The store after a report of a merge request: unchanged while something
/// that the merge request refers to is missing.
pub open spec fn merge_request_stored(
    storage: VecLookupView,
    gl: GitlabMergeRequestDetails,
    now: Timestamp,
) -> VecLookupView {
    if merge_request_resolved(storage, gl) {
        VecLookupView {
            merge_requests: upsert(storage.merge_requests, merge_request_record(storage, gl, now)),
            ..storage
        }
    } else {
        storage
    }
}

/// Reconcile a merge request that GitLab reported at `now` into the store.
///
/// `project` and `merge_request` are those of the task that asked for the
/// report.
pub fn update_merge_request_impl(
    forge: &mut GitlabForge,
    project: u64,
    merge_request: u64,
    gl_merge_request: GitlabMergeRequestDetails,
    now: Timestamp,
) -> (r: Result<ForgeTaskOutcome, ForgeError>)
    ensures
        r matches Ok(outcome) && outcome.additional_tasks@ == merge_request_tasks(
            old(forge).storage@,
            project,
            merge_request,
            gl_merge_request,
        ) && outcome.task_delay is None,
        final(forge).instance_idx == old(forge).instance_idx,
        final(forge).storage@ == merge_request_stored(old(forge).storage@, gl_merge_request, now),
        old(forge).wf() && old(forge).storage@.refs_valid() ==> final(forge).wf()
            && final(forge).storage@.refs_valid(),
        old(forge).storage@.ids_unique() ==> final(forge).storage@.ids_unique(),
        old(forge).storage@.stamps_ordered() ==> final(forge).storage@.stamps_ordered(),
{
    let ghost before = forge.storage@;
    let mut tasks: Vec<ForgeTask> = Vec::new();
    let author_idx = match forge.storage.find_user(gl_merge_request.author.id) {
        Some(idx) => Some(idx),
        None => {
            tasks.push(ForgeTask::UpdateUser { user: gl_merge_request.author.id });
            None
        },
    };
    let target_project_idx = match forge.storage.find_project(gl_merge_request.target_project_id) {
        Some(idx) => Some(idx),
        None => {
            tasks.push(ForgeTask::UpdateProject { project: gl_merge_request.target_project_id });
            None
        },
    };
    let source_project_idx = match gl_merge_request.source_project_id {
        Some(source_project_id) => {
            if source_project_id == gl_merge_request.target_project_id {
                target_project_idx
            } else {
                match forge.storage.find_project(source_project_id) {
                    Some(idx) => Some(idx),
                    None => {
                        tasks.push(ForgeTask::UpdateProject { project: source_project_id });
                        None
                    },
                }
            }
        },
        // Just act as if the MR came from the target project itself.
        None => target_project_idx,
    };
    assert(tasks@ == merge_request_fetches(before, gl_merge_request));
    let (author_idx, target_project_idx, source_project_idx) = match (
        author_idx,
        target_project_idx,
        source_project_idx,
    ) {
        (Some(a), Some(t), Some(s)) => (a, t, s),
        _ => {
            tasks.push(ForgeTask::UpdateMergeRequest { project, merge_request });
            return Ok(ForgeTaskOutcome::with_tasks(tasks));
        },
    };
    tasks.push(
        ForgeTask::DiscoverMergeRequestPipelines { project, merge_request: gl_merge_request.iid },
    );
    // Create a merge request entry.
    let mut entry = match forge.storage.find_merge_request(gl_merge_request.id) {
        Some(idx) => match forge.storage.lookup_merge_request(&idx) {
            Some(existing) => existing.clone(),
            None => {
                assert(false);
                return Err(ForgeError::Other { details: String::new() });
            },
        },
        None => {
            let built = MergeRequest::builder().id(gl_merge_request.iid).source_project(
                source_project_idx,
            ).target_project(target_project_idx).forge_id(gl_merge_request.id).state(
                gl_merge_request.state.into_model(),
            ).author(author_idx).url(gl_merge_request.web_url.as_str()).build_at(now);
            match built {
                Ok(fresh) => fresh,
                Err(_) => {
                    assert(false);
                    return Err(ForgeError::Other { details: String::new() });
                },
            }
        },
    };
    entry.source_branch = gl_merge_request.source_branch;
    entry.sha = string_or_empty(gl_merge_request.sha);
    entry.target_branch = gl_merge_request.target_branch;
    entry.title = gl_merge_request.title;
    entry.description = gl_merge_request.description;
    entry.state = gl_merge_request.state.into_model();
    entry.cim_refreshed_at = entry.cim_fetched_at.latest(now);
    proof {
        assert(entry@ == merge_request_record(before, gl_merge_request, now));
        lemma_upsert(before.merge_requests, entry@);
        if forge.wf() && before.refs_valid() {
            match record_of(before.merge_requests, gl_merge_request.id) {
                Some(existing) => {
                    assert(existing.refs_within(before.counts()));
                },
                None => {},
            }
        }
    }
    // Store the merge request in the storage.
    forge.storage.store_merge_request(entry);
    proof {
        forge.storage.lemma_fits();
        if before.stamps_ordered() {
            match record_of(before.merge_requests, gl_merge_request.id) {
                Some(existing) => {
                    assert(existing.in_order());
                },
                None => {},
            }
            before.lemma_store_merge_request_keeps_stamps(
                merge_request_record(before, gl_merge_request, now),
            );
        }
        if old(forge).wf() && before.refs_valid() {
            before.lemma_store_merge_request_keeps_refs(
                merge_request_record(before, gl_merge_request, now),
            );
        }
    }
    Ok(ForgeTaskOutcome::with_tasks(tasks))
}

/// Reconcile a merge request that GitLab just reported into the store.
pub fn update_merge_request(
    forge: &mut GitlabForge,
    project: u64,
    merge_request: u64,
    gl_merge_request: GitlabMergeRequestDetails,
) -> (r: Result<ForgeTaskOutcome, ForgeError>)
    ensures
        r matches Ok(outcome) && outcome.additional_tasks@ == merge_request_tasks(
            old(forge).storage@,
            project,
            merge_request,
            gl_merge_request,
        ) && outcome.task_delay is None,
        final(forge).instance_idx == old(forge).instance_idx,
        exists|now: Timestamp|
            final(forge).storage@ == #[trigger] merge_request_stored(
                old(forge).storage@,
                gl_merge_request,
                now,
            ),
        old(forge).wf() && old(forge).storage@.refs_valid() ==> final(forge).wf()
            && final(forge).storage@.refs_valid(),
        old(forge).storage@.ids_unique() ==> final(forge).storage@.ids_unique(),
        old(forge).storage@.stamps_ordered() ==> final(forge).storage@.stamps_ordered(),
{
    update_merge_request_impl(forge, project, merge_request, gl_merge_request, Timestamp::now())
}

} // verus!
