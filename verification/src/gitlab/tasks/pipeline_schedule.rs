//! Pipeline schedules, as GitLab reports them.

use vstd::prelude::*;
use crate::data::pipeline_schedule::{PipelineSchedule, PipelineScheduleView};
use crate::data::pipeline_variables::PipelineVariablesView;
use crate::forge::{ForgeError, ForgeTask, ForgeTaskOutcome};
use crate::gitlab::forge::GitlabForge;
use crate::gitlab::tasks::pipeline_variables::{gitlab_variables, wire_pairs, GitlabPipelineVariable};
use crate::objects::vec::data::{Refs, Stamped};
use crate::objects::vec::{find_key, lemma_upsert, record_of, upsert, VecIndex, VecLookupView};
use crate::time::Timestamp;

verus! {

/// A pipeline schedule in a listing.
#[derive(Debug)]
pub struct GitlabPipelineSchedule {
    pub id: u64,
}

/// The tasks that update each schedule of a listing of `project`, in its
/// order.
pub open spec fn pipeline_schedule_updates(
    project: u64,
    listed: Seq<GitlabPipelineSchedule>,
) -> Seq<ForgeTask> {
    Seq::new(
        listed.len(),
        |i: int| ForgeTask::UpdatePipelineSchedule { project, schedule: listed[i].id },
    )
}

/// Ask for an update of every pipeline schedule that GitLab listed for
/// `project`.
pub fn discover_pipeline_schedules(project: u64, listed: Vec<GitlabPipelineSchedule>) -> (r:
    ForgeTaskOutcome)
    ensures
        r.additional_tasks@ == pipeline_schedule_updates(project, listed@),
        r.task_delay is None,
{
    let mut tasks: Vec<ForgeTask> = Vec::new();
    let mut i: usize = 0;
    while i < listed.len()
        invariant
            i <= listed.len(),
            tasks@ == pipeline_schedule_updates(project, listed@.subrange(0, i as int)),
        decreases listed.len() - i,
    {
        tasks.push(ForgeTask::UpdatePipelineSchedule { project, schedule: listed[i].id });
        assert(tasks@ =~= pipeline_schedule_updates(project, listed@.subrange(0, i + 1)));
        i += 1;
    }
    assert(listed@.subrange(0, listed@.len() as int) =~= listed@);
    ForgeTaskOutcome::with_tasks(tasks)
}

/// The owner of a pipeline schedule.
#[derive(Debug)]
pub struct GitlabOwner {
    pub id: u64,
}

/// A pipeline schedule as GitLab reports it.
#[derive(Debug)]
pub struct GitlabPipelineScheduleDetails {
    pub id: u64,
    pub description: String,
    pub ref_: String,
    pub variables: Vec<GitlabPipelineVariable>,
    pub created_at: Timestamp,
    pub updated_at: Timestamp,
    pub owner: GitlabOwner,
    pub active: bool,
    pub next_run_at: Option<Timestamp>,
}

/// The tasks that fetch what the schedule refers to and the store does not
/// hold: the owner and the project.
pub open spec fn pipeline_schedule_fetches(
    storage: VecLookupView,
    project: u64,
    gl: GitlabPipelineScheduleDetails,
) -> Seq<ForgeTask> {
    let none = Seq::<ForgeTask>::empty();
    let owner = if find_key(storage.users, gl.owner.id) is None {
        none.push(ForgeTask::UpdateUser { user: gl.owner.id })
    } else {
        none
    };
    if find_key(storage.projects, project) is None {
        owner.push(ForgeTask::UpdateProject { project })
    } else {
        owner
    }
}

/// Whether the store holds everything that the schedule refers to.
pub open spec fn pipeline_schedule_resolved(
    storage: VecLookupView,
    project: u64,
    gl: GitlabPipelineScheduleDetails,
) -> bool {
    &&& find_key(storage.users, gl.owner.id) is Some
    &&& find_key(storage.projects, project) is Some
}

/// The tasks that follow from a report of a schedule of `project`: while
/// something is missing, the fetches and the update of the schedule again.
pub open spec fn pipeline_schedule_tasks(
    storage: VecLookupView,
    project: u64,
    gl: GitlabPipelineScheduleDetails,
) -> Seq<ForgeTask> {
    if pipeline_schedule_resolved(storage, project, gl) {
        pipeline_schedule_fetches(storage, project, gl)
    } else {
        pipeline_schedule_fetches(storage, project, gl).push(
            ForgeTask::UpdatePipelineSchedule { project, schedule: gl.id },
        )
    }
}

/// The record of a schedule that the store has not seen, first seen at
/// `now`, before GitLab's report is written into it.
pub open spec fn pipeline_schedule_fresh(
    storage: VecLookupView,
    project: u64,
    gl: GitlabPipelineScheduleDetails,
    now: Timestamp,
) -> PipelineScheduleView {
    PipelineScheduleView {
        name: Seq::empty(),
        project: VecIndex::at(find_key(storage.projects, project).unwrap() as usize),
        ref_: gl.ref_@,
        variables: PipelineVariablesView::empty(),
        forge_id: gl.id,
        created_at: gl.created_at,
        updated_at: gl.updated_at,
        owner: VecIndex::at(find_key(storage.users, gl.owner.id).unwrap() as usize),
        active: false,
        next_run: None,
        cim_fetched_at: now,
        cim_refreshed_at: now,
    }
}

/// The record `base` brought up to date with what GitLab reports at `now`.
/// The project and the time of creation stay as they are.
pub open spec fn pipeline_schedule_refreshed(
    storage: VecLookupView,
    base: PipelineScheduleView,
    gl: GitlabPipelineScheduleDetails,
    now: Timestamp,
) -> PipelineScheduleView {
    PipelineScheduleView {
        name: gl.description@,
        ref_: gl.ref_@,
        updated_at: gl.updated_at,
        active: gl.active,
        next_run: gl.next_run_at,
        owner: VecIndex::at(find_key(storage.users, gl.owner.id).unwrap() as usize),
        variables: PipelineVariablesView::collect(wire_pairs(gl.variables@)),
        cim_refreshed_at: base.cim_fetched_at.spec_latest(now),
        ..base
    }
}

/// The record that the store holds for the schedule after the report, once
/// everything that it refers to is there.
pub open spec fn pipeline_schedule_record(
    storage: VecLookupView,
    project: u64,
    gl: GitlabPipelineScheduleDetails,
    now: Timestamp,
) -> PipelineScheduleView {
    match record_of(storage.pipeline_schedules, gl.id) {
        Some(existing) => pipeline_schedule_refreshed(storage, existing, gl, now),
        None => pipeline_schedule_refreshed(
            storage,
            pipeline_schedule_fresh(storage, project, gl, now),
            gl,
            now,
        ),
    }
}

/// The store after a report of a schedule: unchanged while something that
/// the schedule refers to is missing.
pub open spec fn pipeline_schedule_stored(
    storage: VecLookupView,
    project: u64,
    gl: GitlabPipelineScheduleDetails,
    now: Timestamp,
) -> VecLookupView {
    if pipeline_schedule_resolved(storage, project, gl) {
        VecLookupView {
            pipeline_schedules: upsert(
                storage.pipeline_schedules,
                pipeline_schedule_record(storage, project, gl, now),
            ),
            ..storage
        }
    } else {
        storage
    }
}

/// Reconcile a pipeline schedule of `project` that GitLab reported at `now`
/// into the store.
pub fn update_pipeline_schedule_impl(
    forge: &mut GitlabForge,
    project: u64,
    gl_pipeline_schedule: GitlabPipelineScheduleDetails,
    now: Timestamp,
) -> (r: Result<ForgeTaskOutcome, ForgeError>)
    ensures
        r matches Ok(outcome) && outcome.additional_tasks@ == pipeline_schedule_tasks(
            old(forge).storage@,
            project,
            gl_pipeline_schedule,
        ) && outcome.task_delay is None,
        final(forge).instance_idx == old(forge).instance_idx,
        final(forge).storage@ == pipeline_schedule_stored(
            old(forge).storage@,
            project,
            gl_pipeline_schedule,
            now,
        ),
        old(forge).wf() && old(forge).storage@.refs_valid() ==> final(forge).wf()
            && final(forge).storage@.refs_valid(),
        old(forge).storage@.ids_unique() ==> final(forge).storage@.ids_unique(),
        old(forge).storage@.stamps_ordered() ==> final(forge).storage@.stamps_ordered(),
{
    let ghost before = forge.storage@;
    let mut tasks: Vec<ForgeTask> = Vec::new();
    let pipeline_schedule = gl_pipeline_schedule.id;
    let user_idx = match forge.storage.find_user(gl_pipeline_schedule.owner.id) {
        Some(idx) => Some(idx),
        None => {
            tasks.push(ForgeTask::UpdateUser { user: gl_pipeline_schedule.owner.id });
            None
        },
    };
    let project_idx = match forge.storage.find_project(project) {
        Some(idx) => Some(idx),
        None => {
            tasks.push(ForgeTask::UpdateProject { project });
            None
        },
    };
    let (user_idx, project_idx) = match (user_idx, project_idx) {
        (Some(u), Some(p)) => (u, p),
        _ => {
            tasks.push(ForgeTask::UpdatePipelineSchedule { project, schedule: pipeline_schedule });
            return Ok(ForgeTaskOutcome::with_tasks(tasks));
        },
    };
    // Create a pipeline schedule entry.
    let mut entry = match forge.storage.find_pipeline_schedule(pipeline_schedule) {
        Some(idx) => match forge.storage.lookup_pipeline_schedule(&idx) {
            Some(existing) => existing.clone(),
            None => {
                assert(false);
                return Err(ForgeError::Other { details: String::new() });
            },
        },
        None => {
            let built = PipelineSchedule::builder().forge_id(pipeline_schedule).project(
                project_idx,
            ).ref_(gl_pipeline_schedule.ref_.as_str()).created_at(
                gl_pipeline_schedule.created_at,
            ).updated_at(gl_pipeline_schedule.updated_at).owner(user_idx).build_at(now);
            match built {
                Ok(fresh) => fresh,
                Err(_) => {
                    assert(false);
                    return Err(ForgeError::Other { details: String::new() });
                },
            }
        },
    };
    entry.name = gl_pipeline_schedule.description;
    entry.ref_ = gl_pipeline_schedule.ref_;
    entry.updated_at = gl_pipeline_schedule.updated_at;
    entry.active = gl_pipeline_schedule.active;
    entry.next_run = gl_pipeline_schedule.next_run_at;
    entry.owner = user_idx;
    entry.variables = gitlab_variables(gl_pipeline_schedule.variables);
    entry.cim_refreshed_at = entry.cim_fetched_at.latest(now);
    proof {
        assert(entry@ == pipeline_schedule_record(before, project, gl_pipeline_schedule, now));
        lemma_upsert(before.pipeline_schedules, entry@);
        if forge.wf() && before.refs_valid() {
            match record_of(before.pipeline_schedules, gl_pipeline_schedule.id) {
                Some(existing) => {
                    assert(existing.refs_within(before.counts()));
                },
                None => {},
            }
        }
    }
    // Store the pipeline schedule in the storage.
    forge.storage.store_pipeline_schedule(entry);
    proof {
        forge.storage.lemma_fits();
        if before.stamps_ordered() {
            match record_of(before.pipeline_schedules, gl_pipeline_schedule.id) {
                Some(existing) => {
                    assert(existing.in_order());
                },
                None => {},
            }
            before.lemma_store_pipeline_schedule_keeps_stamps(
                pipeline_schedule_record(before, project, gl_pipeline_schedule, now),
            );
        }
        if old(forge).wf() && before.refs_valid() {
            before.lemma_store_pipeline_schedule_keeps_refs(
                pipeline_schedule_record(before, project, gl_pipeline_schedule, now),
            );
        }
    }
    Ok(ForgeTaskOutcome::with_tasks(tasks))
}

/// Reconcile a pipeline schedule of `project` that GitLab just reported into
/// the store.
pub fn update_pipeline_schedule(
    forge: &mut GitlabForge,
    project: u64,
    gl_pipeline_schedule: GitlabPipelineScheduleDetails,
) -> (r: Result<ForgeTaskOutcome, ForgeError>)
    ensures
        r matches Ok(outcome) && outcome.additional_tasks@ == pipeline_schedule_tasks(
            old(forge).storage@,
            project,
            gl_pipeline_schedule,
        ) && outcome.task_delay is None,
        final(forge).instance_idx == old(forge).instance_idx,
        exists|now: Timestamp|
            final(forge).storage@ == #[trigger] pipeline_schedule_stored(
                old(forge).storage@,
                project,
                gl_pipeline_schedule,
                now,
            ),
        old(forge).wf() && old(forge).storage@.refs_valid() ==> final(forge).wf()
            && final(forge).storage@.refs_valid(),
        old(forge).storage@.ids_unique() ==> final(forge).storage@.ids_unique(),
        old(forge).storage@.stamps_ordered() ==> final(forge).storage@.stamps_ordered(),
{
    update_pipeline_schedule_impl(forge, project, gl_pipeline_schedule, Timestamp::now())
}

} // verus!
