//! Projects, as GitLab reports them.

use vstd::prelude::*;
use crate::data::instance::Instance;
use crate::data::project::{Project, ProjectView};
use crate::forge::{ForgeError, ForgeTask, ForgeTaskOutcome};
use crate::gitlab::forge::GitlabForge;
use crate::objects::vec::data::{Refs, Stamped};
use crate::objects::vec::{
    lemma_upsert, record_of, upsert, VecIndex, VecLookup, VecLookupView,
};
use crate::text::str_eq;
use crate::time::Timestamp;

verus! {

/// How far a feature of a project is open.
#[derive(Debug, Clone, Copy, PartialEq, Eq, Structural)]
pub enum AccessLevel {
    /// `enabled`: open to everyone who can see the project.
    Enabled,
    /// `private`: open to the members of the project.
    Private,
    /// `disabled`: switched off.
    Disabled,
}

impl AccessLevel {
    /// The level that GitLab writes as `name`.
    pub open spec fn spec_from_name(name: Seq<char>) -> Option<AccessLevel> {
        if name == "enabled"@ {
            Some(AccessLevel::Enabled)
        } else if name == "private"@ {
            Some(AccessLevel::Private)
        } else if name == "disabled"@ {
            Some(AccessLevel::Disabled)
        } else {
            None
        }
    }

    /// Whether the feature is there at all.
    pub open spec fn spec_is_enabled(self) -> bool {
        self != AccessLevel::Disabled
    }

    /// The level that GitLab writes as `name`.
    pub fn from_name(name: &str) -> (r: Option<AccessLevel>)
        ensures
            r == Self::spec_from_name(name@),
    {
        if str_eq(name, "enabled") {
            Some(AccessLevel::Enabled)
        } else if str_eq(name, "private") {
            Some(AccessLevel::Private)
        } else if str_eq(name, "disabled") {
            Some(AccessLevel::Disabled)
        } else {
            None
        }
    }

    /// Whether the feature is there at all.
    pub fn is_enabled(self) -> (r: bool)
        ensures
            r == self.spec_is_enabled(),
    {
        match self {
            AccessLevel::Enabled => true,
            AccessLevel::Private => true,
            AccessLevel::Disabled => false,
        }
    }
}

/// The project that a project was forked from.
#[derive(Debug)]
pub struct ParentProject {
    pub id: u64,
}

/// A project as GitLab reports it.
#[derive(Debug)]
pub struct GitlabProject {
    pub id: u64,
    pub name: String,
    pub web_url: String,
    pub path_with_namespace: String,
    pub merge_requests_access_level: AccessLevel,
    pub builds_access_level: AccessLevel,
    pub environments_access_level: AccessLevel,
    pub forked_from_project: Option<ParentProject>,
    pub updated_at: Timestamp,
}

/// The record of a project from which nothing but its ID and instance is
/// known, first seen at `now`.
pub open spec fn project_fresh(
    id: u64,
    instance: VecIndex<Instance>,
    now: Timestamp,
) -> ProjectView {
    ProjectView {
        name: Seq::empty(),
        forge_id: id,
        url: Seq::empty(),
        instance,
        instance_path: Seq::empty(),
        cim_fetched_at: now,
        cim_refreshed_at: now,
    }
}

/// The record `base` brought up to date with what GitLab reports at `now`.
/// The refresh is never dated before the first fetch.
pub open spec fn project_refreshed(
    base: ProjectView,
    gl: GitlabProject,
    now: Timestamp,
) -> ProjectView {
    ProjectView {
        name: gl.name@,
        url: gl.web_url@,
        instance_path: gl.path_with_namespace@,
        cim_refreshed_at: base.cim_fetched_at.spec_latest(now),
        ..base
    }
}

/// The record that the store holds for the project after the report.
pub open spec fn project_record(
    storage: VecLookupView,
    instance: VecIndex<Instance>,
    gl: GitlabProject,
    now: Timestamp,
) -> ProjectView {
    match record_of(storage.projects, gl.id) {
        Some(existing) => project_refreshed(existing, gl, now),
        None => project_refreshed(project_fresh(gl.id, instance, now), gl, now),
    }
}

/// Whether the project's collections are to be discovered: the project is
/// new, or GitLab saw it change after the store last refreshed it.
pub open spec fn project_is_stale(storage: VecLookupView, gl: GitlabProject) -> bool {
    match record_of(storage.projects, gl.id) {
        Some(existing) => existing.cim_refreshed_at.spec_before(gl.updated_at),
        None => true,
    }
}

/// The tasks that discover the collections of a project, for each feature
/// that is not switched off, and that update the project it was forked from.
pub open spec fn project_discoveries(gl: GitlabProject) -> Seq<ForgeTask> {
    let none = Seq::<ForgeTask>::empty();
    let merge_requests = if gl.merge_requests_access_level.spec_is_enabled() {
        none.push(ForgeTask::DiscoverMergeRequests { project: gl.id })
    } else {
        none
    };
    let builds = if gl.builds_access_level.spec_is_enabled() {
        merge_requests.push(ForgeTask::DiscoverPipelineSchedules { project: gl.id }).push(
            ForgeTask::DiscoverPipelines { project: gl.id },
        )
    } else {
        merge_requests
    };
    let environments = if gl.environments_access_level.spec_is_enabled() {
        builds.push(ForgeTask::DiscoverEnvironments { project: gl.id }).push(
            ForgeTask::DiscoverDeployments { project: gl.id },
        )
    } else {
        builds
    };
    match gl.forked_from_project {
        Some(parent) => environments.push(ForgeTask::UpdateProject { project: parent.id }),
        None => environments,
    }
}

/// The tasks that follow from a report of a project.
pub open spec fn project_tasks(storage: VecLookupView, gl: GitlabProject) -> Seq<ForgeTask> {
    if project_is_stale(storage, gl) {
        project_discoveries(gl)
    } else {
        Seq::empty()
    }
}

/// Reconcile a project that GitLab reported at `now` into the store.
pub fn update_project_impl(
    forge: &mut GitlabForge,
    gl_project: GitlabProject,
    now: Timestamp,
) -> (r:
    Result<ForgeTaskOutcome, ForgeError>)
    ensures
        r matches Ok(outcome) && outcome.additional_tasks@ == project_tasks(
            old(forge).storage@,
            gl_project,
        ) && outcome.task_delay is None,
        final(forge).instance_idx == old(forge).instance_idx,
        final(forge).storage@ == (VecLookupView {
            projects: upsert(
                old(forge).storage@.projects,
                project_record(old(forge).storage@, old(forge).instance_idx, gl_project, now),
            ),
            ..old(forge).storage@
        }),
        old(forge).wf() && old(forge).storage@.refs_valid() ==> final(forge).wf()
            && final(forge).storage@.refs_valid(),
        old(forge).storage@.ids_unique() ==> final(forge).storage@.ids_unique(),
        old(forge).storage@.stamps_ordered() ==> final(forge).storage@.stamps_ordered(),
{
    let ghost before = forge.storage@;
    let mut tasks: Vec<ForgeTask> = Vec::new();
    let project = gl_project.id;
    // Create a project entry.
    let (mut project_entry, update_components) = match forge.storage.find_project(project) {
        Some(idx) => match forge.storage.lookup_project(&idx) {
            Some(existing) => (
                existing.clone(),
                existing.cim_refreshed_at.before(&gl_project.updated_at),
            ),
            None => {
                assert(false);
                return Err(ForgeError::Other { details: String::new() });
            },
        },
        None => {
            let built = Project::builder().forge_id(project).instance(
                forge.instance_index(),
            ).build_at(now);
            match built {
                Ok(fresh) => (fresh, true),
                Err(_) => {
                    assert(false);
                    return Err(ForgeError::Other { details: String::new() });
                },
            }
        },
    };
    if update_components {
        if gl_project.merge_requests_access_level.is_enabled() {
            tasks.push(ForgeTask::DiscoverMergeRequests { project });
        }
        if gl_project.builds_access_level.is_enabled() {
            tasks.push(ForgeTask::DiscoverPipelineSchedules { project });
            tasks.push(ForgeTask::DiscoverPipelines { project });
        }
        if gl_project.environments_access_level.is_enabled() {
            tasks.push(ForgeTask::DiscoverEnvironments { project });
            tasks.push(ForgeTask::DiscoverDeployments { project });
        }
        match &gl_project.forked_from_project {
            Some(parent) => {
                tasks.push(ForgeTask::UpdateProject { project: parent.id });
            },
            None => {},
        }
    }
    assert(tasks@ =~= project_tasks(before, gl_project));
    project_entry.name = gl_project.name;
    project_entry.url = gl_project.web_url;
    project_entry.instance_path = gl_project.path_with_namespace;
    project_entry.cim_refreshed_at = project_entry.cim_fetched_at.latest(now);
    proof {
        assert(project_entry@ == project_record(before, forge.instance_idx, gl_project, now));
        lemma_upsert(before.projects, project_entry@);
        if forge.wf() && before.refs_valid() {
            match record_of(before.projects, gl_project.id) {
                Some(existing) => {
                    assert(existing.refs_within(before.counts()));
                },
                None => {},
            }
        }
    }
    // Store the project in the storage.
    forge.storage.store_project(project_entry);
    proof {
        forge.storage.lemma_fits();
        if before.stamps_ordered() {
            match record_of(before.projects, gl_project.id) {
                Some(existing) => {
                    assert(existing.in_order());
                },
                None => {},
            }
            before.lemma_store_project_keeps_stamps(
                project_record(before, old(forge).instance_idx, gl_project, now),
            );
        }
        if old(forge).wf() && before.refs_valid() {
            before.lemma_store_project_keeps_refs(
                project_record(before, old(forge).instance_idx, gl_project, now),
            );
        }
    }
    Ok(ForgeTaskOutcome::with_tasks(tasks))
}

/// Reconcile a project that GitLab just reported into the store.
pub fn update_project(forge: &mut GitlabForge, gl_project: GitlabProject) -> (r: Result<
    ForgeTaskOutcome,
    ForgeError,
>)
    ensures
        r matches Ok(outcome) && outcome.additional_tasks@ == project_tasks(
            old(forge).storage@,
            gl_project,
        ) && outcome.task_delay is None,
        final(forge).instance_idx == old(forge).instance_idx,
        exists|now: Timestamp|
            final(forge).storage@ == (VecLookupView {
                projects: upsert(
                    old(forge).storage@.projects,
                    #[trigger] project_record(
                        old(forge).storage@,
                        old(forge).instance_idx,
                        gl_project,
                        now,
                    ),
                ),
                ..old(forge).storage@
            }),
        old(forge).wf() && old(forge).storage@.refs_valid() ==> final(forge).wf()
            && final(forge).storage@.refs_valid(),
        old(forge).storage@.ids_unique() ==> final(forge).storage@.ids_unique(),
        old(forge).storage@.stamps_ordered() ==> final(forge).storage@.stamps_ordered(),
{
    update_project_impl(forge, gl_project, Timestamp::now())
}

/// Reconcile a project that GitLab just reported, asked for by its name, into
/// the store.
pub fn update_project_by_name(forge: &mut GitlabForge, gl_project: GitlabProject) -> (r: Result<
    ForgeTaskOutcome,
    ForgeError,
>)
    ensures
        r matches Ok(outcome) && outcome.additional_tasks@ == project_tasks(
            old(forge).storage@,
            gl_project,
        ) && outcome.task_delay is None,
        final(forge).instance_idx == old(forge).instance_idx,
        exists|now: Timestamp|
            final(forge).storage@ == (VecLookupView {
                projects: upsert(
                    old(forge).storage@.projects,
                    #[trigger] project_record(
                        old(forge).storage@,
                        old(forge).instance_idx,
                        gl_project,
                        now,
                    ),
                ),
                ..old(forge).storage@
            }),
        old(forge).wf() && old(forge).storage@.refs_valid() ==> final(forge).wf()
            && final(forge).storage@.refs_valid(),
        old(forge).storage@.ids_unique() ==> final(forge).storage@.ids_unique(),
        old(forge).storage@.stamps_ordered() ==> final(forge).storage@.stamps_ordered(),
{
    update_project_impl(forge, gl_project, Timestamp::now())
}

} // verus!
