//! Runners, as GitLab reports them.

use vstd::prelude::*;
use crate::data::instance::Instance;
use crate::data::runner::{Runner, RunnerProtectionLevel, RunnerType, RunnerView};
use crate::forge::{ForgeError, ForgeTask, ForgeTaskOutcome};
use crate::gitlab::forge::GitlabForge;
use crate::objects::vec::data::{Refs, Stamped};
use crate::objects::vec::{lemma_upsert, record_of, upsert, VecIndex, VecLookupView};
use crate::text::{opt_text, str_eq, string_or_empty, text_or_empty, texts};
use crate::time::Timestamp;

verus! {

/// A runner in a listing.
#[derive(Debug)]
pub struct GitlabRunner {
    pub id: u64,
}

/// The tasks that update each runner of a listing, in its order.
pub open spec fn runner_updates(listed: Seq<GitlabRunner>) -> Seq<ForgeTask> {
    Seq::new(listed.len(), |i: int| ForgeTask::UpdateRunner { id: listed[i].id })
}

/// Ask for an update of every runner that GitLab listed.
pub fn discover_runners(listed: Vec<GitlabRunner>) -> (r: ForgeTaskOutcome)
    ensures
        r.additional_tasks@ == runner_updates(listed@),
        r.task_delay is None,
{
    let mut tasks: Vec<ForgeTask> = Vec::new();
    let mut i: usize = 0;
    while i < listed.len()
        invariant
            i <= listed.len(),
            tasks@ == runner_updates(listed@.subrange(0, i as int)),
        decreases listed.len() - i,
    {
        tasks.push(ForgeTask::UpdateRunner { id: listed[i].id });
        assert(tasks@ =~= runner_updates(listed@.subrange(0, i + 1)));
        i += 1;
    }
    assert(listed@.subrange(0, listed@.len() as int) =~= listed@);
    ForgeTaskOutcome::with_tasks(tasks)
}

/// The scope of a runner, as GitLab names it.
#[derive(Debug, Clone, Copy, PartialEq, Eq, Structural)]
pub enum GitlabRunnerType {
    /// `instance_type`
    Instance,
    /// `group_type`
    Group,
    /// `project_type`
    Project,
}

impl GitlabRunnerType {
    /// The scope that GitLab writes as `name`.
    pub open spec fn spec_from_name(name: Seq<char>) -> Option<GitlabRunnerType> {
        if name == "instance_type"@ {
            Some(GitlabRunnerType::Instance)
        } else if name == "group_type"@ {
            Some(GitlabRunnerType::Group)
        } else if name == "project_type"@ {
            Some(GitlabRunnerType::Project)
        } else {
            None
        }
    }

    /// The scope of the monitoring model that stands for this one.
    pub open spec fn spec_into(self) -> RunnerType {
        match self {
            GitlabRunnerType::Instance => RunnerType::Instance,
            GitlabRunnerType::Group => RunnerType::Group,
            GitlabRunnerType::Project => RunnerType::Project,
        }
    }

    /// The scope that GitLab writes as `name`.
    pub fn from_name(name: &str) -> (r: Option<GitlabRunnerType>)
        ensures
            r == Self::spec_from_name(name@),
    {
        if str_eq(name, "instance_type") {
            Some(GitlabRunnerType::Instance)
        } else if str_eq(name, "group_type") {
            Some(GitlabRunnerType::Group)
        } else if str_eq(name, "project_type") {
            Some(GitlabRunnerType::Project)
        } else {
            None
        }
    }

    /// The scope of the monitoring model that stands for this one.
    pub fn into_model(self) -> (r: RunnerType)
        ensures
            r == self.spec_into(),
    {
        match self {
            GitlabRunnerType::Instance => RunnerType::Instance,
            GitlabRunnerType::Group => RunnerType::Group,
            GitlabRunnerType::Project => RunnerType::Project,
        }
    }
}

/// Which refs a runner serves, as GitLab names it.
#[derive(Debug, Clone, Copy, PartialEq, Eq, Structural)]
pub enum GitlabRunnerAccessLevel {
    /// `ref_protected`
    RefProtected,
    /// `not_protected`
    NotProtected,
}

impl GitlabRunnerAccessLevel {
    /// The level that GitLab writes as `name`.
    pub open spec fn spec_from_name(name: Seq<char>) -> Option<GitlabRunnerAccessLevel> {
        if name == "ref_protected"@ {
            Some(GitlabRunnerAccessLevel::RefProtected)
        } else if name == "not_protected"@ {
            Some(GitlabRunnerAccessLevel::NotProtected)
        } else {
            None
        }
    }

    /// The protection level of the monitoring model that stands for this one.
    pub open spec fn spec_into(self) -> RunnerProtectionLevel {
        match self {
            GitlabRunnerAccessLevel::RefProtected => RunnerProtectionLevel::Protected,
            GitlabRunnerAccessLevel::NotProtected => RunnerProtectionLevel::Any,
        }
    }

    /// The level that GitLab writes as `name`.
    pub fn from_name(name: &str) -> (r: Option<GitlabRunnerAccessLevel>)
        ensures
            r == Self::spec_from_name(name@),
    {
        if str_eq(name, "ref_protected") {
            Some(GitlabRunnerAccessLevel::RefProtected)
        } else if str_eq(name, "not_protected") {
            Some(GitlabRunnerAccessLevel::NotProtected)
        } else {
            None
        }
    }

    /// The protection level of the monitoring model that stands for this one.
    pub fn into_model(self) -> (r: RunnerProtectionLevel)
        ensures
            r == self.spec_into(),
    {
        match self {
            GitlabRunnerAccessLevel::RefProtected => RunnerProtectionLevel::Protected,
            GitlabRunnerAccessLevel::NotProtected => RunnerProtectionLevel::Any,
        }
    }
}

/// A runner as GitLab reports it.
#[derive(Debug)]
pub struct GitlabRunnerDetails {
    pub id: u64,
    pub description: String,
    pub runner_type: GitlabRunnerType,
    pub name: Option<String>,
    pub version: Option<String>,
    pub revision: Option<String>,
    pub platform: Option<String>,
    pub architecture: Option<String>,
    pub tag_list: Vec<String>,
    pub run_untagged: bool,
    pub access_level: GitlabRunnerAccessLevel,
    pub maintenance_note: Option<String>,
    pub contacted_at: Option<Timestamp>,
    pub paused: bool,
    pub is_shared: bool,
    pub online: Option<bool>,
    pub locked: bool,
    pub maximum_timeout: Option<u64>,
}

/// The record of a runner of which nothing but its ID, instance, scope and
/// protection level is known, first seen at `now`.
pub open spec fn runner_fresh(
    gl: GitlabRunnerDetails,
    instance: VecIndex<Instance>,
    now: Timestamp,
) -> RunnerView {
    RunnerView {
        description: Seq::empty(),
        runner_type: gl.runner_type.spec_into(),
        maximum_timeout: None,
        protection_level: gl.access_level.spec_into(),
        implementation: Seq::empty(),
        version: Seq::empty(),
        revision: Seq::empty(),
        platform: Seq::empty(),
        architecture: Seq::empty(),
        tags: Seq::empty(),
        run_untagged: false,
        projects: Seq::empty(),
        forge_id: gl.id,
        paused: false,
        shared: false,
        online: false,
        locked: false,
        contacted_at: None,
        maintenance_note: None,
        instance,
        runner_host: None,
        cim_fetched_at: now,
        cim_refreshed_at: now,
    }
}

/// The record `base` brought up to date with what GitLab reports at `now`.
/// The scope, the projects and the host of the runner stay as they are.
pub open spec fn runner_refreshed(
    base: RunnerView,
    gl: GitlabRunnerDetails,
    now: Timestamp,
) -> RunnerView {
    RunnerView {
        description: gl.description@,
        maximum_timeout: gl.maximum_timeout,
        protection_level: gl.access_level.spec_into(),
        implementation: text_or_empty(gl.name),
        version: text_or_empty(gl.version),
        revision: text_or_empty(gl.revision),
        platform: text_or_empty(gl.platform),
        architecture: text_or_empty(gl.architecture),
        tags: texts(gl.tag_list@),
        run_untagged: gl.run_untagged,
        paused: gl.paused,
        shared: gl.is_shared,
        online: match gl.online {
            Some(online) => online,
            None => false,
        },
        locked: gl.locked,
        contacted_at: gl.contacted_at,
        maintenance_note: opt_text(gl.maintenance_note),
        cim_refreshed_at: base.cim_fetched_at.spec_latest(now),
        ..base
    }
}

/// The record that the store holds for the runner after the report.
pub open spec fn runner_record(
    storage: VecLookupView,
    instance: VecIndex<Instance>,
    gl: GitlabRunnerDetails,
    now: Timestamp,
) -> RunnerView {
    match record_of(storage.runners, gl.id) {
        Some(existing) => runner_refreshed(existing, gl, now),
        None => runner_refreshed(runner_fresh(gl, instance, now), gl, now),
    }
}

/// Reconcile a runner that GitLab reported at `now` into the store.
pub fn update_runner_impl(
    forge: &mut GitlabForge,
    gl_runner: GitlabRunnerDetails,
    now: Timestamp,
) -> (r:
    Result<ForgeTaskOutcome, ForgeError>)
    ensures
        r matches Ok(outcome) && outcome.additional_tasks@ == Seq::<ForgeTask>::empty()
            && outcome.task_delay is None,
        final(forge).instance_idx == old(forge).instance_idx,
        final(forge).storage@ == (VecLookupView {
            runners: upsert(
                old(forge).storage@.runners,
                runner_record(old(forge).storage@, old(forge).instance_idx, gl_runner, now),
            ),
            ..old(forge).storage@
        }),
        old(forge).wf() && old(forge).storage@.refs_valid() ==> final(forge).wf()
            && final(forge).storage@.refs_valid(),
        old(forge).storage@.ids_unique() ==> final(forge).storage@.ids_unique(),
        old(forge).storage@.stamps_ordered() ==> final(forge).storage@.stamps_ordered(),
{
    let ghost before = forge.storage@;
    let runner = gl_runner.id;
    // Create a runner entry.
    let mut runner_entry = match forge.storage.find_runner(runner) {
        Some(idx) => match forge.storage.lookup_runner(&idx) {
            Some(existing) => existing.clone(),
            None => {
                assert(false);
                return Err(ForgeError::Other { details: String::new() });
            },
        },
        None => {
            let built = Runner::builder().forge_id(runner).instance(
                forge.instance_index(),
            ).runner_type(gl_runner.runner_type.into_model()).protection_level(
                gl_runner.access_level.into_model(),
            ).build_at(now);
            match built {
                Ok(fresh) => fresh,
                Err(_) => {
                    assert(false);
                    return Err(ForgeError::Other { details: String::new() });
                },
            }
        },
    };
    runner_entry.description = gl_runner.description;
    runner_entry.maximum_timeout = gl_runner.maximum_timeout;
    runner_entry.protection_level = gl_runner.access_level.into_model();
    runner_entry.implementation = string_or_empty(gl_runner.name);
    runner_entry.version = string_or_empty(gl_runner.version);
    runner_entry.revision = string_or_empty(gl_runner.revision);
    runner_entry.platform = string_or_empty(gl_runner.platform);
    runner_entry.architecture = string_or_empty(gl_runner.architecture);
    runner_entry.tags = gl_runner.tag_list;
    runner_entry.run_untagged = gl_runner.run_untagged;
    runner_entry.paused = gl_runner.paused;
    runner_entry.shared = gl_runner.is_shared;
    runner_entry.online = match gl_runner.online {
        Some(online) => online,
        None => false,
    };
    runner_entry.locked = gl_runner.locked;
    runner_entry.contacted_at = gl_runner.contacted_at;
    runner_entry.maintenance_note = gl_runner.maintenance_note;
    runner_entry.cim_refreshed_at = runner_entry.cim_fetched_at.latest(now);
    proof {
        assert(runner_entry@ == runner_record(before, forge.instance_idx, gl_runner, now));
        lemma_upsert(before.runners, runner_entry@);
        if forge.wf() && before.refs_valid() {
            match record_of(before.runners, gl_runner.id) {
                Some(existing) => {
                    assert(existing.refs_within(before.counts()));
                },
                None => {},
            }
        }
    }
    // Store the runner in the storage.
    forge.storage.store_runner(runner_entry);
    proof {
        forge.storage.lemma_fits();
        if before.stamps_ordered() {
            match record_of(before.runners, gl_runner.id) {
                Some(existing) => {
                    assert(existing.in_order());
                },
                None => {},
            }
            before.lemma_store_runner_keeps_stamps(
                runner_record(before, old(forge).instance_idx, gl_runner, now),
            );
        }
        if old(forge).wf() && before.refs_valid() {
            before.lemma_store_runner_keeps_refs(
                runner_record(before, old(forge).instance_idx, gl_runner, now),
            );
        }
    }
    Ok(ForgeTaskOutcome::new())
}

/// Reconcile a runner that GitLab just reported into the store.
pub fn update_runner(forge: &mut GitlabForge, gl_runner: GitlabRunnerDetails) -> (r: Result<
    ForgeTaskOutcome,
    ForgeError,
>)
    ensures
        r matches Ok(outcome) && outcome.additional_tasks@ == Seq::<ForgeTask>::empty()
            && outcome.task_delay is None,
        final(forge).instance_idx == old(forge).instance_idx,
        exists|now: Timestamp|
            final(forge).storage@ == (VecLookupView {
                runners: upsert(
                    old(forge).storage@.runners,
                    #[trigger] runner_record(
                        old(forge).storage@,
                        old(forge).instance_idx,
                        gl_runner,
                        now,
                    ),
                ),
                ..old(forge).storage@
            }),
        old(forge).wf() && old(forge).storage@.refs_valid() ==> final(forge).wf()
            && final(forge).storage@.refs_valid(),
        old(forge).storage@.ids_unique() ==> final(forge).storage@.ids_unique(),
        old(forge).storage@.stamps_ordered() ==> final(forge).storage@.stamps_ordered(),
{
    update_runner_impl(forge, gl_runner, Timestamp::now())
}

} // verus!
