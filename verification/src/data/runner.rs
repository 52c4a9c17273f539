//! Runners.

use vstd::prelude::*;
use crate::data::instance::Instance;
use crate::data::project::Project;
use crate::data::runner_host::RunnerHost;
use crate::objects::vec::{clone_indices, VecIndex};
use crate::text::{clone_opt_string, clone_strings, lemma_texts_empty, opt_text, str_eq, texts};
use crate::time::Timestamp;

verus! {

/// The scope at which a runner is registered.
#[derive(Debug, Clone, Copy, PartialEq, Eq, Structural)]
pub enum RunnerType {
    /// Can accept instance-wide jobs.
    Instance,
    /// Can accept jobs from a specific group.
    Group,
    /// Can accept jobs from a specific project.
    Project,
}

impl RunnerType {
    /// The canonical name of the value.
    pub open spec fn spec_name(self) -> Seq<char> {
        match self {
            RunnerType::Instance => "instance"@,
            RunnerType::Group => "group"@,
            RunnerType::Project => "project"@,
        }
    }

    /// The value with a given canonical name, if there is one.
    pub open spec fn spec_from_name(name: Seq<char>) -> Option<RunnerType> {
        if name == "instance"@ {
            Some(RunnerType::Instance)
        } else if name == "group"@ {
            Some(RunnerType::Group)
        } else if name == "project"@ {
            Some(RunnerType::Project)
        } else {
            None
        }
    }

    /// The canonical name of the value.
    pub fn name(self) -> (r: &'static str)
        ensures
            r@ == self.spec_name(),
    {
        match self {
            RunnerType::Instance => "instance",
            RunnerType::Group => "group",
            RunnerType::Project => "project",
        }
    }

    /// The value named by `name`.
    pub fn from_name(name: &str) -> (r: Option<RunnerType>)
        ensures
            r == Self::spec_from_name(name@),
    {
        if str_eq(name, "instance") {
            Some(RunnerType::Instance)
        } else if str_eq(name, "group") {
            Some(RunnerType::Group)
        } else if str_eq(name, "project") {
            Some(RunnerType::Project)
        } else {
            None
        }
    }
}

/// Every value is found again by its canonical name.
pub proof fn lemma_runner_type_name_round_trip(value: RunnerType)
    ensures
        RunnerType::spec_from_name(value.spec_name()) == Some(value),
{
    reveal_strlit("instance");
    reveal_strlit("group");
    reveal_strlit("project");
    assert("instance"@.len() == 8);
    assert("group"@.len() == 5);
    assert("project"@.len() == 7);
}

/// Types of refs the runner may run.
#[derive(Debug, Clone, Copy, PartialEq, Eq, Structural)]
pub enum RunnerProtectionLevel {
    /// Only jobs for protected refs may use this runner.
    Protected,
    /// Any job can use this runner.
    Any,
}

impl RunnerProtectionLevel {
    /// The canonical name of the value.
    pub open spec fn spec_name(self) -> Seq<char> {
        match self {
            RunnerProtectionLevel::Protected => "protected"@,
            RunnerProtectionLevel::Any => "any"@,
        }
    }

    /// The value with a given canonical name, if there is one.
    pub open spec fn spec_from_name(name: Seq<char>) -> Option<RunnerProtectionLevel> {
        if name == "protected"@ {
            Some(RunnerProtectionLevel::Protected)
        } else if name == "any"@ {
            Some(RunnerProtectionLevel::Any)
        } else {
            None
        }
    }

    /// The canonical name of the value.
    pub fn name(self) -> (r: &'static str)
        ensures
            r@ == self.spec_name(),
    {
        match self {
            RunnerProtectionLevel::Protected => "protected",
            RunnerProtectionLevel::Any => "any",
        }
    }

    /// The value named by `name`.
    pub fn from_name(name: &str) -> (r: Option<RunnerProtectionLevel>)
        ensures
            r == Self::spec_from_name(name@),
    {
        if str_eq(name, "protected") {
            Some(RunnerProtectionLevel::Protected)
        } else if str_eq(name, "any") {
            Some(RunnerProtectionLevel::Any)
        } else {
            None
        }
    }
}

/// Every value is found again by its canonical name.
pub proof fn lemma_runner_protection_level_name_round_trip(value: RunnerProtectionLevel)
    ensures
        RunnerProtectionLevel::spec_from_name(value.spec_name()) == Some(value),
{
    reveal_strlit("protected");
    reveal_strlit("any");
    assert("protected"@.len() == 9);
    assert("any"@.len() == 3);
}

/// A runner which can perform jobs for CI tasks.
#[derive(Debug)]
pub struct Runner {
    /// The description of the runner.
    pub description: String,
    /// The runner type.
    pub runner_type: RunnerType,
    /// The maximum timeout for jobs on the runner (in seconds).
    pub maximum_timeout: Option<u64>,
    /// Protection level of refs that can use this runner.
    pub protection_level: RunnerProtectionLevel,
    /// The implementation of the runner.
    pub implementation: String,
    /// The version of the runner.
    pub version: String,
    /// The revision of the runner.
    pub revision: String,
    /// The platform of the runner.
    pub platform: String,
    /// The CPU architecture of the runner.
    pub architecture: String,
    /// The tags for the runner.
    pub tags: Vec<String>,
    /// Whether untagged jobs may use this runner.
    pub run_untagged: bool,
    /// The set of projects which may use this runner.
    pub projects: Vec<VecIndex<Project>>,
    /// The id of the runner.
    pub forge_id: u64,
    /// Whether the runner is paused or not.
    pub paused: bool,
    /// Whether the runner is shared with other projects or not.
    pub shared: bool,
    /// Whether the runner is online or not.
    pub online: bool,
    /// Whether the runner is locked to its projects or not.
    pub locked: bool,
    /// When the runner last contacted the forge.
    pub contacted_at: Option<Timestamp>,
    /// The maintenance note of the runner.
    pub maintenance_note: Option<String>,
    /// The instance for which the runner performs jobs.
    pub instance: VecIndex<Instance>,
    /// The host the runner executes on.
    pub runner_host: Option<VecIndex<RunnerHost>>,
    /// When the monitoring tool first fetched information.
    pub cim_fetched_at: Timestamp,
    /// When the monitoring tool last updated this information.
    pub cim_refreshed_at: Timestamp,
}

/// What a [`Runner`] says.
pub struct RunnerView {
    pub description: Seq<char>,
    pub runner_type: RunnerType,
    pub maximum_timeout: Option<u64>,
    pub protection_level: RunnerProtectionLevel,
    pub implementation: Seq<char>,
    pub version: Seq<char>,
    pub revision: Seq<char>,
    pub platform: Seq<char>,
    pub architecture: Seq<char>,
    pub tags: Seq<Seq<char>>,
    pub run_untagged: bool,
    pub projects: Seq<VecIndex<Project>>,
    pub forge_id: u64,
    pub paused: bool,
    pub shared: bool,
    pub online: bool,
    pub locked: bool,
    pub contacted_at: Option<Timestamp>,
    pub maintenance_note: Option<Seq<char>>,
    pub instance: VecIndex<Instance>,
    pub runner_host: Option<VecIndex<RunnerHost>>,
    pub cim_fetched_at: Timestamp,
    pub cim_refreshed_at: Timestamp,
}

impl View for Runner {
    type V = RunnerView;

    open spec fn view(&self) -> RunnerView {
        RunnerView {
            description: self.description@,
            runner_type: self.runner_type,
            maximum_timeout: self.maximum_timeout,
            protection_level: self.protection_level,
            implementation: self.implementation@,
            version: self.version@,
            revision: self.revision@,
            platform: self.platform@,
            architecture: self.architecture@,
            tags: texts(self.tags@),
            run_untagged: self.run_untagged,
            projects: self.projects@,
            forge_id: self.forge_id,
            paused: self.paused,
            shared: self.shared,
            online: self.online,
            locked: self.locked,
            contacted_at: self.contacted_at,
            maintenance_note: opt_text(self.maintenance_note),
            instance: self.instance,
            runner_host: self.runner_host,
            cim_fetched_at: self.cim_fetched_at,
            cim_refreshed_at: self.cim_refreshed_at,
        }
    }
}

impl Clone for Runner {
    fn clone(&self) -> (r: Self)
        ensures
            r@ == self@,
    {
        Runner {
            description: self.description.clone(),
            runner_type: self.runner_type,
            maximum_timeout: self.maximum_timeout,
            protection_level: self.protection_level,
            implementation: self.implementation.clone(),
            version: self.version.clone(),
            revision: self.revision.clone(),
            platform: self.platform.clone(),
            architecture: self.architecture.clone(),
            tags: clone_strings(&self.tags),
            run_untagged: self.run_untagged,
            projects: clone_indices(&self.projects),
            forge_id: self.forge_id,
            paused: self.paused,
            shared: self.shared,
            online: self.online,
            locked: self.locked,
            contacted_at: self.contacted_at,
            maintenance_note: clone_opt_string(&self.maintenance_note),
            instance: self.instance,
            runner_host: self.runner_host,
            cim_fetched_at: self.cim_fetched_at,
            cim_refreshed_at: self.cim_refreshed_at,
        }
    }
}

impl RunnerView {
    /// The record was first fetched no later than it was last refreshed.
    pub open spec fn stamps_ordered(self) -> bool {
        self.cim_fetched_at.spec_at_most(self.cim_refreshed_at)
    }
}

/// Why a [`Runner`] could not be built.
#[derive(Debug)]
pub enum RunnerBuilderError {
    /// A required field was never set.
    UninitializedField(&'static str),
    /// The fields that were set do not make a valid value.
    ValidationError(String),
}

/// Collects the fields of a [`Runner`].
#[derive(Debug)]
pub struct RunnerBuilder {
    pub description: Option<String>,
    pub runner_type: Option<RunnerType>,
    pub maximum_timeout: Option<Option<u64>>,
    pub protection_level: Option<RunnerProtectionLevel>,
    pub implementation: Option<String>,
    pub version: Option<String>,
    pub revision: Option<String>,
    pub platform: Option<String>,
    pub architecture: Option<String>,
    pub tags: Option<Vec<String>>,
    pub run_untagged: Option<bool>,
    pub projects: Option<Vec<VecIndex<Project>>>,
    pub forge_id: Option<u64>,
    pub paused: Option<bool>,
    pub shared: Option<bool>,
    pub online: Option<bool>,
    pub locked: Option<bool>,
    pub contacted_at: Option<Option<Timestamp>>,
    pub maintenance_note: Option<Option<String>>,
    pub instance: Option<VecIndex<Instance>>,
    pub runner_host: Option<Option<VecIndex<RunnerHost>>>,
}

impl Runner {
    /// Create a builder for the structure.
    pub fn builder() -> (r: RunnerBuilder)
        ensures
            r == RunnerBuilder::empty(),
    {
        RunnerBuilder {
            description: None,
            runner_type: None,
            maximum_timeout: None,
            protection_level: None,
            implementation: None,
            version: None,
            revision: None,
            platform: None,
            architecture: None,
            tags: None,
            run_untagged: None,
            projects: None,
            forge_id: None,
            paused: None,
            shared: None,
            online: None,
            locked: None,
            contacted_at: None,
            maintenance_note: None,
            instance: None,
            runner_host: None,
        }
    }
}

impl RunnerBuilder {
    /// The builder with no field set.
    pub open spec fn empty() -> RunnerBuilder {
        RunnerBuilder {
            description: None,
            runner_type: None,
            maximum_timeout: None,
            protection_level: None,
            implementation: None,
            version: None,
            revision: None,
            platform: None,
            architecture: None,
            tags: None,
            run_untagged: None,
            projects: None,
            forge_id: None,
            paused: None,
            shared: None,
            online: None,
            locked: None,
            contacted_at: None,
            maintenance_note: None,
            instance: None,
            runner_host: None,
        }
    }

    /// The first required field, in declaration order, that is not set.
    pub open spec fn missing(self) -> Option<Seq<char>> {
        if self.runner_type is None {
            Some("runner_type"@)
        } else if self.protection_level is None {
            Some("protection_level"@)
        } else if self.forge_id is None {
            Some("forge_id"@)
        } else if self.instance is None {
            Some("instance"@)
        } else {
            None
        }
    }

    /// What the builder makes at the instant `now`, once every required field
    /// is set.
    pub open spec fn record(self, now: Timestamp) -> RunnerView {
        RunnerView {
            description: match self.description {
                Some(v) => v@,
                None => Seq::empty(),
            },
            runner_type: self.runner_type.unwrap(),
            maximum_timeout: match self.maximum_timeout {
                Some(v) => v,
                None => None,
            },
            protection_level: self.protection_level.unwrap(),
            implementation: match self.implementation {
                Some(v) => v@,
                None => Seq::empty(),
            },
            version: match self.version {
                Some(v) => v@,
                None => Seq::empty(),
            },
            revision: match self.revision {
                Some(v) => v@,
                None => Seq::empty(),
            },
            platform: match self.platform {
                Some(v) => v@,
                None => Seq::empty(),
            },
            architecture: match self.architecture {
                Some(v) => v@,
                None => Seq::empty(),
            },
            tags: match self.tags {
                Some(v) => texts(v@),
                None => Seq::empty(),
            },
            run_untagged: match self.run_untagged {
                Some(v) => v,
                None => false,
            },
            projects: match self.projects {
                Some(v) => v@,
                None => Seq::empty(),
            },
            forge_id: self.forge_id.unwrap(),
            paused: match self.paused {
                Some(v) => v,
                None => false,
            },
            shared: match self.shared {
                Some(v) => v,
                None => false,
            },
            online: match self.online {
                Some(v) => v,
                None => false,
            },
            locked: match self.locked {
                Some(v) => v,
                None => false,
            },
            contacted_at: match self.contacted_at {
                Some(v) => v,
                None => None,
            },
            maintenance_note: match self.maintenance_note {
                Some(v) => opt_text(v),
                None => None,
            },
            instance: self.instance.unwrap(),
            runner_host: match self.runner_host {
                Some(v) => v,
                None => None,
            },
            cim_fetched_at: now,
            cim_refreshed_at: now,
        }
    }

    /// The description of the runner.
    pub fn description(self, value: &str) -> (r: Self)
        ensures
            r.description is Some,
            r.description.unwrap()@ == value@,
            r == (RunnerBuilder { description: r.description, ..self }),
    {
        RunnerBuilder { description: Some(value.to_owned()), ..self }
    }

    /// The runner type.
    pub fn runner_type(self, value: RunnerType) -> (r: Self)
        ensures
            r == (RunnerBuilder { runner_type: Some(value), ..self }),
    {
        RunnerBuilder { runner_type: Some(value), ..self }
    }

    /// The maximum timeout for jobs on the runner (in seconds).
    pub fn maximum_timeout(self, value: Option<u64>) -> (r: Self)
        ensures
            r == (RunnerBuilder { maximum_timeout: Some(value), ..self }),
    {
        RunnerBuilder { maximum_timeout: Some(value), ..self }
    }

    /// Protection level of refs that can use this runner.
    pub fn protection_level(self, value: RunnerProtectionLevel) -> (r: Self)
        ensures
            r == (RunnerBuilder { protection_level: Some(value), ..self }),
    {
        RunnerBuilder { protection_level: Some(value), ..self }
    }

    /// The implementation of the runner.
    pub fn implementation(self, value: &str) -> (r: Self)
        ensures
            r.implementation is Some,
            r.implementation.unwrap()@ == value@,
            r == (RunnerBuilder { implementation: r.implementation, ..self }),
    {
        RunnerBuilder { implementation: Some(value.to_owned()), ..self }
    }

    /// The version of the runner.
    pub fn version(self, value: &str) -> (r: Self)
        ensures
            r.version is Some,
            r.version.unwrap()@ == value@,
            r == (RunnerBuilder { version: r.version, ..self }),
    {
        RunnerBuilder { version: Some(value.to_owned()), ..self }
    }

    /// The revision of the runner.
    pub fn revision(self, value: &str) -> (r: Self)
        ensures
            r.revision is Some,
            r.revision.unwrap()@ == value@,
            r == (RunnerBuilder { revision: r.revision, ..self }),
    {
        RunnerBuilder { revision: Some(value.to_owned()), ..self }
    }

    /// The platform of the runner.
    pub fn platform(self, value: &str) -> (r: Self)
        ensures
            r.platform is Some,
            r.platform.unwrap()@ == value@,
            r == (RunnerBuilder { platform: r.platform, ..self }),
    {
        RunnerBuilder { platform: Some(value.to_owned()), ..self }
    }

    /// The CPU architecture of the runner.
    pub fn architecture(self, value: &str) -> (r: Self)
        ensures
            r.architecture is Some,
            r.architecture.unwrap()@ == value@,
            r == (RunnerBuilder { architecture: r.architecture, ..self }),
    {
        RunnerBuilder { architecture: Some(value.to_owned()), ..self }
    }

    /// The tags for the runner.
    pub fn tags(self, value: Vec<String>) -> (r: Self)
        ensures
            r == (RunnerBuilder { tags: Some(value), ..self }),
    {
        RunnerBuilder { tags: Some(value), ..self }
    }

    /// Whether untagged jobs may use this runner.
    pub fn run_untagged(self, value: bool) -> (r: Self)
        ensures
            r == (RunnerBuilder { run_untagged: Some(value), ..self }),
    {
        RunnerBuilder { run_untagged: Some(value), ..self }
    }

    /// The set of projects which may use this runner.
    pub fn projects(self, value: Vec<VecIndex<Project>>) -> (r: Self)
        ensures
            r == (RunnerBuilder { projects: Some(value), ..self }),
    {
        RunnerBuilder { projects: Some(value), ..self }
    }

    /// The id of the runner.
    pub fn forge_id(self, value: u64) -> (r: Self)
        ensures
            r == (RunnerBuilder { forge_id: Some(value), ..self }),
    {
        RunnerBuilder { forge_id: Some(value), ..self }
    }

    /// Whether the runner is paused or not.
    pub fn paused(self, value: bool) -> (r: Self)
        ensures
            r == (RunnerBuilder { paused: Some(value), ..self }),
    {
        RunnerBuilder { paused: Some(value), ..self }
    }

    /// Whether the runner is shared with other projects or not.
    pub fn shared(self, value: bool) -> (r: Self)
        ensures
            r == (RunnerBuilder { shared: Some(value), ..self }),
    {
        RunnerBuilder { shared: Some(value), ..self }
    }

    /// Whether the runner is online or not.
    pub fn online(self, value: bool) -> (r: Self)
        ensures
            r == (RunnerBuilder { online: Some(value), ..self }),
    {
        RunnerBuilder { online: Some(value), ..self }
    }

    /// Whether the runner is locked to its projects or not.
    pub fn locked(self, value: bool) -> (r: Self)
        ensures
            r == (RunnerBuilder { locked: Some(value), ..self }),
    {
        RunnerBuilder { locked: Some(value), ..self }
    }

    /// When the runner last contacted the forge.
    pub fn contacted_at(self, value: Option<Timestamp>) -> (r: Self)
        ensures
            r == (RunnerBuilder { contacted_at: Some(value), ..self }),
    {
        RunnerBuilder { contacted_at: Some(value), ..self }
    }

    /// The maintenance note of the runner.
    pub fn maintenance_note(self, value: Option<String>) -> (r: Self)
        ensures
            r == (RunnerBuilder { maintenance_note: Some(value), ..self }),
    {
        RunnerBuilder { maintenance_note: Some(value), ..self }
    }

    /// The instance for which the runner performs jobs.
    pub fn instance(self, value: VecIndex<Instance>) -> (r: Self)
        ensures
            r == (RunnerBuilder { instance: Some(value), ..self }),
    {
        RunnerBuilder { instance: Some(value), ..self }
    }

    /// The host the runner executes on.
    pub fn runner_host(self, value: Option<VecIndex<RunnerHost>>) -> (r: Self)
        ensures
            r == (RunnerBuilder { runner_host: Some(value), ..self }),
    {
        RunnerBuilder { runner_host: Some(value), ..self }
    }

    /// Build the runner as first seen at `now`, or name the first required field
    /// that is missing.
    pub fn build_at(self, now: Timestamp) -> (r: Result<Runner, RunnerBuilderError>)
        ensures
            match r {
                Ok(v) => self.missing() is None && v@ == self.record(now),
                Err(e) => e matches RunnerBuilderError::UninitializedField(f)
                    && self.missing() == Some(f@),
            },
    {
        let runner_type = match self.runner_type {
            Some(v) => v,
            None => return Err(RunnerBuilderError::UninitializedField("runner_type")),
        };
        let protection_level = match self.protection_level {
            Some(v) => v,
            None => return Err(RunnerBuilderError::UninitializedField("protection_level")),
        };
        let forge_id = match self.forge_id {
            Some(v) => v,
            None => return Err(RunnerBuilderError::UninitializedField("forge_id")),
        };
        let instance = match self.instance {
            Some(v) => v,
            None => return Err(RunnerBuilderError::UninitializedField("instance")),
        };
        let description = match self.description {
            Some(v) => v,
            None => String::new(),
        };
        let maximum_timeout = match self.maximum_timeout {
            Some(v) => v,
            None => None,
        };
        let implementation = match self.implementation {
            Some(v) => v,
            None => String::new(),
        };
        let version = match self.version {
            Some(v) => v,
            None => String::new(),
        };
        let revision = match self.revision {
            Some(v) => v,
            None => String::new(),
        };
        let platform = match self.platform {
            Some(v) => v,
            None => String::new(),
        };
        let architecture = match self.architecture {
            Some(v) => v,
            None => String::new(),
        };
        let tags = match self.tags {
            Some(v) => v,
            None => Vec::new(),
        };
        let run_untagged = match self.run_untagged {
            Some(v) => v,
            None => false,
        };
        let projects = match self.projects {
            Some(v) => v,
            None => Vec::new(),
        };
        let paused = match self.paused {
            Some(v) => v,
            None => false,
        };
        let shared = match self.shared {
            Some(v) => v,
            None => false,
        };
        let online = match self.online {
            Some(v) => v,
            None => false,
        };
        let locked = match self.locked {
            Some(v) => v,
            None => false,
        };
        let contacted_at = match self.contacted_at {
            Some(v) => v,
            None => None,
        };
        let maintenance_note = match self.maintenance_note {
            Some(v) => v,
            None => None,
        };
        let runner_host = match self.runner_host {
            Some(v) => v,
            None => None,
        };
        proof {
            lemma_texts_empty();
        }
        Ok(Runner {
            description,
            runner_type,
            maximum_timeout,
            protection_level,
            implementation,
            version,
            revision,
            platform,
            architecture,
            tags,
            run_untagged,
            projects,
            forge_id,
            paused,
            shared,
            online,
            locked,
            contacted_at,
            maintenance_note,
            instance,
            runner_host,
            cim_fetched_at: now,
            cim_refreshed_at: now,
        })
    }

    /// Build the runner as first seen now, or name the first required field that
    /// is missing.
    pub fn build(self) -> (r: Result<Runner, RunnerBuilderError>)
        ensures
            match r {
                Ok(v) => self.missing() is None && v@ == self.record(v.cim_fetched_at),
                Err(e) => e matches RunnerBuilderError::UninitializedField(f)
                    && self.missing() == Some(f@),
            },
    {
        self.build_at(Timestamp::now())
    }
}

} // verus!
