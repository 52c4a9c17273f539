//! Environments.

use vstd::prelude::*;
use crate::data::project::Project;
use crate::objects::vec::VecIndex;
use crate::text::str_eq;
use crate::time::Timestamp;

verus! {

/// The state of an environment.
#[derive(Debug, Clone, Copy, PartialEq, Eq, Structural)]
pub enum EnvironmentState {
    /// The environment is available.
    Available,
    /// The environment is shutting down.
    Stopping,
    /// The environment is stopped.
    Stopped,
}

impl EnvironmentState {
    /// The canonical name of the value.
    pub open spec fn spec_name(self) -> Seq<char> {
        match self {
            EnvironmentState::Available => "available"@,
            EnvironmentState::Stopping => "stopping"@,
            EnvironmentState::Stopped => "stopped"@,
        }
    }

    /// The value with a given canonical name, if there is one.
    pub open spec fn spec_from_name(name: Seq<char>) -> Option<EnvironmentState> {
        if name == "available"@ {
            Some(EnvironmentState::Available)
        } else if name == "stopping"@ {
            Some(EnvironmentState::Stopping)
        } else if name == "stopped"@ {
            Some(EnvironmentState::Stopped)
        } else {
            None
        }
    }

    /// The canonical name of the value.
    pub fn name(self) -> (r: &'static str)
        ensures
            r@ == self.spec_name(),
    {
        match self {
            EnvironmentState::Available => "available",
            EnvironmentState::Stopping => "stopping",
            EnvironmentState::Stopped => "stopped",
        }
    }

    /// The value named by `name`.
    pub fn from_name(name: &str) -> (r: Option<EnvironmentState>)
        ensures
            r == Self::spec_from_name(name@),
    {
        if str_eq(name, "available") {
            Some(EnvironmentState::Available)
        } else if str_eq(name, "stopping") {
            Some(EnvironmentState::Stopping)
        } else if str_eq(name, "stopped") {
            Some(EnvironmentState::Stopped)
        } else {
            None
        }
    }
}

/// Every value is found again by its canonical name.
pub proof fn lemma_environment_state_name_round_trip(value: EnvironmentState)
    ensures
        EnvironmentState::spec_from_name(value.spec_name()) == Some(value),
{
    reveal_strlit("available");
    reveal_strlit("stopping");
    reveal_strlit("stopped");
    assert("available"@.len() == 9);
    assert("stopping"@.len() == 8);
    assert("stopped"@.len() == 7);
}

/// The environment tier.
#[derive(Debug, Clone, Copy, PartialEq, Eq, Structural)]
pub enum EnvironmentTier {
    /// An environment intended for production.
    Production,
    /// An environment for staging before production.
    Staging,
    /// An environment for testing.
    Testing,
    /// An environment for development.
    Development,
    /// An environment for other purposes.
    Other,
}

impl EnvironmentTier {
    /// The canonical name of the value.
    pub open spec fn spec_name(self) -> Seq<char> {
        match self {
            EnvironmentTier::Production => "production"@,
            EnvironmentTier::Staging => "staging"@,
            EnvironmentTier::Testing => "testing"@,
            EnvironmentTier::Development => "development"@,
            EnvironmentTier::Other => "other"@,
        }
    }

    /// The value with a given canonical name, if there is one.
    pub open spec fn spec_from_name(name: Seq<char>) -> Option<EnvironmentTier> {
        if name == "production"@ {
            Some(EnvironmentTier::Production)
        } else if name == "staging"@ {
            Some(EnvironmentTier::Staging)
        } else if name == "testing"@ {
            Some(EnvironmentTier::Testing)
        } else if name == "development"@ {
            Some(EnvironmentTier::Development)
        } else if name == "other"@ {
            Some(EnvironmentTier::Other)
        } else {
            None
        }
    }

    /// The canonical name of the value.
    pub fn name(self) -> (r: &'static str)
        ensures
            r@ == self.spec_name(),
    {
        match self {
            EnvironmentTier::Production => "production",
            EnvironmentTier::Staging => "staging",
            EnvironmentTier::Testing => "testing",
            EnvironmentTier::Development => "development",
            EnvironmentTier::Other => "other",
        }
    }

    /// The value named by `name`.
    pub fn from_name(name: &str) -> (r: Option<EnvironmentTier>)
        ensures
            r == Self::spec_from_name(name@),
    {
        if str_eq(name, "production") {
            Some(EnvironmentTier::Production)
        } else if str_eq(name, "staging") {
            Some(EnvironmentTier::Staging)
        } else if str_eq(name, "testing") {
            Some(EnvironmentTier::Testing)
        } else if str_eq(name, "development") {
            Some(EnvironmentTier::Development)
        } else if str_eq(name, "other") {
            Some(EnvironmentTier::Other)
        } else {
            None
        }
    }
}

/// Every value is found again by its canonical name.
pub proof fn lemma_environment_tier_name_round_trip(value: EnvironmentTier)
    ensures
        EnvironmentTier::spec_from_name(value.spec_name()) == Some(value),
{
    reveal_strlit("production");
    reveal_strlit("staging");
    reveal_strlit("testing");
    reveal_strlit("development");
    reveal_strlit("other");
    assert("production"@.len() == 10);
    assert("staging"@.len() == 7);
    assert("testing"@.len() == 7);
    assert("development"@.len() == 11);
    assert("other"@.len() == 5);
    assert("staging"@[0] != "testing"@[0]);
}

/// An environment into which deployments may be made.
#[derive(Debug)]
pub struct Environment {
    /// The name of the environment.
    pub name: String,
    /// The external URL of the environment.
    pub external_url: String,
    /// The state of the environment.
    pub state: EnvironmentState,
    /// The tier of the environment.
    pub tier: EnvironmentTier,
    /// The ID of the environment.
    pub forge_id: u64,
    /// The project the environment is for.
    pub project: VecIndex<Project>,
    /// When the environment was created.
    pub created_at: Timestamp,
    /// When the environment was updated.
    pub updated_at: Timestamp,
    /// When the environment will automatically stop.
    pub auto_stop_at: Option<Timestamp>,
    /// When the monitoring tool first fetched information.
    pub cim_fetched_at: Timestamp,
    /// When the monitoring tool last updated this information.
    pub cim_refreshed_at: Timestamp,
}

/// What an [`Environment`] says.
pub struct EnvironmentView {
    pub name: Seq<char>,
    pub external_url: Seq<char>,
    pub state: EnvironmentState,
    pub tier: EnvironmentTier,
    pub forge_id: u64,
    pub project: VecIndex<Project>,
    pub created_at: Timestamp,
    pub updated_at: Timestamp,
    pub auto_stop_at: Option<Timestamp>,
    pub cim_fetched_at: Timestamp,
    pub cim_refreshed_at: Timestamp,
}

impl View for Environment {
    type V = EnvironmentView;

    open spec fn view(&self) -> EnvironmentView {
        EnvironmentView {
            name: self.name@,
            external_url: self.external_url@,
            state: self.state,
            tier: self.tier,
            forge_id: self.forge_id,
            project: self.project,
            created_at: self.created_at,
            updated_at: self.updated_at,
            auto_stop_at: self.auto_stop_at,
            cim_fetched_at: self.cim_fetched_at,
            cim_refreshed_at: self.cim_refreshed_at,
        }
    }
}

impl Clone for Environment {
    fn clone(&self) -> (r: Self)
        ensures
            r@ == self@,
    {
        Environment {
            name: self.name.clone(),
            external_url: self.external_url.clone(),
            state: self.state,
            tier: self.tier,
            forge_id: self.forge_id,
            project: self.project,
            created_at: self.created_at,
            updated_at: self.updated_at,
            auto_stop_at: self.auto_stop_at,
            cim_fetched_at: self.cim_fetched_at,
            cim_refreshed_at: self.cim_refreshed_at,
        }
    }
}

impl EnvironmentView {
    /// The record was first fetched no later than it was last refreshed.
    pub open spec fn stamps_ordered(self) -> bool {
        self.cim_fetched_at.spec_at_most(self.cim_refreshed_at)
    }
}

/// Why an [`Environment`] could not be built.
#[derive(Debug)]
pub enum EnvironmentBuilderError {
    /// A required field was never set.
    UninitializedField(&'static str),
    /// The fields that were set do not make a valid value.
    ValidationError(String),
}

/// Collects the fields of an [`Environment`].
#[derive(Debug)]
pub struct EnvironmentBuilder {
    pub name: Option<String>,
    pub external_url: Option<String>,
    pub state: Option<EnvironmentState>,
    pub tier: Option<EnvironmentTier>,
    pub forge_id: Option<u64>,
    pub project: Option<VecIndex<Project>>,
    pub created_at: Option<Timestamp>,
    pub updated_at: Option<Timestamp>,
    pub auto_stop_at: Option<Option<Timestamp>>,
}

impl Environment {
    /// Create a builder for the structure.
    pub fn builder() -> (r: EnvironmentBuilder)
        ensures
            r == EnvironmentBuilder::empty(),
    {
        EnvironmentBuilder {
            name: None,
            external_url: None,
            state: None,
            tier: None,
            forge_id: None,
            project: None,
            created_at: None,
            updated_at: None,
            auto_stop_at: None,
        }
    }
}

impl EnvironmentBuilder {
    /// The builder with no field set.
    pub open spec fn empty() -> EnvironmentBuilder {
        EnvironmentBuilder {
            name: None,
            external_url: None,
            state: None,
            tier: None,
            forge_id: None,
            project: None,
            created_at: None,
            updated_at: None,
            auto_stop_at: None,
        }
    }

    /// The first required field, in declaration order, that is not set.
    pub open spec fn missing(self) -> Option<Seq<char>> {
        if self.name is None {
            Some("name"@)
        } else if self.state is None {
            Some("state"@)
        } else if self.tier is None {
            Some("tier"@)
        } else if self.forge_id is None {
            Some("forge_id"@)
        } else if self.project is None {
            Some("project"@)
        } else if self.created_at is None {
            Some("created_at"@)
        } else if self.updated_at is None {
            Some("updated_at"@)
        } else {
            None
        }
    }

    /// What the builder makes at the instant `now`, once every required field
    /// is set.
    pub open spec fn record(self, now: Timestamp) -> EnvironmentView {
        EnvironmentView {
            name: self.name.unwrap()@,
            external_url: match self.external_url {
                Some(v) => v@,
                None => Seq::empty(),
            },
            state: self.state.unwrap(),
            tier: self.tier.unwrap(),
            forge_id: self.forge_id.unwrap(),
            project: self.project.unwrap(),
            created_at: self.created_at.unwrap(),
            updated_at: self.updated_at.unwrap(),
            auto_stop_at: match self.auto_stop_at {
                Some(v) => v,
                None => None,
            },
            cim_fetched_at: now,
            cim_refreshed_at: now,
        }
    }

    /// The name of the environment.
    pub fn name(self, value: &str) -> (r: Self)
        ensures
            r.name is Some,
            r.name.unwrap()@ == value@,
            r == (EnvironmentBuilder { name: r.name, ..self }),
    {
        EnvironmentBuilder { name: Some(value.to_owned()), ..self }
    }

    /// The external URL of the environment.
    pub fn external_url(self, value: &str) -> (r: Self)
        ensures
            r.external_url is Some,
            r.external_url.unwrap()@ == value@,
            r == (EnvironmentBuilder { external_url: r.external_url, ..self }),
    {
        EnvironmentBuilder { external_url: Some(value.to_owned()), ..self }
    }

    /// The state of the environment.
    pub fn state(self, value: EnvironmentState) -> (r: Self)
        ensures
            r == (EnvironmentBuilder { state: Some(value), ..self }),
    {
        EnvironmentBuilder { state: Some(value), ..self }
    }

    /// The tier of the environment.
    pub fn tier(self, value: EnvironmentTier) -> (r: Self)
        ensures
            r == (EnvironmentBuilder { tier: Some(value), ..self }),
    {
        EnvironmentBuilder { tier: Some(value), ..self }
    }

    /// The ID of the environment.
    pub fn forge_id(self, value: u64) -> (r: Self)
        ensures
            r == (EnvironmentBuilder { forge_id: Some(value), ..self }),
    {
        EnvironmentBuilder { forge_id: Some(value), ..self }
    }

    /// The project the environment is for.
    pub fn project(self, value: VecIndex<Project>) -> (r: Self)
        ensures
            r == (EnvironmentBuilder { project: Some(value), ..self }),
    {
        EnvironmentBuilder { project: Some(value), ..self }
    }

    /// When the environment was created.
    pub fn created_at(self, value: Timestamp) -> (r: Self)
        ensures
            r == (EnvironmentBuilder { created_at: Some(value), ..self }),
    {
        EnvironmentBuilder { created_at: Some(value), ..self }
    }

    /// When the environment was updated.
    pub fn updated_at(self, value: Timestamp) -> (r: Self)
        ensures
            r == (EnvironmentBuilder { updated_at: Some(value), ..self }),
    {
        EnvironmentBuilder { updated_at: Some(value), ..self }
    }

    /// When the environment will automatically stop.
    pub fn auto_stop_at(self, value: Option<Timestamp>) -> (r: Self)
        ensures
            r == (EnvironmentBuilder { auto_stop_at: Some(value), ..self }),
    {
        EnvironmentBuilder { auto_stop_at: Some(value), ..self }
    }

    /// Build the environment as first seen at `now`, or name the first required field
    /// that is missing.
    pub fn build_at(self, now: Timestamp) -> (r: Result<Environment, EnvironmentBuilderError>)
        ensures
            match r {
                Ok(v) => self.missing() is None && v@ == self.record(now),
                Err(e) => e matches EnvironmentBuilderError::UninitializedField(f)
                    && self.missing() == Some(f@),
            },
    {
        let name = match self.name {
            Some(v) => v,
            None => return Err(EnvironmentBuilderError::UninitializedField("name")),
        };
        let state = match self.state {
            Some(v) => v,
            None => return Err(EnvironmentBuilderError::UninitializedField("state")),
        };
        let tier = match self.tier {
            Some(v) => v,
            None => return Err(EnvironmentBuilderError::UninitializedField("tier")),
        };
        let forge_id = match self.forge_id {
            Some(v) => v,
            None => return Err(EnvironmentBuilderError::UninitializedField("forge_id")),
        };
        let project = match self.project {
            Some(v) => v,
            None => return Err(EnvironmentBuilderError::UninitializedField("project")),
        };
        let created_at = match self.created_at {
            Some(v) => v,
            None => return Err(EnvironmentBuilderError::UninitializedField("created_at")),
        };
        let updated_at = match self.updated_at {
            Some(v) => v,
            None => return Err(EnvironmentBuilderError::UninitializedField("updated_at")),
        };
        let external_url = match self.external_url {
            Some(v) => v,
            None => String::new(),
        };
        let auto_stop_at = match self.auto_stop_at {
            Some(v) => v,
            None => None,
        };
        Ok(Environment {
            name,
            external_url,
            state,
            tier,
            forge_id,
            project,
            created_at,
            updated_at,
            auto_stop_at,
            cim_fetched_at: now,
            cim_refreshed_at: now,
        })
    }

    /// Build the environment as first seen now, or name the first required field that
    /// is missing.
    pub fn build(self) -> (r: Result<Environment, EnvironmentBuilderError>)
        ensures
            match r {
                Ok(v) => self.missing() is None && v@ == self.record(v.cim_fetched_at),
                Err(e) => e matches EnvironmentBuilderError::UninitializedField(f)
                    && self.missing() == Some(f@),
            },
    {
        self.build_at(Timestamp::now())
    }
}

} // verus!
