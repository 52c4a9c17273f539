//! The machines that runners execute on.

use vstd::prelude::*;
use crate::data::number::Binary64;
use crate::time::Timestamp;

verus! {

/// Information about a machine that performs jobs.
#[derive(Debug)]
pub struct RunnerHost {
    /// The operating system.
    pub os: String,
    /// The operating system version.
    pub os_version: String,
    /// The name of the host.
    ///
    /// Hostname or instance type name.
    pub name: String,
    /// How the host is managed.
    pub management: String,
    /// Where the host lives.
    pub location: String,
    /// An estimate of the cost of tasks on this host per hour.
    pub estimated_cost_per_hour: Option<Binary64>,
    /// A unique ID for the runner host.
    pub unique_id: u64,
    /// When the monitoring tool first fetched information.
    pub cim_fetched_at: Timestamp,
    /// When the monitoring tool last updated this information.
    pub cim_refreshed_at: Timestamp,
}

/// What a [`RunnerHost`] says.
pub struct RunnerHostView {
    pub os: Seq<char>,
    pub os_version: Seq<char>,
    pub name: Seq<char>,
    pub management: Seq<char>,
    pub location: Seq<char>,
    pub estimated_cost_per_hour: Option<Binary64>,
    pub unique_id: u64,
    pub cim_fetched_at: Timestamp,
    pub cim_refreshed_at: Timestamp,
}

impl View for RunnerHost {
    type V = RunnerHostView;

    open spec fn view(&self) -> RunnerHostView {
        RunnerHostView {
            os: self.os@,
            os_version: self.os_version@,
            name: self.name@,
            management: self.management@,
            location: self.location@,
            estimated_cost_per_hour: self.estimated_cost_per_hour,
            unique_id: self.unique_id,
            cim_fetched_at: self.cim_fetched_at,
            cim_refreshed_at: self.cim_refreshed_at,
        }
    }
}

impl Clone for RunnerHost {
    fn clone(&self) -> (r: Self)
        ensures
            r@ == self@,
    {
        RunnerHost {
            os: self.os.clone(),
            os_version: self.os_version.clone(),
            name: self.name.clone(),
            management: self.management.clone(),
            location: self.location.clone(),
            estimated_cost_per_hour: self.estimated_cost_per_hour,
            unique_id: self.unique_id,
            cim_fetched_at: self.cim_fetched_at,
            cim_refreshed_at: self.cim_refreshed_at,
        }
    }
}

impl RunnerHostView {
    /// The record was first fetched no later than it was last refreshed.
    pub open spec fn stamps_ordered(self) -> bool {
        self.cim_fetched_at.spec_at_most(self.cim_refreshed_at)
    }
}

/// Why a [`RunnerHost`] could not be built.
#[derive(Debug)]
pub enum RunnerHostBuilderError {
    /// A required field was never set.
    UninitializedField(&'static str),
    /// The fields that were set do not make a valid value.
    ValidationError(String),
}

/// Collects the fields of a [`RunnerHost`].
#[derive(Debug)]
pub struct RunnerHostBuilder {
    pub os: Option<String>,
    pub os_version: Option<String>,
    pub name: Option<String>,
    pub management: Option<String>,
    pub location: Option<String>,
    pub estimated_cost_per_hour: Option<Option<Binary64>>,
    pub unique_id: Option<u64>,
}

impl RunnerHost {
    /// Create a builder for the structure.
    pub fn builder() -> (r: RunnerHostBuilder)
        ensures
            r == RunnerHostBuilder::empty(),
    {
        RunnerHostBuilder {
            os: None,
            os_version: None,
            name: None,
            management: None,
            location: None,
            estimated_cost_per_hour: None,
            unique_id: None,
        }
    }
}

impl RunnerHostBuilder {
    /// The builder with no field set.
    pub open spec fn empty() -> RunnerHostBuilder {
        RunnerHostBuilder {
            os: None,
            os_version: None,
            name: None,
            management: None,
            location: None,
            estimated_cost_per_hour: None,
            unique_id: None,
        }
    }

    /// The first required field, in declaration order, that is not set.
    pub open spec fn missing(self) -> Option<Seq<char>> {
        if self.name is None {
            Some("name"@)
        } else if self.unique_id is None {
            Some("unique_id"@)
        } else {
            None
        }
    }

    /// What the builder makes at the instant `now`, once every required field
    /// is set.
    pub open spec fn record(self, now: Timestamp) -> RunnerHostView {
        RunnerHostView {
            os: match self.os {
                Some(v) => v@,
                None => Seq::empty(),
            },
            os_version: match self.os_version {
                Some(v) => v@,
                None => Seq::empty(),
            },
            name: self.name.unwrap()@,
            management: match self.management {
                Some(v) => v@,
                None => Seq::empty(),
            },
            location: match self.location {
                Some(v) => v@,
                None => Seq::empty(),
            },
            estimated_cost_per_hour: match self.estimated_cost_per_hour {
                Some(v) => v,
                None => None,
            },
            unique_id: self.unique_id.unwrap(),
            cim_fetched_at: now,
            cim_refreshed_at: now,
        }
    }

    /// The operating system.
    pub fn os(self, value: &str) -> (r: Self)
        ensures
            r.os is Some,
            r.os.unwrap()@ == value@,
            r == (RunnerHostBuilder { os: r.os, ..self }),
    {
        RunnerHostBuilder { os: Some(value.to_owned()), ..self }
    }

    /// The operating system version.
    pub fn os_version(self, value: &str) -> (r: Self)
        ensures
            r.os_version is Some,
            r.os_version.unwrap()@ == value@,
            r == (RunnerHostBuilder { os_version: r.os_version, ..self }),
    {
        RunnerHostBuilder { os_version: Some(value.to_owned()), ..self }
    }

    /// The name of the host.
    ///
    /// Hostname or instance type name.
    pub fn name(self, value: &str) -> (r: Self)
        ensures
            r.name is Some,
            r.name.unwrap()@ == value@,
            r == (RunnerHostBuilder { name: r.name, ..self }),
    {
        RunnerHostBuilder { name: Some(value.to_owned()), ..self }
    }

    /// How the host is managed.
    pub fn management(self, value: &str) -> (r: Self)
        ensures
            r.management is Some,
            r.management.unwrap()@ == value@,
            r == (RunnerHostBuilder { management: r.management, ..self }),
    {
        RunnerHostBuilder { management: Some(value.to_owned()), ..self }
    }

    /// Where the host lives.
    pub fn location(self, value: &str) -> (r: Self)
        ensures
            r.location is Some,
            r.location.unwrap()@ == value@,
            r == (RunnerHostBuilder { location: r.location, ..self }),
    {
        RunnerHostBuilder { location: Some(value.to_owned()), ..self }
    }

    /// An estimate of the cost of tasks on this host per hour.
    pub fn estimated_cost_per_hour(self, value: Option<Binary64>) -> (r: Self)
        ensures
            r == (RunnerHostBuilder { estimated_cost_per_hour: Some(value), ..self }),
    {
        RunnerHostBuilder { estimated_cost_per_hour: Some(value), ..self }
    }

    /// A unique ID for the runner host.
    pub fn unique_id(self, value: u64) -> (r: Self)
        ensures
            r == (RunnerHostBuilder { unique_id: Some(value), ..self }),
    {
        RunnerHostBuilder { unique_id: Some(value), ..self }
    }

    /// Build the runner host as first seen at `now`, or name the first required field
    /// that is missing.
    pub fn build_at(self, now: Timestamp) -> (r: Result<RunnerHost, RunnerHostBuilderError>)
        ensures
            match r {
                Ok(v) => self.missing() is None && v@ == self.record(now),
                Err(e) => e matches RunnerHostBuilderError::UninitializedField(f)
                    && self.missing() == Some(f@),
            },
    {
        let name = match self.name {
            Some(v) => v,
            None => return Err(RunnerHostBuilderError::UninitializedField("name")),
        };
        let unique_id = match self.unique_id {
            Some(v) => v,
            None => return Err(RunnerHostBuilderError::UninitializedField("unique_id")),
        };
        let os = match self.os {
            Some(v) => v,
            None => String::new(),
        };
        let os_version = match self.os_version {
            Some(v) => v,
            None => String::new(),
        };
        let management = match self.management {
            Some(v) => v,
            None => String::new(),
        };
        let location = match self.location {
            Some(v) => v,
            None => String::new(),
        };
        let estimated_cost_per_hour = match self.estimated_cost_per_hour {
            Some(v) => v,
            None => None,
        };
        Ok(RunnerHost {
            os,
            os_version,
            name,
            management,
            location,
            estimated_cost_per_hour,
            unique_id,
            cim_fetched_at: now,
            cim_refreshed_at: now,
        })
    }

    /// Build the runner host as first seen now, or name the first required field that
    /// is missing.
    pub fn build(self) -> (r: Result<RunnerHost, RunnerHostBuilderError>)
        ensures
            match r {
                Ok(v) => self.missing() is None && v@ == self.record(v.cim_fetched_at),
                Err(e) => e matches RunnerHostBuilderError::UninitializedField(f)
                    && self.missing() == Some(f@),
            },
    {
        self.build_at(Timestamp::now())
    }
}

} // verus!
