//! Merge requests.

use vstd::prelude::*;
use crate::data::project::Project;
use crate::data::user::User;
use crate::objects::vec::VecIndex;
use crate::text::str_eq;
use crate::time::Timestamp;

verus! {

/// The status of a merge request.
#[derive(Debug, Clone, Copy, PartialEq, Eq, Structural)]
pub enum MergeRequestStatus {
    /// The merge request is open.
    Open,
    /// The merge request has been closed without merging.
    Closed,
    /// The merge request has been merged.
    Merged,
}

impl MergeRequestStatus {
    /// The canonical name of the value.
    pub open spec fn spec_name(self) -> Seq<char> {
        match self {
            MergeRequestStatus::Open => "open"@,
            MergeRequestStatus::Closed => "closed"@,
            MergeRequestStatus::Merged => "merged"@,
        }
    }

    /// The value with a given canonical name, if there is one.
    pub open spec fn spec_from_name(name: Seq<char>) -> Option<MergeRequestStatus> {
        if name == "open"@ {
            Some(MergeRequestStatus::Open)
        } else if name == "closed"@ {
            Some(MergeRequestStatus::Closed)
        } else if name == "merged"@ {
            Some(MergeRequestStatus::Merged)
        } else {
            None
        }
    }

    /// The canonical name of the value.
    pub fn name(self) -> (r: &'static str)
        ensures
            r@ == self.spec_name(),
    {
        match self {
            MergeRequestStatus::Open => "open",
            MergeRequestStatus::Closed => "closed",
            MergeRequestStatus::Merged => "merged",
        }
    }

    /// The value named by `name`.
    pub fn from_name(name: &str) -> (r: Option<MergeRequestStatus>)
        ensures
            r == Self::spec_from_name(name@),
    {
        if str_eq(name, "open") {
            Some(MergeRequestStatus::Open)
        } else if str_eq(name, "closed") {
            Some(MergeRequestStatus::Closed)
        } else if str_eq(name, "merged") {
            Some(MergeRequestStatus::Merged)
        } else {
            None
        }
    }
}

/// Every value is found again by its canonical name.
pub proof fn lemma_merge_request_status_name_round_trip(value: MergeRequestStatus)
    ensures
        MergeRequestStatus::spec_from_name(value.spec_name()) == Some(value),
{
    reveal_strlit("open");
    reveal_strlit("closed");
    reveal_strlit("merged");
    assert("open"@.len() == 4);
    assert("closed"@.len() == 6);
    assert("merged"@.len() == 6);
    assert("closed"@[0] != "merged"@[0]);
}

/// A merge request.
#[derive(Debug)]
pub struct MergeRequest {
    /// The user-visible ID of the merge request.
    pub id: u64,
    /// The source project.
    pub source_project: VecIndex<Project>,
    /// The source branch.
    pub source_branch: String,
    /// The `HEAD` commit of the merge request.
    pub sha: String,
    /// The target project.
    pub target_project: VecIndex<Project>,
    /// The target branch.
    pub target_branch: String,
    /// The id of the merge request.
    pub forge_id: u64,
    /// The title of the merge request.
    pub title: String,
    /// The description of the merge request.
    pub description: String,
    /// The state of the merge request.
    pub state: MergeRequestStatus,
    /// The author of the merge request.
    pub author: VecIndex<User>,
    /// The URL of the pipeline webpage.
    pub url: String,
    /// When the monitoring tool first fetched information.
    pub cim_fetched_at: Timestamp,
    /// When the monitoring tool last updated this information.
    pub cim_refreshed_at: Timestamp,
}

/// What a [`MergeRequest`] says.
pub struct MergeRequestView {
    pub id: u64,
    pub source_project: VecIndex<Project>,
    pub source_branch: Seq<char>,
    pub sha: Seq<char>,
    pub target_project: VecIndex<Project>,
    pub target_branch: Seq<char>,
    pub forge_id: u64,
    pub title: Seq<char>,
    pub description: Seq<char>,
    pub state: MergeRequestStatus,
    pub author: VecIndex<User>,
    pub url: Seq<char>,
    pub cim_fetched_at: Timestamp,
    pub cim_refreshed_at: Timestamp,
}

impl View for MergeRequest {
    type V = MergeRequestView;

    open spec fn view(&self) -> MergeRequestView {
        MergeRequestView {
            id: self.id,
            source_project: self.source_project,
            source_branch: self.source_branch@,
            sha: self.sha@,
            target_project: self.target_project,
            target_branch: self.target_branch@,
            forge_id: self.forge_id,
            title: self.title@,
            description: self.description@,
            state: self.state,
            author: self.author,
            url: self.url@,
            cim_fetched_at: self.cim_fetched_at,
            cim_refreshed_at: self.cim_refreshed_at,
        }
    }
}

impl Clone for MergeRequest {
    fn clone(&self) -> (r: Self)
        ensures
            r@ == self@,
    {
        MergeRequest {
            id: self.id,
            source_project: self.source_project,
            source_branch: self.source_branch.clone(),
            sha: self.sha.clone(),
            target_project: self.target_project,
            target_branch: self.target_branch.clone(),
            forge_id: self.forge_id,
            title: self.title.clone(),
            description: self.description.clone(),
            state: self.state,
            author: self.author,
            url: self.url.clone(),
            cim_fetched_at: self.cim_fetched_at,
            cim_refreshed_at: self.cim_refreshed_at,
        }
    }
}

impl MergeRequestView {
    /// The record was first fetched no later than it was last refreshed.
    pub open spec fn stamps_ordered(self) -> bool {
        self.cim_fetched_at.spec_at_most(self.cim_refreshed_at)
    }
}

/// Why a [`MergeRequest`] could not be built.
#[derive(Debug)]
pub enum MergeRequestBuilderError {
    /// A required field was never set.
    UninitializedField(&'static str),
    /// The fields that were set do not make a valid value.
    ValidationError(String),
}

/// Collects the fields of a [`MergeRequest`].
#[derive(Debug)]
pub struct MergeRequestBuilder {
    pub id: Option<u64>,
    pub source_project: Option<VecIndex<Project>>,
    pub source_branch: Option<String>,
    pub sha: Option<String>,
    pub target_project: Option<VecIndex<Project>>,
    pub target_branch: Option<String>,
    pub forge_id: Option<u64>,
    pub title: Option<String>,
    pub description: Option<String>,
    pub state: Option<MergeRequestStatus>,
    pub author: Option<VecIndex<User>>,
    pub url: Option<String>,
}

impl MergeRequest {
    /// Create a builder for the structure.
    pub fn builder() -> (r: MergeRequestBuilder)
        ensures
            r == MergeRequestBuilder::empty(),
    {
        MergeRequestBuilder {
            id: None,
            source_project: None,
            source_branch: None,
            sha: None,
            target_project: None,
            target_branch: None,
            forge_id: None,
            title: None,
            description: None,
            state: None,
            author: None,
            url: None,
        }
    }
}

impl MergeRequestBuilder {
    /// The builder with no field set.
    pub open spec fn empty() -> MergeRequestBuilder {
        MergeRequestBuilder {
            id: None,
            source_project: None,
            source_branch: None,
            sha: None,
            target_project: None,
            target_branch: None,
            forge_id: None,
            title: None,
            description: None,
            state: None,
            author: None,
            url: None,
        }
    }

    /// The first required field, in declaration order, that is not set.
    pub open spec fn missing(self) -> Option<Seq<char>> {
        if self.id is None {
            Some("id"@)
        } else if self.source_project is None {
            Some("source_project"@)
        } else if self.target_project is None {
            Some("target_project"@)
        } else if self.forge_id is None {
            Some("forge_id"@)
        } else if self.state is None {
            Some("state"@)
        } else if self.author is None {
            Some("author"@)
        } else if self.url is None {
            Some("url"@)
        } else {
            None
        }
    }

    /// What the builder makes at the instant `now`, once every required field
    /// is set.
    pub open spec fn record(self, now: Timestamp) -> MergeRequestView {
        MergeRequestView {
            id: self.id.unwrap(),
            source_project: self.source_project.unwrap(),
            source_branch: match self.source_branch {
                Some(v) => v@,
                None => Seq::empty(),
            },
            sha: match self.sha {
                Some(v) => v@,
                None => Seq::empty(),
            },
            target_project: self.target_project.unwrap(),
            target_branch: match self.target_branch {
                Some(v) => v@,
                None => Seq::empty(),
            },
            forge_id: self.forge_id.unwrap(),
            title: match self.title {
                Some(v) => v@,
                None => Seq::empty(),
            },
            description: match self.description {
                Some(v) => v@,
                None => Seq::empty(),
            },
            state: self.state.unwrap(),
            author: self.author.unwrap(),
            url: self.url.unwrap()@,
            cim_fetched_at: now,
            cim_refreshed_at: now,
        }
    }

    /// The user-visible ID of the merge request.
    pub fn id(self, value: u64) -> (r: Self)
        ensures
            r == (MergeRequestBuilder { id: Some(value), ..self }),
    {
        MergeRequestBuilder { id: Some(value), ..self }
    }

    /// The source project.
    pub fn source_project(self, value: VecIndex<Project>) -> (r: Self)
        ensures
            r == (MergeRequestBuilder { source_project: Some(value), ..self }),
    {
        MergeRequestBuilder { source_project: Some(value), ..self }
    }

    /// The source branch.
    pub fn source_branch(self, value: &str) -> (r: Self)
        ensures
            r.source_branch is Some,
            r.source_branch.unwrap()@ == value@,
            r == (MergeRequestBuilder { source_branch: r.source_branch, ..self }),
    {
        MergeRequestBuilder { source_branch: Some(value.to_owned()), ..self }
    }

    /// The `HEAD` commit of the merge request.
    pub fn sha(self, value: &str) -> (r: Self)
        ensures
            r.sha is Some,
            r.sha.unwrap()@ == value@,
            r == (MergeRequestBuilder { sha: r.sha, ..self }),
    {
        MergeRequestBuilder { sha: Some(value.to_owned()), ..self }
    }

    /// The target project.
    pub fn target_project(self, value: VecIndex<Project>) -> (r: Self)
        ensures
            r == (MergeRequestBuilder { target_project: Some(value), ..self }),
    {
        MergeRequestBuilder { target_project: Some(value), ..self }
    }

    /// The target branch.
    pub fn target_branch(self, value: &str) -> (r: Self)
        ensures
            r.target_branch is Some,
            r.target_branch.unwrap()@ == value@,
            r == (MergeRequestBuilder { target_branch: r.target_branch, ..self }),
    {
        MergeRequestBuilder { target_branch: Some(value.to_owned()), ..self }
    }

    /// The id of the merge request.
    pub fn forge_id(self, value: u64) -> (r: Self)
        ensures
            r == (MergeRequestBuilder { forge_id: Some(value), ..self }),
    {
        MergeRequestBuilder { forge_id: Some(value), ..self }
    }

    /// The title of the merge request.
    pub fn title(self, value: &str) -> (r: Self)
        ensures
            r.title is Some,
            r.title.unwrap()@ == value@,
            r == (MergeRequestBuilder { title: r.title, ..self }),
    {
        MergeRequestBuilder { title: Some(value.to_owned()), ..self }
    }

    /// The description of the merge request.
    pub fn description(self, value: &str) -> (r: Self)
        ensures
            r.description is Some,
            r.description.unwrap()@ == value@,
            r == (MergeRequestBuilder { description: r.description, ..self }),
    {
        MergeRequestBuilder { description: Some(value.to_owned()), ..self }
    }

    /// The state of the merge request.
    pub fn state(self, value: MergeRequestStatus) -> (r: Self)
        ensures
            r == (MergeRequestBuilder { state: Some(value), ..self }),
    {
        MergeRequestBuilder { state: Some(value), ..self }
    }

    /// The author of the merge request.
    pub fn author(self, value: VecIndex<User>) -> (r: Self)
        ensures
            r == (MergeRequestBuilder { author: Some(value), ..self }),
    {
        MergeRequestBuilder { author: Some(value), ..self }
    }

    /// The URL of the pipeline webpage.
    pub fn url(self, value: &str) -> (r: Self)
        ensures
            r.url is Some,
            r.url.unwrap()@ == value@,
            r == (MergeRequestBuilder { url: r.url, ..self }),
    {
        MergeRequestBuilder { url: Some(value.to_owned()), ..self }
    }

    /// Build the merge request as first seen at `now`, or name the first required field
    /// that is missing.
    pub fn build_at(self, now: Timestamp) -> (r: Result<MergeRequest, MergeRequestBuilderError>)
        ensures
            match r {
                Ok(v) => self.missing() is None && v@ == self.record(now),
                Err(e) => e matches MergeRequestBuilderError::UninitializedField(f)
                    && self.missing() == Some(f@),
            },
    {
        let id = match self.id {
            Some(v) => v,
            None => return Err(MergeRequestBuilderError::UninitializedField("id")),
        };
        let source_project = match self.source_project {
            Some(v) => v,
            None => return Err(MergeRequestBuilderError::UninitializedField("source_project")),
        };
        let target_project = match self.target_project {
            Some(v) => v,
            None => return Err(MergeRequestBuilderError::UninitializedField("target_project")),
        };
        let forge_id = match self.forge_id {
            Some(v) => v,
            None => return Err(MergeRequestBuilderError::UninitializedField("forge_id")),
        };
        let state = match self.state {
            Some(v) => v,
            None => return Err(MergeRequestBuilderError::UninitializedField("state")),
        };
        let author = match self.author {
            Some(v) => v,
            None => return Err(MergeRequestBuilderError::UninitializedField("author")),
        };
        let url = match self.url {
            Some(v) => v,
            None => return Err(MergeRequestBuilderError::UninitializedField("url")),
        };
        let source_branch = match self.source_branch {
            Some(v) => v,
            None => String::new(),
        };
        let sha = match self.sha {
            Some(v) => v,
            None => String::new(),
        };
        let target_branch = match self.target_branch {
            Some(v) => v,
            None => String::new(),
        };
        let title = match self.title {
            Some(v) => v,
            None => String::new(),
        };
        let description = match self.description {
            Some(v) => v,
            None => String::new(),
        };
        Ok(MergeRequest {
            id,
            source_project,
            source_branch,
            sha,
            target_project,
            target_branch,
            forge_id,
            title,
            description,
            state,
            author,
            url,
            cim_fetched_at: now,
            cim_refreshed_at: now,
        })
    }

    /// Build the merge request as first seen now, or name the first required field that
    /// is missing.
    pub fn build(self) -> (r: Result<MergeRequest, MergeRequestBuilderError>)
        ensures
            match r {
                Ok(v) => self.missing() is None && v@ == self.record(v.cim_fetched_at),
                Err(e) => e matches MergeRequestBuilderError::UninitializedField(f)
                    && self.missing() == Some(f@),
            },
    {
        self.build_at(Timestamp::now())
    }
}

} // verus!
