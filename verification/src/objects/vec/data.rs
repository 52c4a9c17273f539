//! The references of each entity type, and their validation against a store.

use vstd::prelude::*;
use crate::data::deployment::{Deployment, DeploymentView};
use crate::data::environment::{Environment, EnvironmentView};
use crate::data::instance::{Instance, InstanceView};
use crate::data::job::{Job, JobView};
use crate::data::job_artifact::{JobArtifact, JobArtifactView};
use crate::data::merge_request::{MergeRequest, MergeRequestView};
use crate::data::pipeline::{Pipeline, PipelineView};
use crate::data::pipeline_schedule::{PipelineSchedule, PipelineScheduleView};
use crate::data::project::{Project, ProjectView};
use crate::data::runner::{Runner, RunnerView};
use crate::data::runner_host::{RunnerHost, RunnerHostView};
use crate::data::user::{User, UserView};
use crate::objects::vec::json::{lemma_deployment_json_round_trip, DeploymentJson};
use crate::objects::vec::json::{lemma_environment_json_round_trip, EnvironmentJson};
use crate::objects::vec::json::{lemma_instance_json_round_trip, InstanceJson};
use crate::objects::vec::json::{lemma_job_artifact_json_round_trip, JobArtifactJson};
use crate::objects::vec::json::{lemma_job_json_round_trip, JobJson};
use crate::objects::vec::json::{lemma_merge_request_json_round_trip, MergeRequestJson};
use crate::objects::vec::json::{lemma_pipeline_json_round_trip, PipelineJson};
use crate::objects::vec::json::{lemma_pipeline_schedule_json_round_trip, PipelineScheduleJson};
use crate::objects::vec::json::{lemma_project_json_round_trip, ProjectJson};
use crate::objects::vec::json::{lemma_runner_host_json_round_trip, RunnerHostJson};
use crate::objects::vec::json::{lemma_runner_json_round_trip, RunnerJson};
use crate::objects::vec::json::{lemma_user_json_round_trip, UserJson};
use crate::objects::vec::json::created;
use crate::objects::vec::persist::{check_view, VecStoreError, VecStoreErrorView};
use crate::objects::vec::{
    holds_key, lemma_held_key_has_first, lemma_upsert, upsert, Counts, Keyed, VecIndex, VecLookup,
    VecLookupView,
};

verus! {

/// The name of an entity type, as error messages give it.
pub trait Typename {
    /// The name of the type.
    spec fn spec_typename() -> Seq<char>;

    /// The name of the type.
    fn typename() -> (r: &'static str)
        ensures
            r@ == Self::spec_typename(),
    ;
}

/// A record that may carry the instants at which it was first fetched and
/// last refreshed.
pub trait Stamped: Sized {
    /// Whether the record was first fetched no later than it was last
    /// refreshed; true of a record without such instants.
    spec fn in_order(self) -> bool;
}

/// Whether the stamps of every record of `s` are in order.
pub open spec fn all_in_order<V: Stamped>(s: Seq<V>) -> bool {
    forall|i: int| 0 <= i < s.len() ==> (#[trigger] s[i]).in_order()
}

/// Putting a record in place keeps the stamps in order.
pub proof fn lemma_upsert_in_order<V: Stamped + Keyed>(s: Seq<V>, record: V)
    requires
        all_in_order(s),
        record.in_order(),
    ensures
        all_in_order(upsert(s, record)),
{
    if holds_key(s, record.key()) {
        lemma_held_key_has_first(s, record.key());
    }
    let after = upsert(s, record);
    assert forall|i: int| 0 <= i < after.len() implies (#[trigger] after[i]).in_order() by {
        if i < s.len() && after[i] != record {
            assert(s[i].in_order());
        }
    }
}

/// What a record refers to.
pub trait Refs: Sized {
    /// Whether every reference of the record is below the count of the type
    /// that it refers to.
    spec fn refs_within(self, counts: Counts) -> bool;

    /// The first reference, in checking order, that is not below its count:
    /// the name of the type referred to, and the index.
    spec fn first_missing(self, counts: Counts) -> Option<(Seq<char>, usize)>;

    /// References that are within some counts are within greater ones.
    proof fn lemma_refs_grow(self, a: Counts, b: Counts)
        requires
            self.refs_within(a),
            a.within(b),
        ensures
            self.refs_within(b),
    ;

    /// A record has a first missing reference exactly when its references are
    /// not all within the counts.
    proof fn lemma_first_missing(self, counts: Counts)
        ensures
            self.first_missing(counts) is None <==> self.refs_within(counts),
    ;
}

/// An entity that is kept as a record in a file.
pub trait JsonStorable: Sized + View<V: Refs> + Typename {
    /// The record that holds the entity.
    type Json;

    /// Whether `record` holds what `v` says.
    spec fn describes(record: Self::Json, v: Self::V) -> bool;

    /// What `record` says, or the error for the first of its names that names
    /// nothing.
    spec fn spec_create(record: Self::Json) -> Result<Self::V, VecStoreErrorView>;

    /// Whether `v` is what an entity can say: the keys of its variables are
    /// distinct.
    spec fn proper(v: Self::V) -> bool;

    /// The record that holds the entity.
    fn to_json(&self) -> (r: Self::Json)
        ensures
            Self::describes(r, self@),
    ;

    /// The entity that a record holds.
    fn from_json(json: &Self::Json) -> (r: Result<Self, VecStoreError>)
        ensures
            created(r) == Self::spec_create(*json),
    ;

    /// Check that every reference of the entity names a record of `storage`;
    /// else name the first that does not, in the order in which the
    /// references are checked, and the entity at `self_index` that holds it.
    fn validate_indices(&self, self_index: VecIndex<Self>, storage: &VecLookup) -> (r: Result<
        (),
        VecStoreError,
    >)
        ensures
            check_view(r) == validated::<Self>(
                self@.first_missing(storage@.counts()),
                self_index.idx,
            ),
            r is Ok <==> self@.refs_within(storage@.counts()),
    ;

    /// An entity is read back from the record that was written for it.
    proof fn lemma_round_trip(record: Self::Json, v: Self::V)
        requires
            Self::describes(record, v),
            Self::proper(v),
        ensures
            Self::spec_create(record) == Ok::<Self::V, VecStoreErrorView>(v),
    ;

    /// What an entity says is proper.
    proof fn lemma_proper(self)
        ensures
            Self::proper(self@),
    ;
}

/// Whether every record of `s` has its references within `counts`.
pub open spec fn all_within<V: Refs>(s: Seq<V>, counts: Counts) -> bool {
    forall|i: int| 0 <= i < s.len() ==> (#[trigger] s[i]).refs_within(counts)
}

/// The first position of `s` whose index is not below `count`; the length of
/// `s` where there is none.
pub open spec fn first_beyond<T>(s: Seq<VecIndex<T>>, count: usize) -> int
    decreases s.len(),
{
    if s.len() == 0 {
        0
    } else if s[0].idx >= count {
        0
    } else {
        1 + first_beyond(s.drop_first(), count)
    }
}

/// What `first_beyond` finds.
pub proof fn lemma_first_beyond<T>(s: Seq<VecIndex<T>>, count: usize)
    ensures
        0 <= first_beyond(s, count) <= s.len(),
        forall|k: int| 0 <= k < first_beyond(s, count) ==> (#[trigger] s[k]).idx < count,
        first_beyond(s, count) < s.len() ==> s[first_beyond(s, count)].idx >= count,
    decreases s.len(),
{
    if s.len() > 0 && s[0].idx < count {
        let rest = s.drop_first();
        lemma_first_beyond(rest, count);
        assert forall|k: int| 0 <= k < first_beyond(s, count) implies (#[trigger] s[k]).idx
            < count by {
            if k > 0 {
                assert(s[k] == rest[k - 1]);
            }
        }
    }
}

/// The first index that is not below `count` stands at `first_beyond`.
pub proof fn lemma_first_beyond_is<T>(s: Seq<VecIndex<T>>, count: usize, k: int)
    requires
        0 <= k < s.len(),
        s[k].idx >= count,
        forall|j: int| 0 <= j < k ==> (#[trigger] s[j]).idx < count,
    ensures
        first_beyond(s, count) == k,
{
    lemma_first_beyond(s, count);
    let p = first_beyond(s, count);
    if p < k {
        assert(s[p].idx < count);
    } else if p > k {
        assert(s[k].idx < count);
    }
}

/// Records that are within some counts are within greater ones.
pub proof fn lemma_all_grow<V: Refs>(s: Seq<V>, a: Counts, b: Counts)
    requires
        all_within(s, a),
        a.within(b),
    ensures
        all_within(s, b),
{
    assert forall|i: int| 0 <= i < s.len() implies (#[trigger] s[i]).refs_within(b) by {
        s[i].lemma_refs_grow(a, b);
    }
}

/// Putting a record in place keeps the records within the counts.
pub proof fn lemma_upsert_within<V: Refs + Keyed>(s: Seq<V>, record: V, counts: Counts)
    requires
        all_within(s, counts),
        record.refs_within(counts),
    ensures
        all_within(upsert(s, record), counts),
{
    if holds_key(s, record.key()) {
        lemma_held_key_has_first(s, record.key());
    }
    let after = upsert(s, record);
    assert forall|i: int| 0 <= i < after.len() implies (#[trigger] after[i]).refs_within(counts) by {
        if i < s.len() && after[i] != record {
            assert(s[i].refs_within(counts));
        }
    }
}

/// Putting a record in place adds at most one record.
pub proof fn lemma_upsert_len<V: Keyed>(s: Seq<V>, record: V)
    ensures
        s.len() <= upsert(s, record).len() <= s.len() + 1,
{
    if holds_key(s, record.key()) {
        lemma_held_key_has_first(s, record.key());
    }
}

/// The outcome of a validation: success where no reference is missing, else
/// the error that names the missing reference and the record at `from_index`
/// of type `F` that holds it.
pub open spec fn validated<F: Typename>(
    missing: Option<(Seq<char>, usize)>,
    from_index: usize,
) -> Result<(), VecStoreErrorView> {
    match missing {
        None => Ok(()),
        Some((missing_type, missing_index)) => Err(
            VecStoreErrorView::MissingIndex {
                missing_type,
                missing_index,
                from_type: F::spec_typename(),
                from_index,
            },
        ),
    }
}

/// Check that `index` names one of the `count` records of its type; the
/// record at `from_index` is the one that refers to it.
pub fn validate_index<T: Typename, F: Typename>(
    from_index: &VecIndex<F>,
    count: usize,
    index: &VecIndex<T>,
) -> (r: Result<(), VecStoreError>)
    ensures
        r is Ok <==> index.idx < count,
        r is Err ==> check_view(r) == validated::<F>(Some((T::spec_typename(), index.idx)), from_index.idx),
{
    if index.idx >= count {
        return Err(
            VecStoreError::MissingIndex {
                missing_type: T::typename(),
                missing_index: index.idx,
                from_type: F::typename(),
                from_index: from_index.idx,
            },
        );
    }
    Ok(())
}

impl Typename for Deployment {
    open spec fn spec_typename() -> Seq<char> {
        "deployment"@
    }

    fn typename() -> (r: &'static str) {
        "deployment"
    }
}

impl Stamped for DeploymentView {
    open spec fn in_order(self) -> bool {
        self.stamps_ordered()
    }
}

impl Refs for DeploymentView {
    open spec fn refs_within(self, counts: Counts) -> bool {
        &&& self.pipeline.idx < counts.pipelines
        &&& self.environment.idx < counts.environments
    }

    open spec fn first_missing(self, counts: Counts) -> Option<(Seq<char>, usize)> {
        if self.pipeline.idx >= counts.pipelines {
            Some(("pipeline"@, self.pipeline.idx))
        } else if self.environment.idx >= counts.environments {
            Some(("environment"@, self.environment.idx))
        } else {
            None
        }
    }

    proof fn lemma_refs_grow(self, a: Counts, b: Counts) {
    }

    proof fn lemma_first_missing(self, counts: Counts) {
    }
}

impl JsonStorable for Deployment {
    type Json = DeploymentJson;

    open spec fn describes(record: DeploymentJson, v: DeploymentView) -> bool {
        record.describes(v)
    }

    open spec fn spec_create(record: DeploymentJson) -> Result<DeploymentView, VecStoreErrorView> {
        record.spec_create()
    }

    open spec fn proper(v: DeploymentView) -> bool {
        true
    }

    fn to_json(&self) -> (r: DeploymentJson) {
        DeploymentJson::convert_to_json(self)
    }

    fn from_json(json: &DeploymentJson) -> (r: Result<Deployment, VecStoreError>) {
        json.create_from_json()
    }

    proof fn lemma_round_trip(record: DeploymentJson, v: DeploymentView) {
        lemma_deployment_json_round_trip(record, v);
    }

    proof fn lemma_proper(self) {
    }

    fn validate_indices(&self, self_index: VecIndex<Deployment>, storage: &VecLookup) -> (r: Result<
        (),
        VecStoreError,
    >) {
        proof {
            self@.lemma_first_missing(storage@.counts());
        }
        let counts = storage.counts();
        match validate_index(&self_index, counts.pipelines, &self.pipeline) {
            Ok(()) => {},
            Err(e) => return Err(e),
        }
        match validate_index(&self_index, counts.environments, &self.environment) {
            Ok(()) => {},
            Err(e) => return Err(e),
        }
        Ok(())
    }
}

impl Typename for Environment {
    open spec fn spec_typename() -> Seq<char> {
        "environment"@
    }

    fn typename() -> (r: &'static str) {
        "environment"
    }
}

impl Stamped for EnvironmentView {
    open spec fn in_order(self) -> bool {
        self.stamps_ordered()
    }
}

impl Refs for EnvironmentView {
    open spec fn refs_within(self, counts: Counts) -> bool {
        &&& self.project.idx < counts.projects
    }

    open spec fn first_missing(self, counts: Counts) -> Option<(Seq<char>, usize)> {
        if self.project.idx >= counts.projects {
            Some(("project"@, self.project.idx))
        } else {
            None
        }
    }

    proof fn lemma_refs_grow(self, a: Counts, b: Counts) {
    }

    proof fn lemma_first_missing(self, counts: Counts) {
    }
}

impl JsonStorable for Environment {
    type Json = EnvironmentJson;

    open spec fn describes(record: EnvironmentJson, v: EnvironmentView) -> bool {
        record.describes(v)
    }

    open spec fn spec_create(
        record: EnvironmentJson,
    ) -> Result<EnvironmentView, VecStoreErrorView> {
        record.spec_create()
    }

    open spec fn proper(v: EnvironmentView) -> bool {
        true
    }

    fn to_json(&self) -> (r: EnvironmentJson) {
        EnvironmentJson::convert_to_json(self)
    }

    fn from_json(json: &EnvironmentJson) -> (r: Result<Environment, VecStoreError>) {
        json.create_from_json()
    }

    proof fn lemma_round_trip(record: EnvironmentJson, v: EnvironmentView) {
        lemma_environment_json_round_trip(record, v);
    }

    proof fn lemma_proper(self) {
    }

    fn validate_indices(
        &self,
        self_index: VecIndex<Environment>,
        storage: &VecLookup,
    ) -> (r: Result<
        (),
        VecStoreError,
    >) {
        proof {
            self@.lemma_first_missing(storage@.counts());
        }
        let counts = storage.counts();
        match validate_index(&self_index, counts.projects, &self.project) {
            Ok(()) => {},
            Err(e) => return Err(e),
        }
        Ok(())
    }
}

impl Typename for Instance {
    open spec fn spec_typename() -> Seq<char> {
        "instance"@
    }

    fn typename() -> (r: &'static str) {
        "instance"
    }
}

impl Stamped for InstanceView {
    open spec fn in_order(self) -> bool {
        true
    }
}

impl Refs for InstanceView {
    open spec fn refs_within(self, counts: Counts) -> bool {
        true
    }

    open spec fn first_missing(self, counts: Counts) -> Option<(Seq<char>, usize)> {
        None
    }

    proof fn lemma_refs_grow(self, a: Counts, b: Counts) {
    }

    proof fn lemma_first_missing(self, counts: Counts) {
    }
}

impl JsonStorable for Instance {
    type Json = InstanceJson;

    open spec fn describes(record: InstanceJson, v: InstanceView) -> bool {
        record.describes(v)
    }

    open spec fn spec_create(record: InstanceJson) -> Result<InstanceView, VecStoreErrorView> {
        record.spec_create()
    }

    open spec fn proper(v: InstanceView) -> bool {
        true
    }

    fn to_json(&self) -> (r: InstanceJson) {
        InstanceJson::convert_to_json(self)
    }

    fn from_json(json: &InstanceJson) -> (r: Result<Instance, VecStoreError>) {
        json.create_from_json()
    }

    proof fn lemma_round_trip(record: InstanceJson, v: InstanceView) {
        lemma_instance_json_round_trip(record, v);
    }

    proof fn lemma_proper(self) {
    }

    fn validate_indices(&self, self_index: VecIndex<Instance>, storage: &VecLookup) -> (r: Result<
        (),
        VecStoreError,
    >) {
        proof {
            self@.lemma_first_missing(storage@.counts());
        }
        Ok(())
    }
}

impl Typename for Job {
    open spec fn spec_typename() -> Seq<char> {
        "job"@
    }

    fn typename() -> (r: &'static str) {
        "job"
    }
}

impl Stamped for JobView {
    open spec fn in_order(self) -> bool {
        self.stamps_ordered()
    }
}

impl Refs for JobView {
    open spec fn refs_within(self, counts: Counts) -> bool {
        &&& self.pipeline.idx < counts.pipelines
        &&& self.user.idx < counts.users
        &&& self.runner matches Some(idx) ==> idx.idx < counts.runners
        &&& self.deployment matches Some(idx) ==> idx.idx < counts.deployments
    }

    open spec fn first_missing(self, counts: Counts) -> Option<(Seq<char>, usize)> {
        if self.pipeline.idx >= counts.pipelines {
            Some(("pipeline"@, self.pipeline.idx))
        } else if self.user.idx >= counts.users {
            Some(("user"@, self.user.idx))
        } else if self.runner is Some && self.runner.unwrap().idx >= counts.runners {
            Some(("runner"@, self.runner.unwrap().idx))
        } else if self.deployment is Some && self.deployment.unwrap().idx >= counts.deployments {
            Some(("deployment"@, self.deployment.unwrap().idx))
        } else {
            None
        }
    }

    proof fn lemma_refs_grow(self, a: Counts, b: Counts) {
    }

    proof fn lemma_first_missing(self, counts: Counts) {
    }
}

impl JsonStorable for Job {
    type Json = JobJson;

    open spec fn describes(record: JobJson, v: JobView) -> bool {
        record.describes(v)
    }

    open spec fn spec_create(record: JobJson) -> Result<JobView, VecStoreErrorView> {
        record.spec_create()
    }

    open spec fn proper(v: JobView) -> bool {
        v.variables.keys_unique()
    }

    fn to_json(&self) -> (r: JobJson) {
        proof {
            self.variables.lemma_keys_unique();
        }
        JobJson::convert_to_json(self)
    }

    fn from_json(json: &JobJson) -> (r: Result<Job, VecStoreError>) {
        json.create_from_json()
    }

    proof fn lemma_round_trip(record: JobJson, v: JobView) {
        lemma_job_json_round_trip(record, v);
    }

    proof fn lemma_proper(self) {
        self.variables.lemma_keys_unique();
    }

    fn validate_indices(&self, self_index: VecIndex<Job>, storage: &VecLookup) -> (r: Result<
        (),
        VecStoreError,
    >) {
        proof {
            self@.lemma_first_missing(storage@.counts());
        }
        let counts = storage.counts();
        match validate_index(&self_index, counts.pipelines, &self.pipeline) {
            Ok(()) => {},
            Err(e) => return Err(e),
        }
        match validate_index(&self_index, counts.users, &self.user) {
            Ok(()) => {},
            Err(e) => return Err(e),
        }
        match &self.runner {
            Some(runner) => match validate_index(&self_index, counts.runners, runner) {
                Ok(()) => {},
                Err(e) => return Err(e),
            },
            None => {},
        }
        match &self.deployment {
            Some(deployment) => match validate_index(&self_index, counts.deployments, deployment) {
                Ok(()) => {},
                Err(e) => return Err(e),
            },
            None => {},
        }
        Ok(())
    }
}

impl Typename for JobArtifact {
    open spec fn spec_typename() -> Seq<char> {
        "job artifact"@
    }

    fn typename() -> (r: &'static str) {
        "job artifact"
    }
}

impl Stamped for JobArtifactView {
    open spec fn in_order(self) -> bool {
        true
    }
}

impl Refs for JobArtifactView {
    open spec fn refs_within(self, counts: Counts) -> bool {
        &&& self.job.idx < counts.jobs
    }

    open spec fn first_missing(self, counts: Counts) -> Option<(Seq<char>, usize)> {
        if self.job.idx >= counts.jobs {
            Some(("job"@, self.job.idx))
        } else {
            None
        }
    }

    proof fn lemma_refs_grow(self, a: Counts, b: Counts) {
    }

    proof fn lemma_first_missing(self, counts: Counts) {
    }
}

impl JsonStorable for JobArtifact {
    type Json = JobArtifactJson;

    open spec fn describes(record: JobArtifactJson, v: JobArtifactView) -> bool {
        record.describes(v)
    }

    open spec fn spec_create(
        record: JobArtifactJson,
    ) -> Result<JobArtifactView, VecStoreErrorView> {
        record.spec_create()
    }

    open spec fn proper(v: JobArtifactView) -> bool {
        true
    }

    fn to_json(&self) -> (r: JobArtifactJson) {
        JobArtifactJson::convert_to_json(self)
    }

    fn from_json(json: &JobArtifactJson) -> (r: Result<JobArtifact, VecStoreError>) {
        json.create_from_json()
    }

    proof fn lemma_round_trip(record: JobArtifactJson, v: JobArtifactView) {
        lemma_job_artifact_json_round_trip(record, v);
    }

    proof fn lemma_proper(self) {
    }

    fn validate_indices(
        &self,
        self_index: VecIndex<JobArtifact>,
        storage: &VecLookup,
    ) -> (r: Result<
        (),
        VecStoreError,
    >) {
        proof {
            self@.lemma_first_missing(storage@.counts());
        }
        let counts = storage.counts();
        match validate_index(&self_index, counts.jobs, &self.job) {
            Ok(()) => {},
            Err(e) => return Err(e),
        }
        Ok(())
    }
}

impl Typename for MergeRequest {
    open spec fn spec_typename() -> Seq<char> {
        "merge request"@
    }

    fn typename() -> (r: &'static str) {
        "merge request"
    }
}

impl Stamped for MergeRequestView {
    open spec fn in_order(self) -> bool {
        self.stamps_ordered()
    }
}

impl Refs for MergeRequestView {
    open spec fn refs_within(self, counts: Counts) -> bool {
        &&& self.source_project.idx < counts.projects
        &&& self.target_project.idx < counts.projects
        &&& self.author.idx < counts.users
    }

    open spec fn first_missing(self, counts: Counts) -> Option<(Seq<char>, usize)> {
        if self.source_project.idx >= counts.projects {
            Some(("project"@, self.source_project.idx))
        } else if self.target_project.idx >= counts.projects {
            Some(("project"@, self.target_project.idx))
        } else if self.author.idx >= counts.users {
            Some(("user"@, self.author.idx))
        } else {
            None
        }
    }

    proof fn lemma_refs_grow(self, a: Counts, b: Counts) {
    }

    proof fn lemma_first_missing(self, counts: Counts) {
    }
}

impl JsonStorable for MergeRequest {
    type Json = MergeRequestJson;

    open spec fn describes(record: MergeRequestJson, v: MergeRequestView) -> bool {
        record.describes(v)
    }

    open spec fn spec_create(
        record: MergeRequestJson,
    ) -> Result<MergeRequestView, VecStoreErrorView> {
        record.spec_create()
    }

    open spec fn proper(v: MergeRequestView) -> bool {
        true
    }

    fn to_json(&self) -> (r: MergeRequestJson) {
        MergeRequestJson::convert_to_json(self)
    }

    fn from_json(json: &MergeRequestJson) -> (r: Result<MergeRequest, VecStoreError>) {
        json.create_from_json()
    }

    proof fn lemma_round_trip(record: MergeRequestJson, v: MergeRequestView) {
        lemma_merge_request_json_round_trip(record, v);
    }

    proof fn lemma_proper(self) {
    }

    fn validate_indices(
        &self,
        self_index: VecIndex<MergeRequest>,
        storage: &VecLookup,
    ) -> (r: Result<
        (),
        VecStoreError,
    >) {
        proof {
            self@.lemma_first_missing(storage@.counts());
        }
        let counts = storage.counts();
        match validate_index(&self_index, counts.projects, &self.source_project) {
            Ok(()) => {},
            Err(e) => return Err(e),
        }
        match validate_index(&self_index, counts.projects, &self.target_project) {
            Ok(()) => {},
            Err(e) => return Err(e),
        }
        match validate_index(&self_index, counts.users, &self.author) {
            Ok(()) => {},
            Err(e) => return Err(e),
        }
        Ok(())
    }
}

impl Typename for Pipeline {
    open spec fn spec_typename() -> Seq<char> {
        "pipeline"@
    }

    fn typename() -> (r: &'static str) {
        "pipeline"
    }
}

impl Stamped for PipelineView {
    open spec fn in_order(self) -> bool {
        self.stamps_ordered()
    }
}

impl Refs for PipelineView {
    open spec fn refs_within(self, counts: Counts) -> bool {
        &&& self.project.idx < counts.projects
        &&& self.schedule matches Some(idx) ==> idx.idx < counts.pipeline_schedules
        &&& self.parent_pipeline matches Some(idx) ==> idx.idx < counts.pipelines
        &&& self.merge_request matches Some(idx) ==> idx.idx < counts.merge_requests
        &&& self.user matches Some(idx) ==> idx.idx < counts.users
    }

    open spec fn first_missing(self, counts: Counts) -> Option<(Seq<char>, usize)> {
        if self.project.idx >= counts.projects {
            Some(("project"@, self.project.idx))
        } else if self.schedule is Some && self.schedule.unwrap().idx >= counts.pipeline_schedules {
            Some(("pipeline schedule"@, self.schedule.unwrap().idx))
        } else if self.parent_pipeline is Some && self.parent_pipeline.unwrap().idx >= counts.pipelines {
            Some(("pipeline"@, self.parent_pipeline.unwrap().idx))
        } else if self.merge_request is Some && self.merge_request.unwrap().idx >= counts.merge_requests {
            Some(("merge request"@, self.merge_request.unwrap().idx))
        } else if self.user is Some && self.user.unwrap().idx >= counts.users {
            Some(("user"@, self.user.unwrap().idx))
        } else {
            None
        }
    }

    proof fn lemma_refs_grow(self, a: Counts, b: Counts) {
    }

    proof fn lemma_first_missing(self, counts: Counts) {
    }
}

impl JsonStorable for Pipeline {
    type Json = PipelineJson;

    open spec fn describes(record: PipelineJson, v: PipelineView) -> bool {
        record.describes(v)
    }

    open spec fn spec_create(record: PipelineJson) -> Result<PipelineView, VecStoreErrorView> {
        record.spec_create()
    }

    open spec fn proper(v: PipelineView) -> bool {
        v.variables.keys_unique()
    }

    fn to_json(&self) -> (r: PipelineJson) {
        proof {
            self.variables.lemma_keys_unique();
        }
        PipelineJson::convert_to_json(self)
    }

    fn from_json(json: &PipelineJson) -> (r: Result<Pipeline, VecStoreError>) {
        json.create_from_json()
    }

    proof fn lemma_round_trip(record: PipelineJson, v: PipelineView) {
        lemma_pipeline_json_round_trip(record, v);
    }

    proof fn lemma_proper(self) {
        self.variables.lemma_keys_unique();
    }

    fn validate_indices(&self, self_index: VecIndex<Pipeline>, storage: &VecLookup) -> (r: Result<
        (),
        VecStoreError,
    >) {
        proof {
            self@.lemma_first_missing(storage@.counts());
        }
        let counts = storage.counts();
        match validate_index(&self_index, counts.projects, &self.project) {
            Ok(()) => {},
            Err(e) => return Err(e),
        }
        match &self.schedule {
            Some(schedule) => match validate_index(
                &self_index,
                counts.pipeline_schedules,
                schedule,
            ) {
                Ok(()) => {},
                Err(e) => return Err(e),
            },
            None => {},
        }
        match &self.parent_pipeline {
            Some(parent_pipeline) => match validate_index(
                &self_index,
                counts.pipelines,
                parent_pipeline,
            ) {
                Ok(()) => {},
                Err(e) => return Err(e),
            },
            None => {},
        }
        match &self.merge_request {
            Some(merge_request) => match validate_index(
                &self_index,
                counts.merge_requests,
                merge_request,
            ) {
                Ok(()) => {},
                Err(e) => return Err(e),
            },
            None => {},
        }
        match &self.user {
            Some(user) => match validate_index(&self_index, counts.users, user) {
                Ok(()) => {},
                Err(e) => return Err(e),
            },
            None => {},
        }
        Ok(())
    }
}

impl Typename for PipelineSchedule {
    open spec fn spec_typename() -> Seq<char> {
        "pipeline schedule"@
    }

    fn typename() -> (r: &'static str) {
        "pipeline schedule"
    }
}

impl Stamped for PipelineScheduleView {
    open spec fn in_order(self) -> bool {
        self.stamps_ordered()
    }
}

impl Refs for PipelineScheduleView {
    open spec fn refs_within(self, counts: Counts) -> bool {
        &&& self.project.idx < counts.projects
        &&& self.owner.idx < counts.users
    }

    open spec fn first_missing(self, counts: Counts) -> Option<(Seq<char>, usize)> {
        if self.project.idx >= counts.projects {
            Some(("project"@, self.project.idx))
        } else if self.owner.idx >= counts.users {
            Some(("user"@, self.owner.idx))
        } else {
            None
        }
    }

    proof fn lemma_refs_grow(self, a: Counts, b: Counts) {
    }

    proof fn lemma_first_missing(self, counts: Counts) {
    }
}

impl JsonStorable for PipelineSchedule {
    type Json = PipelineScheduleJson;

    open spec fn describes(record: PipelineScheduleJson, v: PipelineScheduleView) -> bool {
        record.describes(v)
    }

    open spec fn spec_create(
        record: PipelineScheduleJson,
    ) -> Result<PipelineScheduleView, VecStoreErrorView> {
        record.spec_create()
    }

    open spec fn proper(v: PipelineScheduleView) -> bool {
        v.variables.keys_unique()
    }

    fn to_json(&self) -> (r: PipelineScheduleJson) {
        proof {
            self.variables.lemma_keys_unique();
        }
        PipelineScheduleJson::convert_to_json(self)
    }

    fn from_json(json: &PipelineScheduleJson) -> (r: Result<PipelineSchedule, VecStoreError>) {
        json.create_from_json()
    }

    proof fn lemma_round_trip(record: PipelineScheduleJson, v: PipelineScheduleView) {
        lemma_pipeline_schedule_json_round_trip(record, v);
    }

    proof fn lemma_proper(self) {
        self.variables.lemma_keys_unique();
    }

    fn validate_indices(
        &self,
        self_index: VecIndex<PipelineSchedule>,
        storage: &VecLookup,
    ) -> (r: Result<
        (),
        VecStoreError,
    >) {
        proof {
            self@.lemma_first_missing(storage@.counts());
        }
        let counts = storage.counts();
        match validate_index(&self_index, counts.projects, &self.project) {
            Ok(()) => {},
            Err(e) => return Err(e),
        }
        match validate_index(&self_index, counts.users, &self.owner) {
            Ok(()) => {},
            Err(e) => return Err(e),
        }
        Ok(())
    }
}

impl Typename for Project {
    open spec fn spec_typename() -> Seq<char> {
        "project"@
    }

    fn typename() -> (r: &'static str) {
        "project"
    }
}

impl Stamped for ProjectView {
    open spec fn in_order(self) -> bool {
        self.stamps_ordered()
    }
}

impl Refs for ProjectView {
    open spec fn refs_within(self, counts: Counts) -> bool {
        &&& self.instance.idx < counts.instances
    }

    open spec fn first_missing(self, counts: Counts) -> Option<(Seq<char>, usize)> {
        if self.instance.idx >= counts.instances {
            Some(("instance"@, self.instance.idx))
        } else {
            None
        }
    }

    proof fn lemma_refs_grow(self, a: Counts, b: Counts) {
    }

    proof fn lemma_first_missing(self, counts: Counts) {
    }
}

impl JsonStorable for Project {
    type Json = ProjectJson;

    open spec fn describes(record: ProjectJson, v: ProjectView) -> bool {
        record.describes(v)
    }

    open spec fn spec_create(record: ProjectJson) -> Result<ProjectView, VecStoreErrorView> {
        record.spec_create()
    }

    open spec fn proper(v: ProjectView) -> bool {
        true
    }

    fn to_json(&self) -> (r: ProjectJson) {
        ProjectJson::convert_to_json(self)
    }

    fn from_json(json: &ProjectJson) -> (r: Result<Project, VecStoreError>) {
        json.create_from_json()
    }

    proof fn lemma_round_trip(record: ProjectJson, v: ProjectView) {
        lemma_project_json_round_trip(record, v);
    }

    proof fn lemma_proper(self) {
    }

    fn validate_indices(&self, self_index: VecIndex<Project>, storage: &VecLookup) -> (r: Result<
        (),
        VecStoreError,
    >) {
        proof {
            self@.lemma_first_missing(storage@.counts());
        }
        let counts = storage.counts();
        match validate_index(&self_index, counts.instances, &self.instance) {
            Ok(()) => {},
            Err(e) => return Err(e),
        }
        Ok(())
    }
}

impl Typename for Runner {
    open spec fn spec_typename() -> Seq<char> {
        "runner"@
    }

    fn typename() -> (r: &'static str) {
        "runner"
    }
}

impl Stamped for RunnerView {
    open spec fn in_order(self) -> bool {
        self.stamps_ordered()
    }
}

impl Refs for RunnerView {
    open spec fn refs_within(self, counts: Counts) -> bool {
        &&& self.instance.idx < counts.instances
        &&& self.runner_host matches Some(idx) ==> idx.idx < counts.runner_hosts
        &&& forall|k: int| 0 <= k < self.projects.len() ==> (#[trigger] self.projects[k]).idx < counts.projects
    }

    open spec fn first_missing(self, counts: Counts) -> Option<(Seq<char>, usize)> {
        if self.instance.idx >= counts.instances {
            Some(("instance"@, self.instance.idx))
        } else if self.runner_host is Some && self.runner_host.unwrap().idx >= counts.runner_hosts {
            Some(("runner host"@, self.runner_host.unwrap().idx))
        } else if first_beyond(self.projects, counts.projects) < self.projects.len() {
            Some(("project"@, self.projects[first_beyond(self.projects, counts.projects)].idx))
        } else {
            None
        }
    }

    proof fn lemma_refs_grow(self, a: Counts, b: Counts) {
    }

    proof fn lemma_first_missing(self, counts: Counts) {
        lemma_first_beyond(self.projects, counts.projects);
    }
}

impl JsonStorable for Runner {
    type Json = RunnerJson;

    open spec fn describes(record: RunnerJson, v: RunnerView) -> bool {
        record.describes(v)
    }

    open spec fn spec_create(record: RunnerJson) -> Result<RunnerView, VecStoreErrorView> {
        record.spec_create()
    }

    open spec fn proper(v: RunnerView) -> bool {
        true
    }

    fn to_json(&self) -> (r: RunnerJson) {
        RunnerJson::convert_to_json(self)
    }

    fn from_json(json: &RunnerJson) -> (r: Result<Runner, VecStoreError>) {
        json.create_from_json()
    }

    proof fn lemma_round_trip(record: RunnerJson, v: RunnerView) {
        lemma_runner_json_round_trip(record, v);
    }

    proof fn lemma_proper(self) {
    }

    fn validate_indices(&self, self_index: VecIndex<Runner>, storage: &VecLookup) -> (r: Result<
        (),
        VecStoreError,
    >) {
        proof {
            self@.lemma_first_missing(storage@.counts());
        }
        let counts = storage.counts();
        match validate_index(&self_index, counts.instances, &self.instance) {
            Ok(()) => {},
            Err(e) => return Err(e),
        }
        match &self.runner_host {
            Some(runner_host) => match validate_index(
                &self_index,
                counts.runner_hosts,
                runner_host,
            ) {
                Ok(()) => {},
                Err(e) => return Err(e),
            },
            None => {},
        }
        let mut k: usize = 0;
        while k < self.projects.len()
            invariant
                k <= self.projects.len(),
                forall|j: int| 0 <= j < k ==> (#[trigger] self.projects@[j]).idx < counts.projects,
                counts == storage@.counts(),
                self@.first_missing(counts) is None <==> self@.refs_within(counts),
                self.instance.idx < counts.instances,
                self.runner_host matches Some(idx) ==> idx.idx < counts.runner_hosts,
            decreases self.projects.len() - k,
        {
            match validate_index(&self_index, counts.projects, &self.projects[k]) {
                Ok(()) => {},
                Err(e) => {
                    proof {
                        lemma_first_beyond_is(self.projects@, counts.projects, k as int);
                    }
                    return Err(e);
                },
            }
            k += 1;
        }
        Ok(())
    }
}

impl Typename for RunnerHost {
    open spec fn spec_typename() -> Seq<char> {
        "runner host"@
    }

    fn typename() -> (r: &'static str) {
        "runner host"
    }
}

impl Stamped for RunnerHostView {
    open spec fn in_order(self) -> bool {
        self.stamps_ordered()
    }
}

impl Refs for RunnerHostView {
    open spec fn refs_within(self, counts: Counts) -> bool {
        true
    }

    open spec fn first_missing(self, counts: Counts) -> Option<(Seq<char>, usize)> {
        None
    }

    proof fn lemma_refs_grow(self, a: Counts, b: Counts) {
    }

    proof fn lemma_first_missing(self, counts: Counts) {
    }
}

impl JsonStorable for RunnerHost {
    type Json = RunnerHostJson;

    open spec fn describes(record: RunnerHostJson, v: RunnerHostView) -> bool {
        record.describes(v)
    }

    open spec fn spec_create(record: RunnerHostJson) -> Result<RunnerHostView, VecStoreErrorView> {
        record.spec_create()
    }

    open spec fn proper(v: RunnerHostView) -> bool {
        true
    }

    fn to_json(&self) -> (r: RunnerHostJson) {
        RunnerHostJson::convert_to_json(self)
    }

    fn from_json(json: &RunnerHostJson) -> (r: Result<RunnerHost, VecStoreError>) {
        json.create_from_json()
    }

    proof fn lemma_round_trip(record: RunnerHostJson, v: RunnerHostView) {
        lemma_runner_host_json_round_trip(record, v);
    }

    proof fn lemma_proper(self) {
    }

    fn validate_indices(&self, self_index: VecIndex<RunnerHost>, storage: &VecLookup) -> (r: Result<
        (),
        VecStoreError,
    >) {
        proof {
            self@.lemma_first_missing(storage@.counts());
        }
        Ok(())
    }
}

impl Typename for User {
    open spec fn spec_typename() -> Seq<char> {
        "user"@
    }

    fn typename() -> (r: &'static str) {
        "user"
    }
}

impl Stamped for UserView {
    open spec fn in_order(self) -> bool {
        self.stamps_ordered()
    }
}

impl Refs for UserView {
    open spec fn refs_within(self, counts: Counts) -> bool {
        &&& self.instance.idx < counts.instances
    }

    open spec fn first_missing(self, counts: Counts) -> Option<(Seq<char>, usize)> {
        if self.instance.idx >= counts.instances {
            Some(("instance"@, self.instance.idx))
        } else {
            None
        }
    }

    proof fn lemma_refs_grow(self, a: Counts, b: Counts) {
    }

    proof fn lemma_first_missing(self, counts: Counts) {
    }
}

impl JsonStorable for User {
    type Json = UserJson;

    open spec fn describes(record: UserJson, v: UserView) -> bool {
        record.describes(v)
    }

    open spec fn spec_create(record: UserJson) -> Result<UserView, VecStoreErrorView> {
        record.spec_create()
    }

    open spec fn proper(v: UserView) -> bool {
        true
    }

    fn to_json(&self) -> (r: UserJson) {
        UserJson::convert_to_json(self)
    }

    fn from_json(json: &UserJson) -> (r: Result<User, VecStoreError>) {
        json.create_from_json()
    }

    proof fn lemma_round_trip(record: UserJson, v: UserView) {
        lemma_user_json_round_trip(record, v);
    }

    proof fn lemma_proper(self) {
    }

    fn validate_indices(&self, self_index: VecIndex<User>, storage: &VecLookup) -> (r: Result<
        (),
        VecStoreError,
    >) {
        proof {
            self@.lemma_first_missing(storage@.counts());
        }
        let counts = storage.counts();
        match validate_index(&self_index, counts.instances, &self.instance) {
            Ok(()) => {},
            Err(e) => return Err(e),
        }
        Ok(())
    }
}

impl VecLookupView {
    /// Every reference of every record names a record of the store.
    pub open spec fn refs_valid(self) -> bool {
        &&& all_within(self.deployments, self.counts())
        &&& all_within(self.environments, self.counts())
        &&& all_within(self.instances, self.counts())
        &&& all_within(self.jobs, self.counts())
        &&& all_within(self.job_artifacts, self.counts())
        &&& all_within(self.merge_requests, self.counts())
        &&& all_within(self.pipelines, self.counts())
        &&& all_within(self.pipeline_schedules, self.counts())
        &&& all_within(self.projects, self.counts())
        &&& all_within(self.runners, self.counts())
        &&& all_within(self.runner_hosts, self.counts())
        &&& all_within(self.users, self.counts())
    }

    /// Every record was first fetched no later than it was last refreshed.
    pub open spec fn stamps_ordered(self) -> bool {
        &&& all_in_order(self.deployments)
        &&& all_in_order(self.environments)
        &&& all_in_order(self.instances)
        &&& all_in_order(self.jobs)
        &&& all_in_order(self.job_artifacts)
        &&& all_in_order(self.merge_requests)
        &&& all_in_order(self.pipelines)
        &&& all_in_order(self.pipeline_schedules)
        &&& all_in_order(self.projects)
        &&& all_in_order(self.runners)
        &&& all_in_order(self.runner_hosts)
        &&& all_in_order(self.users)
    }

    /// Every reference of every record is below the counts `counts`.
    pub open spec fn refs_within(self, counts: Counts) -> bool {
        &&& all_within(self.deployments, counts)
        &&& all_within(self.environments, counts)
        &&& all_within(self.instances, counts)
        &&& all_within(self.jobs, counts)
        &&& all_within(self.job_artifacts, counts)
        &&& all_within(self.merge_requests, counts)
        &&& all_within(self.pipelines, counts)
        &&& all_within(self.pipeline_schedules, counts)
        &&& all_within(self.projects, counts)
        &&& all_within(self.runners, counts)
        &&& all_within(self.runner_hosts, counts)
        &&& all_within(self.users, counts)
    }

    /// References that are within some counts are within greater ones.
    pub proof fn lemma_refs_grow(self, a: Counts, b: Counts)
        requires
            self.refs_within(a),
            a.within(b),
        ensures
            self.refs_within(b),
    {
        lemma_all_grow(self.deployments, a, b);
        lemma_all_grow(self.environments, a, b);
        lemma_all_grow(self.instances, a, b);
        lemma_all_grow(self.jobs, a, b);
        lemma_all_grow(self.job_artifacts, a, b);
        lemma_all_grow(self.merge_requests, a, b);
        lemma_all_grow(self.pipelines, a, b);
        lemma_all_grow(self.pipeline_schedules, a, b);
        lemma_all_grow(self.projects, a, b);
        lemma_all_grow(self.runners, a, b);
        lemma_all_grow(self.runner_hosts, a, b);
        lemma_all_grow(self.users, a, b);
    }

    /// Storing a deployment whose references are valid keeps every reference valid.
    pub proof fn lemma_store_deployment_keeps_refs(self, record: DeploymentView)
        requires
            self.refs_valid(),
            (VecLookupView {
                deployments: upsert(self.deployments, record),
                ..self
            }).fits(),
            record.refs_within(self.counts()),
        ensures
            (VecLookupView {
                deployments: upsert(self.deployments, record),
                ..self
            }).refs_valid(),
    {
        let after = VecLookupView { deployments: upsert(self.deployments, record), ..self };
        lemma_upsert(self.deployments, record);
        lemma_upsert_len(self.deployments, record);
        lemma_upsert_within(self.deployments, record, self.counts());
        self.lemma_refs_grow(self.counts(), after.counts());
        lemma_all_grow(after.deployments, self.counts(), after.counts());
    }

    /// Storing an environment whose references are valid keeps every reference valid.
    pub proof fn lemma_store_environment_keeps_refs(self, record: EnvironmentView)
        requires
            self.refs_valid(),
            (VecLookupView {
                environments: upsert(self.environments, record),
                ..self
            }).fits(),
            record.refs_within(self.counts()),
        ensures
            (VecLookupView {
                environments: upsert(self.environments, record),
                ..self
            }).refs_valid(),
    {
        let after = VecLookupView { environments: upsert(self.environments, record), ..self };
        lemma_upsert(self.environments, record);
        lemma_upsert_len(self.environments, record);
        lemma_upsert_within(self.environments, record, self.counts());
        self.lemma_refs_grow(self.counts(), after.counts());
        lemma_all_grow(after.environments, self.counts(), after.counts());
    }

    /// Storing an instance whose references are valid keeps every reference valid.
    pub proof fn lemma_store_instance_keeps_refs(self, record: InstanceView)
        requires
            self.refs_valid(),
            (VecLookupView {
                instances: upsert(self.instances, record),
                ..self
            }).fits(),
            record.refs_within(self.counts()),
        ensures
            (VecLookupView {
                instances: upsert(self.instances, record),
                ..self
            }).refs_valid(),
    {
        let after = VecLookupView { instances: upsert(self.instances, record), ..self };
        lemma_upsert(self.instances, record);
        lemma_upsert_len(self.instances, record);
        lemma_upsert_within(self.instances, record, self.counts());
        self.lemma_refs_grow(self.counts(), after.counts());
        lemma_all_grow(after.instances, self.counts(), after.counts());
    }

    /// Storing a job whose references are valid keeps every reference valid.
    pub proof fn lemma_store_job_keeps_refs(self, record: JobView)
        requires
            self.refs_valid(),
            (VecLookupView {
                jobs: upsert(self.jobs, record),
                ..self
            }).fits(),
            record.refs_within(self.counts()),
        ensures
            (VecLookupView {
                jobs: upsert(self.jobs, record),
                ..self
            }).refs_valid(),
    {
        let after = VecLookupView { jobs: upsert(self.jobs, record), ..self };
        lemma_upsert(self.jobs, record);
        lemma_upsert_len(self.jobs, record);
        lemma_upsert_within(self.jobs, record, self.counts());
        self.lemma_refs_grow(self.counts(), after.counts());
        lemma_all_grow(after.jobs, self.counts(), after.counts());
    }

    /// Storing a job artifact whose references are valid keeps every reference valid.
    pub proof fn lemma_store_job_artifact_keeps_refs(self, record: JobArtifactView)
        requires
            self.refs_valid(),
            (VecLookupView {
                job_artifacts: upsert(self.job_artifacts, record),
                ..self
            }).fits(),
            record.refs_within(self.counts()),
        ensures
            (VecLookupView {
                job_artifacts: upsert(self.job_artifacts, record),
                ..self
            }).refs_valid(),
    {
        let after = VecLookupView { job_artifacts: upsert(self.job_artifacts, record), ..self };
        lemma_upsert(self.job_artifacts, record);
        lemma_upsert_len(self.job_artifacts, record);
        lemma_upsert_within(self.job_artifacts, record, self.counts());
        self.lemma_refs_grow(self.counts(), after.counts());
        lemma_all_grow(after.job_artifacts, self.counts(), after.counts());
    }

    /// Storing a merge request whose references are valid keeps every reference valid.
    pub proof fn lemma_store_merge_request_keeps_refs(self, record: MergeRequestView)
        requires
            self.refs_valid(),
            (VecLookupView {
                merge_requests: upsert(self.merge_requests, record),
                ..self
            }).fits(),
            record.refs_within(self.counts()),
        ensures
            (VecLookupView {
                merge_requests: upsert(self.merge_requests, record),
                ..self
            }).refs_valid(),
    {
        let after = VecLookupView { merge_requests: upsert(self.merge_requests, record), ..self };
        lemma_upsert(self.merge_requests, record);
        lemma_upsert_len(self.merge_requests, record);
        lemma_upsert_within(self.merge_requests, record, self.counts());
        self.lemma_refs_grow(self.counts(), after.counts());
        lemma_all_grow(after.merge_requests, self.counts(), after.counts());
    }

    /// Storing a pipeline whose references are valid keeps every reference valid.
    pub proof fn lemma_store_pipeline_keeps_refs(self, record: PipelineView)
        requires
            self.refs_valid(),
            (VecLookupView {
                pipelines: upsert(self.pipelines, record),
                ..self
            }).fits(),
            record.refs_within(self.counts()),
        ensures
            (VecLookupView {
                pipelines: upsert(self.pipelines, record),
                ..self
            }).refs_valid(),
    {
        let after = VecLookupView { pipelines: upsert(self.pipelines, record), ..self };
        lemma_upsert(self.pipelines, record);
        lemma_upsert_len(self.pipelines, record);
        lemma_upsert_within(self.pipelines, record, self.counts());
        self.lemma_refs_grow(self.counts(), after.counts());
        lemma_all_grow(after.pipelines, self.counts(), after.counts());
    }

    /// Storing a pipeline schedule whose references are valid keeps every reference valid.
    pub proof fn lemma_store_pipeline_schedule_keeps_refs(self, record: PipelineScheduleView)
        requires
            self.refs_valid(),
            (VecLookupView {
                pipeline_schedules: upsert(self.pipeline_schedules, record),
                ..self
            }).fits(),
            record.refs_within(self.counts()),
        ensures
            (VecLookupView {
                pipeline_schedules: upsert(self.pipeline_schedules, record),
                ..self
            }).refs_valid(),
    {
        let after = VecLookupView { pipeline_schedules: upsert(self.pipeline_schedules, record), ..self };
        lemma_upsert(self.pipeline_schedules, record);
        lemma_upsert_len(self.pipeline_schedules, record);
        lemma_upsert_within(self.pipeline_schedules, record, self.counts());
        self.lemma_refs_grow(self.counts(), after.counts());
        lemma_all_grow(after.pipeline_schedules, self.counts(), after.counts());
    }

    /// Storing a project whose references are valid keeps every reference valid.
    pub proof fn lemma_store_project_keeps_refs(self, record: ProjectView)
        requires
            self.refs_valid(),
            (VecLookupView {
                projects: upsert(self.projects, record),
                ..self
            }).fits(),
            record.refs_within(self.counts()),
        ensures
            (VecLookupView {
                projects: upsert(self.projects, record),
                ..self
            }).refs_valid(),
    {
        let after = VecLookupView { projects: upsert(self.projects, record), ..self };
        lemma_upsert(self.projects, record);
        lemma_upsert_len(self.projects, record);
        lemma_upsert_within(self.projects, record, self.counts());
        self.lemma_refs_grow(self.counts(), after.counts());
        lemma_all_grow(after.projects, self.counts(), after.counts());
    }

    /// Storing a runner whose references are valid keeps every reference valid.
    pub proof fn lemma_store_runner_keeps_refs(self, record: RunnerView)
        requires
            self.refs_valid(),
            (VecLookupView {
                runners: upsert(self.runners, record),
                ..self
            }).fits(),
            record.refs_within(self.counts()),
        ensures
            (VecLookupView {
                runners: upsert(self.runners, record),
                ..self
            }).refs_valid(),
    {
        let after = VecLookupView { runners: upsert(self.runners, record), ..self };
        lemma_upsert(self.runners, record);
        lemma_upsert_len(self.runners, record);
        lemma_upsert_within(self.runners, record, self.counts());
        self.lemma_refs_grow(self.counts(), after.counts());
        lemma_all_grow(after.runners, self.counts(), after.counts());
    }

    /// Storing a runner host whose references are valid keeps every reference valid.
    pub proof fn lemma_store_runner_host_keeps_refs(self, record: RunnerHostView)
        requires
            self.refs_valid(),
            (VecLookupView {
                runner_hosts: upsert(self.runner_hosts, record),
                ..self
            }).fits(),
            record.refs_within(self.counts()),
        ensures
            (VecLookupView {
                runner_hosts: upsert(self.runner_hosts, record),
                ..self
            }).refs_valid(),
    {
        let after = VecLookupView { runner_hosts: upsert(self.runner_hosts, record), ..self };
        lemma_upsert(self.runner_hosts, record);
        lemma_upsert_len(self.runner_hosts, record);
        lemma_upsert_within(self.runner_hosts, record, self.counts());
        self.lemma_refs_grow(self.counts(), after.counts());
        lemma_all_grow(after.runner_hosts, self.counts(), after.counts());
    }

    /// Storing an user whose references are valid keeps every reference valid.
    pub proof fn lemma_store_user_keeps_refs(self, record: UserView)
        requires
            self.refs_valid(),
            (VecLookupView {
                users: upsert(self.users, record),
                ..self
            }).fits(),
            record.refs_within(self.counts()),
        ensures
            (VecLookupView {
                users: upsert(self.users, record),
                ..self
            }).refs_valid(),
    {
        let after = VecLookupView { users: upsert(self.users, record), ..self };
        lemma_upsert(self.users, record);
        lemma_upsert_len(self.users, record);
        lemma_upsert_within(self.users, record, self.counts());
        self.lemma_refs_grow(self.counts(), after.counts());
        lemma_all_grow(after.users, self.counts(), after.counts());
    }

    /// Storing a deployment whose stamps are in order keeps the stamps in order.
    pub proof fn lemma_store_deployment_keeps_stamps(self, record: DeploymentView)
        requires
            self.stamps_ordered(),
            record.in_order(),
        ensures
            (VecLookupView {
                deployments: upsert(self.deployments, record),
                ..self
            }).stamps_ordered(),
    {
        lemma_upsert_in_order(self.deployments, record);
    }

    /// Storing an environment whose stamps are in order keeps the stamps in order.
    pub proof fn lemma_store_environment_keeps_stamps(self, record: EnvironmentView)
        requires
            self.stamps_ordered(),
            record.in_order(),
        ensures
            (VecLookupView {
                environments: upsert(self.environments, record),
                ..self
            }).stamps_ordered(),
    {
        lemma_upsert_in_order(self.environments, record);
    }

    /// Storing an instance whose stamps are in order keeps the stamps in order.
    pub proof fn lemma_store_instance_keeps_stamps(self, record: InstanceView)
        requires
            self.stamps_ordered(),
            record.in_order(),
        ensures
            (VecLookupView {
                instances: upsert(self.instances, record),
                ..self
            }).stamps_ordered(),
    {
        lemma_upsert_in_order(self.instances, record);
    }

    /// Storing a job whose stamps are in order keeps the stamps in order.
    pub proof fn lemma_store_job_keeps_stamps(self, record: JobView)
        requires
            self.stamps_ordered(),
            record.in_order(),
        ensures
            (VecLookupView {
                jobs: upsert(self.jobs, record),
                ..self
            }).stamps_ordered(),
    {
        lemma_upsert_in_order(self.jobs, record);
    }

    /// Storing a job artifact whose stamps are in order keeps the stamps in order.
    pub proof fn lemma_store_job_artifact_keeps_stamps(self, record: JobArtifactView)
        requires
            self.stamps_ordered(),
            record.in_order(),
        ensures
            (VecLookupView {
                job_artifacts: upsert(self.job_artifacts, record),
                ..self
            }).stamps_ordered(),
    {
        lemma_upsert_in_order(self.job_artifacts, record);
    }

    /// Storing a merge request whose stamps are in order keeps the stamps in order.
    pub proof fn lemma_store_merge_request_keeps_stamps(self, record: MergeRequestView)
        requires
            self.stamps_ordered(),
            record.in_order(),
        ensures
            (VecLookupView {
                merge_requests: upsert(self.merge_requests, record),
                ..self
            }).stamps_ordered(),
    {
        lemma_upsert_in_order(self.merge_requests, record);
    }

    /// Storing a pipeline whose stamps are in order keeps the stamps in order.
    pub proof fn lemma_store_pipeline_keeps_stamps(self, record: PipelineView)
        requires
            self.stamps_ordered(),
            record.in_order(),
        ensures
            (VecLookupView {
                pipelines: upsert(self.pipelines, record),
                ..self
            }).stamps_ordered(),
    {
        lemma_upsert_in_order(self.pipelines, record);
    }

    /// Storing a pipeline schedule whose stamps are in order keeps the stamps in order.
    pub proof fn lemma_store_pipeline_schedule_keeps_stamps(self, record: PipelineScheduleView)
        requires
            self.stamps_ordered(),
            record.in_order(),
        ensures
            (VecLookupView {
                pipeline_schedules: upsert(self.pipeline_schedules, record),
                ..self
            }).stamps_ordered(),
    {
        lemma_upsert_in_order(self.pipeline_schedules, record);
    }

    /// Storing a project whose stamps are in order keeps the stamps in order.
    pub proof fn lemma_store_project_keeps_stamps(self, record: ProjectView)
        requires
            self.stamps_ordered(),
            record.in_order(),
        ensures
            (VecLookupView {
                projects: upsert(self.projects, record),
                ..self
            }).stamps_ordered(),
    {
        lemma_upsert_in_order(self.projects, record);
    }

    /// Storing a runner whose stamps are in order keeps the stamps in order.
    pub proof fn lemma_store_runner_keeps_stamps(self, record: RunnerView)
        requires
            self.stamps_ordered(),
            record.in_order(),
        ensures
            (VecLookupView {
                runners: upsert(self.runners, record),
                ..self
            }).stamps_ordered(),
    {
        lemma_upsert_in_order(self.runners, record);
    }

    /// Storing a runner host whose stamps are in order keeps the stamps in order.
    pub proof fn lemma_store_runner_host_keeps_stamps(self, record: RunnerHostView)
        requires
            self.stamps_ordered(),
            record.in_order(),
        ensures
            (VecLookupView {
                runner_hosts: upsert(self.runner_hosts, record),
                ..self
            }).stamps_ordered(),
    {
        lemma_upsert_in_order(self.runner_hosts, record);
    }

    /// Storing an user whose stamps are in order keeps the stamps in order.
    pub proof fn lemma_store_user_keeps_stamps(self, record: UserView)
        requires
            self.stamps_ordered(),
            record.in_order(),
        ensures
            (VecLookupView {
                users: upsert(self.users, record),
                ..self
            }).stamps_ordered(),
    {
        lemma_upsert_in_order(self.users, record);
    }
}

} // verus!
