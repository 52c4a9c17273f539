//! Keeping a `VecLookup` as records on disk.

use vstd::prelude::*;
use crate::data::deployment::{Deployment, DeploymentView};
use crate::data::environment::{Environment, EnvironmentView};
use crate::data::instance::{Instance, InstanceView};
use crate::data::job::{Job, JobView};
use crate::data::job_artifact::{JobArtifact, JobArtifactView};
use crate::data::merge_request::{MergeRequest, MergeRequestView};
use crate::data::pipeline::{Pipeline, PipelineView};
use crate::data::pipeline_schedule::{PipelineSchedule, PipelineScheduleView};
use crate::data::project::{Project, ProjectView};
use crate::data::runner::{Runner, RunnerView};
use crate::data::runner_host::{RunnerHost, RunnerHostView};
use crate::data::user::{User, UserView};
use crate::objects::vec::json::DeploymentJson;
use crate::objects::vec::json::EnvironmentJson;
use crate::objects::vec::json::InstanceJson;
use crate::objects::vec::json::JobArtifactJson;
use crate::objects::vec::json::JobJson;
use crate::objects::vec::json::MergeRequestJson;
use crate::objects::vec::json::PipelineJson;
use crate::objects::vec::json::PipelineScheduleJson;
use crate::objects::vec::json::ProjectJson;
use crate::objects::vec::json::RunnerHostJson;
use crate::objects::vec::json::RunnerJson;
use crate::objects::vec::json::UserJson;
use crate::objects::vec::data::{all_within, validated, JsonStorable, Refs, Typename};
use crate::objects::vec::json::created;
use crate::objects::vec::{views, Counts, VecIndex, VecLookup, VecLookupView};

verus! {

/// Errors which can occur when storing or loading a `VecLookup` store.
#[derive(Debug)]
pub enum VecStoreError {
    /// A loaded entity contains a reference to a non-existent entity.
    MissingIndex {
        /// The type of the missing entity.
        missing_type: &'static str,
        /// The expected index of the missing entity.
        missing_index: usize,
        /// The type of the entity that referenced the missing entity.
        from_type: &'static str,
        /// The index of the entity that referenced the missing entity.
        from_index: usize,
    },
    /// An enumeration value was unrecognized.
    InvalidEnumString {
        /// The type of the enum being read.
        typename: &'static str,
        /// The value of the enum being loaded.
        value: String,
    },
    /// An unsupported version of the store was found.
    UnsupportedVersion {
        /// The unsupported version.
        version: usize,
    },
}

/// What a `VecStoreError` says.
pub enum VecStoreErrorView {
    MissingIndex { missing_type: Seq<char>, missing_index: usize, from_type: Seq<char>, from_index: usize },
    InvalidEnumString { typename: Seq<char>, value: Seq<char> },
    UnsupportedVersion { version: usize },
}

impl View for VecStoreError {
    type V = VecStoreErrorView;

    open spec fn view(&self) -> VecStoreErrorView {
        match self {
            VecStoreError::MissingIndex { missing_type, missing_index, from_type, from_index } => {
                VecStoreErrorView::MissingIndex {
                    missing_type: missing_type@,
                    missing_index: *missing_index,
                    from_type: from_type@,
                    from_index: *from_index,
                }
            },
            VecStoreError::InvalidEnumString { typename, value } => {
                VecStoreErrorView::InvalidEnumString { typename: typename@, value: value@ }
            },
            VecStoreError::UnsupportedVersion { version } => {
                VecStoreErrorView::UnsupportedVersion { version: *version }
            },
        }
    }
}

/// What the outcome of a check says.
pub open spec fn check_view(r: Result<(), VecStoreError>) -> Result<(), VecStoreErrorView> {
    match r {
        Ok(()) => Ok(()),
        Err(e) => Err(e@),
    }
}

/// The name of the index file in the root of a store.
pub const INDEX_NAME: &'static str = "vecindex.json";

/// The version of the store format that this library writes and reads.
pub const LATEST_VERSION: usize = 0;

/// The index file of a store.
#[derive(Debug, Clone, Copy, PartialEq, Eq, Structural)]
pub struct Index {
    /// The version of the store format.
    pub version: usize,
    /// How many records of each type the store holds.
    pub counts: Counts,
}

/// Whether the records `s` hold, one for one, what `v` says.
pub open spec fn described<T: JsonStorable>(s: Seq<T::Json>, v: Seq<T::V>) -> bool {
    &&& s.len() == v.len()
    &&& forall|i: int| 0 <= i < v.len() ==> T::describes(#[trigger] s[i], v[i])
}

/// Whether every record of `v` is proper.
pub open spec fn all_proper<T: JsonStorable>(v: Seq<T::V>) -> bool {
    forall|i: int| 0 <= i < v.len() ==> T::proper(#[trigger] v[i])
}

/// What the records `s` say, or the error of the first that does not read.
pub open spec fn spec_restore<T: JsonStorable>(s: Seq<T::Json>) -> Result<
    Seq<T::V>,
    VecStoreErrorView,
>
    decreases s.len(),
{
    if s.len() == 0 {
        Ok(Seq::empty())
    } else {
        match spec_restore::<T>(s.drop_last()) {
            Err(e) => Err(e),
            Ok(front) => match T::spec_create(s.last()) {
                Err(e) => Err(e),
                Ok(v) => Ok(front.push(v)),
            },
        }
    }
}

/// Success where every record of `s` has its references within `counts`;
/// else the error for the first missing reference of the first record that
/// has one. `F` is the entity type of the records.
pub open spec fn first_unresolved<V: Refs, F: Typename>(s: Seq<V>, counts: Counts) -> Result<
    (),
    VecStoreErrorView,
>
    decreases s.len(),
{
    if s.len() == 0 {
        Ok(())
    } else {
        match first_unresolved::<V, F>(s.drop_last(), counts) {
            Err(e) => Err(e),
            Ok(()) => validated::<F>(s.last().first_missing(counts), (s.len() - 1) as usize),
        }
    }
}

/// The check of the references of `s` succeeds exactly when every record has
/// its references within `counts`.
pub proof fn lemma_first_unresolved<V: Refs, F: Typename>(s: Seq<V>, counts: Counts)
    ensures
        first_unresolved::<V, F>(s, counts) is Ok <==> all_within(s, counts),
    decreases s.len(),
{
    if s.len() > 0 {
        let front = s.drop_last();
        lemma_first_unresolved::<V, F>(front, counts);
        s.last().lemma_first_missing(counts);
        if all_within(s, counts) {
            assert forall|i: int| 0 <= i < front.len() implies (#[trigger] front[i]).refs_within(
                counts,
            ) by {
                assert(front[i] == s[i]);
            }
            assert(s[s.len() - 1].refs_within(counts));
        }
        if first_unresolved::<V, F>(s, counts) is Ok {
            assert forall|i: int| 0 <= i < s.len() implies (#[trigger] s[i]).refs_within(
                counts,
            ) by {
                if i < front.len() {
                    assert(front[i] == s[i]);
                }
            }
        }
    }
}

/// An error of the check of the references names a missing index and the
/// record that refers to it: the first record, in order, that has a missing
/// reference, and the first missing reference of that record.
pub proof fn lemma_unresolved_names<V: Refs, F: Typename>(s: Seq<V>, counts: Counts)
    ensures
        first_unresolved::<V, F>(s, counts) matches Err(e) ==> exists|i: int|
            0 <= i < s.len() && (#[trigger] s[i]).first_missing(counts) is Some && Err::<
                (),
                VecStoreErrorView,
            >(e) == validated::<F>(s[i].first_missing(counts), i as usize) && all_within(
                s.subrange(0, i),
                counts,
            ),
        first_unresolved::<V, F>(s, counts) is Err ==> first_unresolved::<V, F>(
            s,
            counts,
        ) matches Err(VecStoreErrorView::MissingIndex { .. }),
    decreases s.len(),
{
    if s.len() > 0 {
        let front = s.drop_last();
        lemma_unresolved_names::<V, F>(front, counts);
        lemma_first_unresolved::<V, F>(front, counts);
        match first_unresolved::<V, F>(front, counts) {
            Err(e) => {
                let i = choose|i: int|
                    0 <= i < front.len() && (#[trigger] front[i]).first_missing(counts) is Some
                        && Err::<(), VecStoreErrorView>(e) == validated::<F>(
                        front[i].first_missing(counts),
                        i as usize,
                    ) && all_within(front.subrange(0, i), counts);
                assert(front[i] == s[i]);
                assert(front.subrange(0, i) =~= s.subrange(0, i));
            },
            Ok(()) => {
                if s.last().first_missing(counts) is Some {
                    let i = s.len() - 1;
                    assert(s[i] == s.last());
                    assert(s.subrange(0, i) =~= front);
                }
            },
        }
    }
}

/// Records that hold what `v` says read as `v`.
pub proof fn lemma_restore_described<T: JsonStorable>(s: Seq<T::Json>, v: Seq<T::V>)
    requires
        described::<T>(s, v),
        all_proper::<T>(v),
    ensures
        spec_restore::<T>(s) == Ok::<Seq<T::V>, VecStoreErrorView>(v),
    decreases s.len(),
{
    if s.len() == 0 {
        assert(v =~= Seq::empty());
    } else {
        let n = s.len() - 1;
        assert forall|i: int| 0 <= i < v.drop_last().len() implies T::describes(
            #[trigger] s.drop_last()[i],
            v.drop_last()[i],
        ) by {
            assert(s.drop_last()[i] == s[i]);
        }
        assert forall|i: int| 0 <= i < v.drop_last().len() implies T::proper(
            #[trigger] v.drop_last()[i],
        ) by {
            assert(v.drop_last()[i] == v[i]);
        }
        lemma_restore_described::<T>(s.drop_last(), v.drop_last());
        assert(T::describes(s[n], v[n]));
        assert(T::proper(v[n]));
        T::lemma_round_trip(s.last(), v.last());
        assert(v.drop_last().push(v.last()) =~= v);
    }
}

/// The records that hold the entities `objects`.
pub fn persist<T: JsonStorable>(objects: &Vec<T>) -> (r: Vec<T::Json>)
    ensures
        described::<T>(r@, views(objects@)),
        all_proper::<T>(views(objects@)),
{
    let mut r: Vec<T::Json> = Vec::new();
    let mut i: usize = 0;
    while i < objects.len()
        invariant
            i <= objects.len(),
            r@.len() == i,
            forall|j: int| 0 <= j < i ==> T::describes(#[trigger] r@[j], objects@[j]@),
        decreases objects.len() - i,
    {
        r.push(objects[i].to_json());
        i += 1;
    }
    proof {
        assert forall|i: int| 0 <= i < views(objects@).len() implies T::proper(
            #[trigger] views(objects@)[i],
        ) by {
            objects@[i].lemma_proper();
        }
    }
    r
}

/// What the outcome of reading records says.
pub open spec fn restored<T: View>(r: Result<Vec<T>, VecStoreError>) -> Result<
    Seq<T::V>,
    VecStoreErrorView,
> {
    match r {
        Ok(v) => Ok(views(v@)),
        Err(e) => Err(e@),
    }
}

/// Once a prefix of the records fails, every longer prefix fails alike.
pub proof fn lemma_restore_stays_failed<T: JsonStorable>(s: Seq<T::Json>, n: int)
    requires
        0 <= n <= s.len(),
        spec_restore::<T>(s.subrange(0, n)) is Err,
    ensures
        spec_restore::<T>(s) == spec_restore::<T>(s.subrange(0, n)),
    decreases s.len() - n,
{
    if n == s.len() {
        assert(s.subrange(0, n) =~= s);
    } else {
        let upto = s.subrange(0, n + 1);
        assert(upto.drop_last() =~= s.subrange(0, n));
        lemma_restore_stays_failed::<T>(s, n + 1);
    }
}

/// The entities that the records `records` hold, or the error of the first
/// record that does not read.
pub fn restore<T: JsonStorable>(records: &Vec<T::Json>) -> (r: Result<Vec<T>, VecStoreError>)
    ensures
        restored(r) == spec_restore::<T>(records@),
{
    let mut vec: Vec<T> = Vec::new();
    let mut i: usize = 0;
    proof {
        assert(records@.subrange(0, 0) =~= Seq::empty());
        assert(views(vec@) =~= Seq::empty());
    }
    while i < records.len()
        invariant
            i <= records.len(),
            spec_restore::<T>(records@.subrange(0, i as int)) == Ok::<Seq<T::V>, VecStoreErrorView>(
                views(vec@),
            ),
        decreases records.len() - i,
    {
        let ghost upto = records@.subrange(0, i + 1);
        assert(upto.drop_last() =~= records@.subrange(0, i as int));
        assert(upto.last() == records@[i as int]);
        match T::from_json(&records[i]) {
            Ok(v) => {
                let ghost before = vec@;
                vec.push(v);
                assert(views(vec@) =~= views(before).push(v@));
            },
            Err(e) => {
                proof {
                    lemma_restore_stays_failed::<T>(records@, i + 1);
                }
                return Err(e);
            },
        }
        i += 1;
    }
    assert(records@.subrange(0, records@.len() as int) =~= records@);
    Ok(vec)
}

/// Once a prefix of the entities has a missing reference, every longer
/// prefix fails alike.
pub proof fn lemma_unresolved_stays<V: Refs, F: Typename>(s: Seq<V>, counts: Counts, n: int)
    requires
        0 <= n <= s.len(),
        first_unresolved::<V, F>(s.subrange(0, n), counts) is Err,
    ensures
        first_unresolved::<V, F>(s, counts) == first_unresolved::<V, F>(s.subrange(0, n), counts),
    decreases s.len() - n,
{
    if n == s.len() {
        assert(s.subrange(0, n) =~= s);
    } else {
        let upto = s.subrange(0, n + 1);
        assert(upto.drop_last() =~= s.subrange(0, n));
        lemma_unresolved_stays::<V, F>(s, counts, n + 1);
    }
}

/// Check that every reference of the entities `objects` names a record of
/// `store`.
pub fn verify<T: JsonStorable>(
    store: &VecLookup,
    objects: &Vec<T>,
) -> (r: Result<(), VecStoreError>)
    ensures
        check_view(r) == first_unresolved::<T::V, T>(views(objects@), store@.counts()),
{
    let mut i: usize = 0;
    let ghost all = views(objects@);
    proof {
        assert(all.subrange(0, 0) =~= Seq::empty());
    }
    while i < objects.len()
        invariant
            i <= objects.len(),
            all == views(objects@),
            first_unresolved::<T::V, T>(all.subrange(0, i as int), store@.counts()) is Ok,
        decreases objects.len() - i,
    {
        let ghost upto = all.subrange(0, i + 1);
        assert(upto.drop_last() =~= all.subrange(0, i as int));
        assert(upto.last() == objects@[i as int]@);
        match objects[i].validate_indices(VecIndex::new(i), store) {
            Ok(()) => {},
            Err(e) => {
                proof {
                    lemma_unresolved_stays::<T::V, T>(all, store@.counts(), i + 1);
                }
                return Err(e);
            },
        }
        i += 1;
    }
    assert(all.subrange(0, all.len() as int) =~= all);
    Ok(())
}

/// The records of a store, as its files hold them: for each entity type,
/// one record for each index, in order.
#[derive(Debug)]
pub struct StoreRecords {
    pub deployments: Vec<DeploymentJson>,
    pub environments: Vec<EnvironmentJson>,
    pub instances: Vec<InstanceJson>,
    pub jobs: Vec<JobJson>,
    pub job_artifacts: Vec<JobArtifactJson>,
    pub merge_requests: Vec<MergeRequestJson>,
    pub pipelines: Vec<PipelineJson>,
    pub pipeline_schedules: Vec<PipelineScheduleJson>,
    pub projects: Vec<ProjectJson>,
    pub runners: Vec<RunnerJson>,
    pub runner_hosts: Vec<RunnerHostJson>,
    pub users: Vec<UserJson>,
}

impl StoreRecords {
    /// Whether the records hold what `v` says.
    pub open spec fn describes(self, v: VecLookupView) -> bool {
        &&& described::<Deployment>(self.deployments@, v.deployments)
        &&& described::<Environment>(self.environments@, v.environments)
        &&& described::<Instance>(self.instances@, v.instances)
        &&& described::<Job>(self.jobs@, v.jobs)
        &&& described::<JobArtifact>(self.job_artifacts@, v.job_artifacts)
        &&& described::<MergeRequest>(self.merge_requests@, v.merge_requests)
        &&& described::<Pipeline>(self.pipelines@, v.pipelines)
        &&& described::<PipelineSchedule>(self.pipeline_schedules@, v.pipeline_schedules)
        &&& described::<Project>(self.projects@, v.projects)
        &&& described::<Runner>(self.runners@, v.runners)
        &&& described::<RunnerHost>(self.runner_hosts@, v.runner_hosts)
        &&& described::<User>(self.users@, v.users)
    }

    /// What the records say, or the error of the first record that does not
    /// read. The types are read in the order of their fields.
    pub open spec fn spec_restore(self) -> Result<VecLookupView, VecStoreErrorView> {
        match spec_restore::<Deployment>(self.deployments@) {
            Err(e) => Err(e),
            Ok(deployments) => match spec_restore::<Environment>(self.environments@) {
                Err(e) => Err(e),
                Ok(environments) => match spec_restore::<Instance>(self.instances@) {
                    Err(e) => Err(e),
                    Ok(instances) => match spec_restore::<Job>(self.jobs@) {
                        Err(e) => Err(e),
                        Ok(jobs) => match spec_restore::<JobArtifact>(self.job_artifacts@) {
                            Err(e) => Err(e),
                            Ok(job_artifacts) => match spec_restore::<MergeRequest>(
                                self.merge_requests@,
                            ) {
                                Err(e) => Err(e),
                                Ok(merge_requests) => match spec_restore::<Pipeline>(
                                    self.pipelines@,
                                ) {
                                    Err(e) => Err(e),
                                    Ok(pipelines) => match spec_restore::<PipelineSchedule>(
                                        self.pipeline_schedules@,
                                    ) {
                                        Err(e) => Err(e),
                                        Ok(pipeline_schedules) => match spec_restore::<Project>(
                                            self.projects@,
                                        ) {
                                            Err(e) => Err(e),
                                            Ok(projects) => match spec_restore::<Runner>(
                                                self.runners@,
                                            ) {
                                                Err(e) => Err(e),
                                                Ok(runners) => match spec_restore::<RunnerHost>(
                                                    self.runner_hosts@,
                                                ) {
                                                    Err(e) => Err(e),
                                                    Ok(runner_hosts) => match spec_restore::<User>(
                                                        self.users@,
                                                    ) {
                                                        Err(e) => Err(e),
                                                        Ok(users) => Ok(
                                                            VecLookupView {
                                                                deployments,
                                                                environments,
                                                                instances,
                                                                jobs,
                                                                job_artifacts,
                                                                merge_requests,
                                                                pipelines,
                                                                pipeline_schedules,
                                                                projects,
                                                                runners,
                                                                runner_hosts,
                                                                users,
                                                            },
                                                        ),
                                                    },
                                                },
                                            },
                                        },
                                    },
                                },
                            },
                        },
                    },
                },
            },
        }
    }

    /// What loading the records of a store of version `version` comes to:
    /// the store that they describe, where the version is supported, every
    /// record reads and every reference names a record; else the first error.
    pub open spec fn spec_load(self, version: usize) -> Result<VecLookupView, VecStoreErrorView> {
        if version != LATEST_VERSION {
            Err(VecStoreErrorView::UnsupportedVersion { version })
        } else {
            match self.spec_restore() {
                Err(e) => Err(e),
                Ok(v) => match v.first_unresolved() {
                    Err(e) => Err(e),
                    Ok(()) => Ok(v),
                },
            }
        }
    }
}

impl VecLookupView {
    /// Success where every reference names a record of the store; else the
    /// error for the first that does not. The types are checked in the order
    /// of their fields, the records of a type in the order of their indices.
    pub open spec fn first_unresolved(self) -> Result<(), VecStoreErrorView> {
        match first_unresolved::<DeploymentView, Deployment>(self.deployments, self.counts()) {
            Err(e) => Err(e),
            Ok(()) => match first_unresolved::<EnvironmentView, Environment>(
                self.environments,
                self.counts(),
            ) {
                Err(e) => Err(e),
                Ok(()) => match first_unresolved::<InstanceView, Instance>(
                    self.instances,
                    self.counts(),
                ) {
                    Err(e) => Err(e),
                    Ok(()) => match first_unresolved::<JobView, Job>(self.jobs, self.counts()) {
                        Err(e) => Err(e),
                        Ok(()) => match first_unresolved::<JobArtifactView, JobArtifact>(
                            self.job_artifacts,
                            self.counts(),
                        ) {
                            Err(e) => Err(e),
                            Ok(()) => match first_unresolved::<MergeRequestView, MergeRequest>(
                                self.merge_requests,
                                self.counts(),
                            ) {
                                Err(e) => Err(e),
                                Ok(()) => match first_unresolved::<PipelineView, Pipeline>(
                                    self.pipelines,
                                    self.counts(),
                                ) {
                                    Err(e) => Err(e),
                                    Ok(()) => match first_unresolved::<PipelineScheduleView, PipelineSchedule>(self.pipeline_schedules, self.counts()) {
                                        Err(e) => Err(e),
                                        Ok(()) => match first_unresolved::<ProjectView, Project>(
                                            self.projects,
                                            self.counts(),
                                        ) {
                                            Err(e) => Err(e),
                                            Ok(()) => match first_unresolved::<RunnerView, Runner>(
                                                self.runners,
                                                self.counts(),
                                            ) {
                                                Err(e) => Err(e),
                                                Ok(()) => match first_unresolved::<RunnerHostView, RunnerHost>(self.runner_hosts, self.counts()) {
                                                    Err(e) => Err(e),
                                                    Ok(()) => first_unresolved::<UserView, User>(
                                                        self.users,
                                                        self.counts(),
                                                    ),
                                                },
                                            },
                                        },
                                    },
                                },
                            },
                        },
                    },
                },
            },
        }
    }

    /// Whether the store is what a store can say: every record is proper.
    pub open spec fn proper(self) -> bool {
        &&& all_proper::<Deployment>(self.deployments)
        &&& all_proper::<Environment>(self.environments)
        &&& all_proper::<Instance>(self.instances)
        &&& all_proper::<Job>(self.jobs)
        &&& all_proper::<JobArtifact>(self.job_artifacts)
        &&& all_proper::<MergeRequest>(self.merge_requests)
        &&& all_proper::<Pipeline>(self.pipelines)
        &&& all_proper::<PipelineSchedule>(self.pipeline_schedules)
        &&& all_proper::<Project>(self.projects)
        &&& all_proper::<Runner>(self.runners)
        &&& all_proper::<RunnerHost>(self.runner_hosts)
        &&& all_proper::<User>(self.users)
    }

    /// The check of the references succeeds exactly when every reference names
    /// a record of the store.
    pub proof fn lemma_first_unresolved(self)
        ensures
            self.first_unresolved() is Ok <==> self.refs_valid(),
    {
        lemma_first_unresolved::<DeploymentView, Deployment>(self.deployments, self.counts());
        lemma_first_unresolved::<EnvironmentView, Environment>(self.environments, self.counts());
        lemma_first_unresolved::<InstanceView, Instance>(self.instances, self.counts());
        lemma_first_unresolved::<JobView, Job>(self.jobs, self.counts());
        lemma_first_unresolved::<JobArtifactView, JobArtifact>(self.job_artifacts, self.counts());
        lemma_first_unresolved::<MergeRequestView, MergeRequest>(
            self.merge_requests,
            self.counts(),
        );
        lemma_first_unresolved::<PipelineView, Pipeline>(self.pipelines, self.counts());
        lemma_first_unresolved::<PipelineScheduleView, PipelineSchedule>(
            self.pipeline_schedules,
            self.counts(),
        );
        lemma_first_unresolved::<ProjectView, Project>(self.projects, self.counts());
        lemma_first_unresolved::<RunnerView, Runner>(self.runners, self.counts());
        lemma_first_unresolved::<RunnerHostView, RunnerHost>(self.runner_hosts, self.counts());
        lemma_first_unresolved::<UserView, User>(self.users, self.counts());
    }
}

/// Persistence implementation for `VecLookup`.
#[derive(Debug)]
pub struct VecStore;

impl VecStore {
    /// The index file of a store: the latest version and the counts of its
    /// records.
    pub fn index(store: &VecLookup) -> (r: Index)
        ensures
            r.version == LATEST_VERSION,
            r.counts == store@.counts(),
    {
        Index { version: LATEST_VERSION, counts: store.counts() }
    }

    /// The records that hold a `VecLookup`.
    pub fn store(store: &VecLookup) -> (r: StoreRecords)
        ensures
            r.describes(store@),
            store@.proper(),
    {
        StoreRecords {
            deployments: persist(store.deployments()),
            environments: persist(store.environments()),
            instances: persist(store.instances()),
            jobs: persist(store.jobs()),
            job_artifacts: persist(store.job_artifacts()),
            merge_requests: persist(store.merge_requests()),
            pipelines: persist(store.pipelines()),
            pipeline_schedules: persist(store.pipeline_schedules()),
            projects: persist(store.projects()),
            runners: persist(store.runners()),
            runner_hosts: persist(store.runner_hosts()),
            users: persist(store.users()),
        }
    }

    /// Refuse a store of a version that this library does not read.
    pub fn check_version(version: usize) -> (r: Result<(), VecStoreError>)
        ensures
            match r {
                Ok(()) => version == LATEST_VERSION,
                Err(e) => version != LATEST_VERSION && e@ == (VecStoreErrorView::UnsupportedVersion {
                    version,
                }),
            },
    {
        if version != LATEST_VERSION {
            return Err(VecStoreError::UnsupportedVersion { version });
        }
        Ok(())
    }

    /// Load a `VecLookup` from the records of a store of version `version`.
    pub fn load(version: usize, records: &StoreRecords) -> (r: Result<VecLookup, VecStoreError>)
        ensures
            created(r) == records.spec_load(version),
            r matches Ok(store) ==> store@.refs_valid(),
    {
        match Self::check_version(version) {
            Ok(()) => {},
            Err(e) => return Err(e),
        }
        let deployments = match restore::<Deployment>(&records.deployments) {
            Ok(v) => v,
            Err(e) => return Err(e),
        };
        let environments = match restore::<Environment>(&records.environments) {
            Ok(v) => v,
            Err(e) => return Err(e),
        };
        let instances = match restore::<Instance>(&records.instances) {
            Ok(v) => v,
            Err(e) => return Err(e),
        };
        let jobs = match restore::<Job>(&records.jobs) {
            Ok(v) => v,
            Err(e) => return Err(e),
        };
        let job_artifacts = match restore::<JobArtifact>(&records.job_artifacts) {
            Ok(v) => v,
            Err(e) => return Err(e),
        };
        let merge_requests = match restore::<MergeRequest>(&records.merge_requests) {
            Ok(v) => v,
            Err(e) => return Err(e),
        };
        let pipelines = match restore::<Pipeline>(&records.pipelines) {
            Ok(v) => v,
            Err(e) => return Err(e),
        };
        let pipeline_schedules = match restore::<PipelineSchedule>(&records.pipeline_schedules) {
            Ok(v) => v,
            Err(e) => return Err(e),
        };
        let projects = match restore::<Project>(&records.projects) {
            Ok(v) => v,
            Err(e) => return Err(e),
        };
        let runners = match restore::<Runner>(&records.runners) {
            Ok(v) => v,
            Err(e) => return Err(e),
        };
        let runner_hosts = match restore::<RunnerHost>(&records.runner_hosts) {
            Ok(v) => v,
            Err(e) => return Err(e),
        };
        let users = match restore::<User>(&records.users) {
            Ok(v) => v,
            Err(e) => return Err(e),
        };
        let store = VecLookup::from_parts(
            deployments,
            environments,
            instances,
            jobs,
            job_artifacts,
            merge_requests,
            pipelines,
            pipeline_schedules,
            projects,
            runners,
            runner_hosts,
            users,
        );
        assert(Ok::<VecLookupView, VecStoreErrorView>(store@) == records.spec_restore());
        match verify(&store, store.deployments()) {
            Ok(()) => {},
            Err(e) => return Err(e),
        }
        match verify(&store, store.environments()) {
            Ok(()) => {},
            Err(e) => return Err(e),
        }
        match verify(&store, store.instances()) {
            Ok(()) => {},
            Err(e) => return Err(e),
        }
        match verify(&store, store.jobs()) {
            Ok(()) => {},
            Err(e) => return Err(e),
        }
        match verify(&store, store.job_artifacts()) {
            Ok(()) => {},
            Err(e) => return Err(e),
        }
        match verify(&store, store.merge_requests()) {
            Ok(()) => {},
            Err(e) => return Err(e),
        }
        match verify(&store, store.pipelines()) {
            Ok(()) => {},
            Err(e) => return Err(e),
        }
        match verify(&store, store.pipeline_schedules()) {
            Ok(()) => {},
            Err(e) => return Err(e),
        }
        match verify(&store, store.projects()) {
            Ok(()) => {},
            Err(e) => return Err(e),
        }
        match verify(&store, store.runners()) {
            Ok(()) => {},
            Err(e) => return Err(e),
        }
        match verify(&store, store.runner_hosts()) {
            Ok(()) => {},
            Err(e) => return Err(e),
        }
        match verify(&store, store.users()) {
            Ok(()) => {},
            Err(e) => return Err(e),
        }
        proof {
            store@.lemma_first_unresolved();
        }
        Ok(store)
    }
}

/// A store is read back from the records that were written for it.
pub proof fn lemma_store_round_trip(records: StoreRecords, v: VecLookupView)
    requires
        records.describes(v),
        v.proper(),
        v.refs_valid(),
    ensures
        records.spec_load(LATEST_VERSION) == Ok::<VecLookupView, VecStoreErrorView>(v),
{
    lemma_restore_described::<Deployment>(records.deployments@, v.deployments);
    lemma_restore_described::<Environment>(records.environments@, v.environments);
    lemma_restore_described::<Instance>(records.instances@, v.instances);
    lemma_restore_described::<Job>(records.jobs@, v.jobs);
    lemma_restore_described::<JobArtifact>(records.job_artifacts@, v.job_artifacts);
    lemma_restore_described::<MergeRequest>(records.merge_requests@, v.merge_requests);
    lemma_restore_described::<Pipeline>(records.pipelines@, v.pipelines);
    lemma_restore_described::<PipelineSchedule>(records.pipeline_schedules@, v.pipeline_schedules);
    lemma_restore_described::<Project>(records.projects@, v.projects);
    lemma_restore_described::<Runner>(records.runners@, v.runners);
    lemma_restore_described::<RunnerHost>(records.runner_hosts@, v.runner_hosts);
    lemma_restore_described::<User>(records.users@, v.users);
    v.lemma_first_unresolved();
}

/// What loads has no dangling reference; and where a reference dangles in
/// records that read, loading fails for want of an index.
pub proof fn lemma_load_closes_references(records: StoreRecords, version: usize)
    ensures
        records.spec_load(version) matches Ok(v) ==> v.refs_valid(),
        version == LATEST_VERSION ==> (records.spec_restore() matches Ok(v) ==> !v.refs_valid()
            ==> records.spec_load(version) matches Err(VecStoreErrorView::MissingIndex { .. })),
{
    match records.spec_restore() {
        Ok(v) => {
            v.lemma_first_unresolved();
            lemma_unresolved_names::<DeploymentView, Deployment>(v.deployments, v.counts());
            lemma_unresolved_names::<EnvironmentView, Environment>(v.environments, v.counts());
            lemma_unresolved_names::<InstanceView, Instance>(v.instances, v.counts());
            lemma_unresolved_names::<JobView, Job>(v.jobs, v.counts());
            lemma_unresolved_names::<JobArtifactView, JobArtifact>(v.job_artifacts, v.counts());
            lemma_unresolved_names::<MergeRequestView, MergeRequest>(v.merge_requests, v.counts());
            lemma_unresolved_names::<PipelineView, Pipeline>(v.pipelines, v.counts());
            lemma_unresolved_names::<PipelineScheduleView, PipelineSchedule>(
                v.pipeline_schedules,
                v.counts(),
            );
            lemma_unresolved_names::<ProjectView, Project>(v.projects, v.counts());
            lemma_unresolved_names::<RunnerView, Runner>(v.runners, v.counts());
            lemma_unresolved_names::<RunnerHostView, RunnerHost>(v.runner_hosts, v.counts());
            lemma_unresolved_names::<UserView, User>(v.users, v.counts());
        },
        Err(_) => {},
    }
}

} // verus!
