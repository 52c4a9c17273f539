//! The store backed by one dense sequence per entity type.

use vstd::prelude::*;
use core::marker::PhantomData;
use crate::data::deployment::{Deployment, DeploymentView};
use crate::data::environment::{Environment, EnvironmentView};
use crate::data::instance::{Instance, InstanceView};
use crate::data::job::{Job, JobView};
use crate::data::job_artifact::{JobArtifact, JobArtifactView};
use crate::data::merge_request::{MergeRequest, MergeRequestView};
use crate::data::pipeline::{Pipeline, PipelineView};
use crate::data::pipeline_schedule::{PipelineSchedule, PipelineScheduleView};
use crate::data::project::{Project, ProjectView};
use crate::data::runner::{Runner, RunnerView};
use crate::data::runner_host::{RunnerHost, RunnerHostView};
use crate::data::user::{User, UserView};
use crate::lookup::{DiscoverableLookup, Lookup};

pub mod data;
pub mod index;
pub mod json;
pub mod persist;

verus! {

/// The index of `VecLookup`: a position in the sequence of one entity type.
#[derive(Debug)]
pub struct VecIndex<T> {
    pub idx: usize,
    pub _phantom: PhantomData<T>,
}

impl<T> Clone for VecIndex<T> {
    fn clone(&self) -> (r: Self)
        ensures
            r == *self,
    {
        VecIndex { idx: self.idx, _phantom: PhantomData }
    }
}

impl<T> Copy for VecIndex<T> {
}

impl<T> VecIndex<T> {
    /// The index of position `idx`.
    pub open spec fn at(idx: usize) -> VecIndex<T> {
        VecIndex { idx, _phantom: PhantomData }
    }

    /// The index of position `idx`.
    pub fn new(idx: usize) -> (r: Self)
        ensures
            r == Self::at(idx),
            r.idx == idx,
    {
        VecIndex { idx, _phantom: PhantomData }
    }

    /// The position that the index names.
    pub fn position(&self) -> (r: usize)
        ensures
            r == self.idx,
    {
        self.idx
    }
}

/// A value found by a numeric identity key.
pub trait Keyed {
    /// The identity key.
    spec fn key(self) -> u64;
}

/// A record with an identity key.
pub trait HasId: View<V: Keyed> {
    /// The identity key of the record.
    fn id(&self) -> (r: u64)
        ensures
            r == self@.key(),
    ;

    /// Whether the record's identity key is `id`.
    fn has_id(&self, id: u64) -> (r: bool)
        ensures
            r == (self@.key() == id),
    ;
}

/// What each record of a sequence says.
pub open spec fn views<T: View>(s: Seq<T>) -> Seq<T::V> {
    Seq::new(s.len(), |i: int| s[i]@)
}

/// Whether some record of `s` has the key `id`.
pub open spec fn holds_key<V: Keyed>(s: Seq<V>, id: u64) -> bool {
    exists|i: int| 0 <= i < s.len() && #[trigger] s[i].key() == id
}

/// Whether `i` is the first position of `s` whose record has the key `id`.
pub open spec fn is_first<V: Keyed>(s: Seq<V>, id: u64, i: int) -> bool {
    &&& 0 <= i < s.len()
    &&& s[i].key() == id
    &&& forall|j: int| 0 <= j < i ==> #[trigger] s[j].key() != id
}

/// The first position of `s` whose record has the key `id`.
pub open spec fn first_position<V: Keyed>(s: Seq<V>, id: u64) -> int {
    choose|i: int| is_first(s, id, i)
}

/// The position of the record with the key `id`, if there is one.
pub open spec fn find_key<V: Keyed>(s: Seq<V>, id: u64) -> Option<int> {
    if holds_key(s, id) {
        Some(first_position(s, id))
    } else {
        None
    }
}

/// The record with the key `id`, if there is one.
pub open spec fn record_of<V: Keyed>(s: Seq<V>, id: u64) -> Option<V> {
    match find_key(s, id) {
        Some(i) => Some(s[i]),
        None => None,
    }
}

/// `s` with `record` in place of the first record that has its key, or at the
/// end where no record has.
pub open spec fn upsert<V: Keyed>(s: Seq<V>, record: V) -> Seq<V> {
    if holds_key(s, record.key()) {
        s.update(first_position(s, record.key()), record)
    } else {
        s.push(record)
    }
}

/// No two records of `s` have the same key.
pub open spec fn keys_unique<V: Keyed>(s: Seq<V>) -> bool {
    forall|i: int, j: int|
        0 <= i < j < s.len() ==> #[trigger] s[i].key() != #[trigger] s[j].key()
}

/// A first position is the first position.
pub proof fn lemma_first_position<V: Keyed>(s: Seq<V>, id: u64, i: int)
    requires
        is_first(s, id, i),
    ensures
        holds_key(s, id),
        first_position(s, id) == i,
        find_key(s, id) == Some(i),
{
    let p = first_position(s, id);
    assert(is_first(s, id, p));
    if p < i {
        assert(s[p].key() != id);
    } else if i < p {
        assert(s[i].key() != id);
    }
}

/// Where a key is held, it has a first position.
pub proof fn lemma_held_key_has_first<V: Keyed>(s: Seq<V>, id: u64)
    requires
        holds_key(s, id),
    ensures
        is_first(s, id, first_position(s, id)),
{
    let w = choose|i: int| 0 <= i < s.len() && #[trigger] s[i].key() == id;
    lemma_first_up_to(s, id, w);
    let p = choose|p: int| is_first(s, id, p);
    assert(is_first(s, id, p));
}

/// A key held at `w` has a first position at or before `w`.
proof fn lemma_first_up_to<V: Keyed>(s: Seq<V>, id: u64, w: int)
    requires
        0 <= w < s.len(),
        s[w].key() == id,
    ensures
        exists|p: int| is_first(s, id, p),
    decreases w,
{
    if exists|j: int| 0 <= j < w && #[trigger] s[j].key() == id {
        let j = choose|j: int| 0 <= j < w && #[trigger] s[j].key() == id;
        lemma_first_up_to(s, id, j);
    } else {
        assert(is_first(s, id, w));
    }
}

/// Putting a record in place keeps the keys distinct, and the record is found
/// by its key afterwards.
pub proof fn lemma_upsert<V: Keyed>(s: Seq<V>, record: V)
    ensures
        keys_unique(s) ==> keys_unique(upsert(s, record)),
        holds_key(upsert(s, record), record.key()),
        upsert(s, record).len() >= s.len(),
        forall|id: u64| holds_key(s, id) ==> holds_key(upsert(s, record), id),
{
    let after = upsert(s, record);
    if holds_key(s, record.key()) {
        lemma_held_key_has_first(s, record.key());
        let p = first_position(s, record.key());
        assert(after[p].key() == record.key());
        assert forall|id: u64| holds_key(s, id) implies holds_key(after, id) by {
            let w = choose|i: int| 0 <= i < s.len() && #[trigger] s[i].key() == id;
            assert(after[w].key() == id);
        }
        if keys_unique(s) {
            assert forall|i: int, j: int| 0 <= i < j < after.len() implies #[trigger] after[i].key()
                != #[trigger] after[j].key() by {
                assert(s[i].key() != s[j].key());
            }
        }
    } else {
        assert(after[s.len() as int].key() == record.key());
        assert forall|id: u64| holds_key(s, id) implies holds_key(after, id) by {
            let w = choose|i: int| 0 <= i < s.len() && #[trigger] s[i].key() == id;
            assert(after[w].key() == id);
        }
        if keys_unique(s) {
            assert forall|i: int, j: int| 0 <= i < j < after.len() implies #[trigger] after[i].key()
                != #[trigger] after[j].key() by {
                if j < s.len() {
                    assert(s[i].key() != s[j].key());
                } else {
                    assert(s[i].key() != record.key());
                }
            }
        }
    }
}

/// Where a record stands after it was put in place.
pub proof fn lemma_upsert_places<V: Keyed>(s: Seq<V>, record: V)
    ensures
        match find_key(s, record.key()) {
            Some(i) => 0 <= i < s.len() && upsert(s, record).len() == s.len() && upsert(
                s,
                record,
            )[i] == record,
            None => upsert(s, record).len() == s.len() + 1 && upsert(s, record)[s.len() as int]
                == record,
        },
        forall|j: int|
            0 <= j < s.len() && Some(j) != find_key(s, record.key()) ==> upsert(s, record)[j]
                == s[j],
{
    if holds_key(s, record.key()) {
        lemma_held_key_has_first(s, record.key());
    }
}

/// The position of the first record of `v` that has the key `id`.
pub fn find_slot<T: HasId>(v: &Vec<T>, id: u64) -> (r: Option<usize>)
    ensures
        match r {
            Some(i) => is_first(views(v@), id, i as int),
            None => !holds_key(views(v@), id),
        },
        r == match find_key(views(v@), id) {
            Some(i) => Some(i as usize),
            None => None,
        },
{
    let mut i: usize = 0;
    while i < v.len()
        invariant
            i <= v.len(),
            forall|j: int| 0 <= j < i ==> #[trigger] views(v@)[j].key() != id,
        decreases v.len() - i,
    {
        if v[i].has_id(id) {
            proof {
                lemma_first_position(views(v@), id, i as int);
            }
            return Some(i);
        }
        i += 1;
    }
    None
}

/// Put `data` in place of the first record of `v` that has its key, or at the
/// end where no record has; the position it then stands at.
pub fn store_slot<T: HasId>(v: &mut Vec<T>, data: T) -> (r: usize)
    ensures
        views(final(v)@) == upsert(views(old(v)@), data@),
        r < final(v)@.len(),
        final(v)@[r as int] == data,
        r == match find_key(views(old(v)@), data@.key()) {
            Some(i) => i,
            None => old(v)@.len() as int,
        },
        forall|j: int| 0 <= j < old(v)@.len() && j != r ==> final(v)@[j] == old(v)@[j],
        final(v)@.len() == if r < old(v)@.len() {
            old(v)@.len()
        } else {
            old(v)@.len() + 1
        },
{
    let id = data.id();
    match find_slot(v, id) {
        Some(i) => {
            v.set(i, data);
            assert(views(v@) =~= upsert(views(old(v)@), data@));
            i
        },
        None => {
            let i = v.len();
            v.push(data);
            assert(views(v@) =~= upsert(views(old(v)@), data@));
            i
        },
    }
}

/// Whether no two records of `v` have the same identity key.
pub fn unique_slots<T: HasId>(v: &Vec<T>) -> (r: bool)
    ensures
        r == keys_unique(views(v@)),
{
    let mut j: usize = 0;
    while j < v.len()
        invariant
            j <= v.len(),
            forall|a: int, b: int|
                0 <= a < b < j ==> #[trigger] views(v@)[a].key() != #[trigger] views(v@)[b].key(),
        decreases v.len() - j,
    {
        let id = v[j].id();
        let mut i: usize = 0;
        while i < j
            invariant
                i <= j < v.len(),
                id == views(v@)[j as int].key(),
                forall|a: int| 0 <= a < i ==> #[trigger] views(v@)[a].key() != id,
            decreases j - i,
        {
            if v[i].has_id(id) {
                assert(views(v@)[i as int].key() == views(v@)[j as int].key());
                return false;
            }
            i += 1;
        }
        j += 1;
    }
    true
}

/// The indices of a sequence of `n` records.
pub open spec fn index_range<T>(n: nat) -> Seq<VecIndex<T>> {
    Seq::new(n, |i: int| VecIndex::at(i as usize))
}

/// The indices of a sequence of `n` records.
pub fn indices_up_to<T>(n: usize) -> (r: Vec<VecIndex<T>>)
    ensures
        r@ == index_range::<T>(n as nat),
{
    let mut r: Vec<VecIndex<T>> = Vec::new();
    let mut i: usize = 0;
    while i < n
        invariant
            i <= n,
            r@ == index_range::<T>(i as nat),
        decreases n - i,
    {
        r.push(VecIndex::new(i));
        assert(r@ =~= index_range::<T>((i + 1) as nat));
        i += 1;
    }
    r
}

/// Copy a list of records.
pub fn clone_records<T: Clone + View>(v: &Vec<T>) -> (r: Vec<T>)
    requires
        forall|a: T, b: T| call_ensures(T::clone, (&a,), b) ==> a@ == b@,
    ensures
        views(r@) == views(v@),
{
    let mut r: Vec<T> = Vec::new();
    let mut i: usize = 0;
    while i < v.len()
        invariant
            i <= v.len(),
            r@.len() == i,
            forall|a: T, b: T| call_ensures(T::clone, (&a,), b) ==> a@ == b@,
            forall|j: int| 0 <= j < i ==> r@[j]@ == v@[j]@,
        decreases v.len() - i,
    {
        r.push(v[i].clone());
        i += 1;
    }
    assert(views(r@) =~= views(v@));
    r
}

/// Storage for CI monitoring data backed by `Vec`.
///
/// Each entity type has a dense sequence of its own; an index is a position
/// in it. Records are never removed.
#[derive(Debug)]
pub struct VecLookup {
    deployments: Vec<Deployment>,
    environments: Vec<Environment>,
    instances: Vec<Instance>,
    jobs: Vec<Job>,
    job_artifacts: Vec<JobArtifact>,
    merge_requests: Vec<MergeRequest>,
    pipelines: Vec<Pipeline>,
    pipeline_schedules: Vec<PipelineSchedule>,
    projects: Vec<Project>,
    runners: Vec<Runner>,
    runner_hosts: Vec<RunnerHost>,
    users: Vec<User>,
}

/// What a `VecLookup` holds: for each entity type, what its records say, in
/// the order of their indices.
pub struct VecLookupView {
    pub deployments: Seq<DeploymentView>,
    pub environments: Seq<EnvironmentView>,
    pub instances: Seq<InstanceView>,
    pub jobs: Seq<JobView>,
    pub job_artifacts: Seq<JobArtifactView>,
    pub merge_requests: Seq<MergeRequestView>,
    pub pipelines: Seq<PipelineView>,
    pub pipeline_schedules: Seq<PipelineScheduleView>,
    pub projects: Seq<ProjectView>,
    pub runners: Seq<RunnerView>,
    pub runner_hosts: Seq<RunnerHostView>,
    pub users: Seq<UserView>,
}

/// How many records of each entity type a store holds.
#[derive(Debug, Clone, Copy, PartialEq, Eq, Structural)]
pub struct Counts {
    pub deployments: usize,
    pub environments: usize,
    pub instances: usize,
    pub jobs: usize,
    pub job_artifacts: usize,
    pub merge_requests: usize,
    pub pipelines: usize,
    pub pipeline_schedules: usize,
    pub projects: usize,
    pub runners: usize,
    pub runner_hosts: usize,
    pub users: usize,
}

impl Counts {
    /// Whether no count of `self` is above that of `other`.
    pub open spec fn within(self, other: Counts) -> bool {
        &&& self.deployments <= other.deployments
        &&& self.environments <= other.environments
        &&& self.instances <= other.instances
        &&& self.jobs <= other.jobs
        &&& self.job_artifacts <= other.job_artifacts
        &&& self.merge_requests <= other.merge_requests
        &&& self.pipelines <= other.pipelines
        &&& self.pipeline_schedules <= other.pipeline_schedules
        &&& self.projects <= other.projects
        &&& self.runners <= other.runners
        &&& self.runner_hosts <= other.runner_hosts
        &&& self.users <= other.users
    }
}

impl View for VecLookup {
    type V = VecLookupView;

    closed spec fn view(&self) -> VecLookupView {
        VecLookupView {
            deployments: views(self.deployments@),
            environments: views(self.environments@),
            instances: views(self.instances@),
            jobs: views(self.jobs@),
            job_artifacts: views(self.job_artifacts@),
            merge_requests: views(self.merge_requests@),
            pipelines: views(self.pipelines@),
            pipeline_schedules: views(self.pipeline_schedules@),
            projects: views(self.projects@),
            runners: views(self.runners@),
            runner_hosts: views(self.runner_hosts@),
            users: views(self.users@),
        }
    }
}

impl VecLookupView {
    /// The store without records.
    pub open spec fn empty() -> VecLookupView {
        VecLookupView {
            deployments: Seq::empty(),
            environments: Seq::empty(),
            instances: Seq::empty(),
            jobs: Seq::empty(),
            job_artifacts: Seq::empty(),
            merge_requests: Seq::empty(),
            pipelines: Seq::empty(),
            pipeline_schedules: Seq::empty(),
            projects: Seq::empty(),
            runners: Seq::empty(),
            runner_hosts: Seq::empty(),
            users: Seq::empty(),
        }
    }

    /// How many records of each type the store holds.
    pub open spec fn counts(self) -> Counts {
        Counts {
            deployments: self.deployments.len() as usize,
            environments: self.environments.len() as usize,
            instances: self.instances.len() as usize,
            jobs: self.jobs.len() as usize,
            job_artifacts: self.job_artifacts.len() as usize,
            merge_requests: self.merge_requests.len() as usize,
            pipelines: self.pipelines.len() as usize,
            pipeline_schedules: self.pipeline_schedules.len() as usize,
            projects: self.projects.len() as usize,
            runners: self.runners.len() as usize,
            runner_hosts: self.runner_hosts.len() as usize,
            users: self.users.len() as usize,
        }
    }

    /// Every count of records fits the machine word.
    pub open spec fn fits(self) -> bool {
        &&& self.deployments.len() <= usize::MAX
        &&& self.environments.len() <= usize::MAX
        &&& self.instances.len() <= usize::MAX
        &&& self.jobs.len() <= usize::MAX
        &&& self.job_artifacts.len() <= usize::MAX
        &&& self.merge_requests.len() <= usize::MAX
        &&& self.pipelines.len() <= usize::MAX
        &&& self.pipeline_schedules.len() <= usize::MAX
        &&& self.projects.len() <= usize::MAX
        &&& self.runners.len() <= usize::MAX
        &&& self.runner_hosts.len() <= usize::MAX
        &&& self.users.len() <= usize::MAX
    }

    /// Within each entity type, no two records have the same identity key.
    pub open spec fn ids_unique(self) -> bool {
        &&& keys_unique(self.deployments)
        &&& keys_unique(self.environments)
        &&& keys_unique(self.instances)
        &&& keys_unique(self.jobs)
        &&& keys_unique(self.job_artifacts)
        &&& keys_unique(self.merge_requests)
        &&& keys_unique(self.pipelines)
        &&& keys_unique(self.pipeline_schedules)
        &&& keys_unique(self.projects)
        &&& keys_unique(self.runners)
        &&& keys_unique(self.runner_hosts)
        &&& keys_unique(self.users)
    }
}

impl Keyed for DeploymentView {
    open spec fn key(self) -> u64 {
        self.forge_id
    }
}

impl HasId for Deployment {
    fn id(&self) -> (r: u64) {
        self.forge_id
    }

    fn has_id(&self, id: u64) -> (r: bool) {
        self.forge_id == id
    }
}

impl Keyed for EnvironmentView {
    open spec fn key(self) -> u64 {
        self.forge_id
    }
}

impl HasId for Environment {
    fn id(&self) -> (r: u64) {
        self.forge_id
    }

    fn has_id(&self, id: u64) -> (r: bool) {
        self.forge_id == id
    }
}

impl Keyed for InstanceView {
    open spec fn key(self) -> u64 {
        self.unique_id
    }
}

impl HasId for Instance {
    fn id(&self) -> (r: u64) {
        self.unique_id
    }

    fn has_id(&self, id: u64) -> (r: bool) {
        self.unique_id == id
    }
}

impl Keyed for JobView {
    open spec fn key(self) -> u64 {
        self.forge_id
    }
}

impl HasId for Job {
    fn id(&self) -> (r: u64) {
        self.forge_id
    }

    fn has_id(&self, id: u64) -> (r: bool) {
        self.forge_id == id
    }
}

impl Keyed for JobArtifactView {
    open spec fn key(self) -> u64 {
        self.unique_id
    }
}

impl HasId for JobArtifact {
    fn id(&self) -> (r: u64) {
        self.unique_id
    }

    fn has_id(&self, id: u64) -> (r: bool) {
        self.unique_id == id
    }
}

impl Keyed for MergeRequestView {
    open spec fn key(self) -> u64 {
        self.forge_id
    }
}

impl HasId for MergeRequest {
    fn id(&self) -> (r: u64) {
        self.forge_id
    }

    fn has_id(&self, id: u64) -> (r: bool) {
        self.forge_id == id
    }
}

impl Keyed for PipelineView {
    open spec fn key(self) -> u64 {
        self.forge_id
    }
}

impl HasId for Pipeline {
    fn id(&self) -> (r: u64) {
        self.forge_id
    }

    fn has_id(&self, id: u64) -> (r: bool) {
        self.forge_id == id
    }
}

impl Keyed for PipelineScheduleView {
    open spec fn key(self) -> u64 {
        self.forge_id
    }
}

impl HasId for PipelineSchedule {
    fn id(&self) -> (r: u64) {
        self.forge_id
    }

    fn has_id(&self, id: u64) -> (r: bool) {
        self.forge_id == id
    }
}

impl Keyed for ProjectView {
    open spec fn key(self) -> u64 {
        self.forge_id
    }
}

impl HasId for Project {
    fn id(&self) -> (r: u64) {
        self.forge_id
    }

    fn has_id(&self, id: u64) -> (r: bool) {
        self.forge_id == id
    }
}

impl Keyed for RunnerView {
    open spec fn key(self) -> u64 {
        self.forge_id
    }
}

impl HasId for Runner {
    fn id(&self) -> (r: u64) {
        self.forge_id
    }

    fn has_id(&self, id: u64) -> (r: bool) {
        self.forge_id == id
    }
}

impl Keyed for RunnerHostView {
    open spec fn key(self) -> u64 {
        self.unique_id
    }
}

impl HasId for RunnerHost {
    fn id(&self) -> (r: u64) {
        self.unique_id
    }

    fn has_id(&self, id: u64) -> (r: bool) {
        self.unique_id == id
    }
}

impl Keyed for UserView {
    open spec fn key(self) -> u64 {
        self.forge_id
    }
}

impl HasId for User {
    fn id(&self) -> (r: u64) {
        self.forge_id
    }

    fn has_id(&self, id: u64) -> (r: bool) {
        self.forge_id == id
    }
}

impl VecLookup {
    /// The store without records.
    pub fn new() -> (r: Self)
        ensures
            r@ == VecLookupView::empty(),
    {
        let r = VecLookup {
            deployments: Vec::new(),
            environments: Vec::new(),
            instances: Vec::new(),
            jobs: Vec::new(),
            job_artifacts: Vec::new(),
            merge_requests: Vec::new(),
            pipelines: Vec::new(),
            pipeline_schedules: Vec::new(),
            projects: Vec::new(),
            runners: Vec::new(),
            runner_hosts: Vec::new(),
            users: Vec::new(),
        };
        proof {
            assert(views(r.deployments@) =~= Seq::empty());
            assert(views(r.environments@) =~= Seq::empty());
            assert(views(r.instances@) =~= Seq::empty());
            assert(views(r.jobs@) =~= Seq::empty());
            assert(views(r.job_artifacts@) =~= Seq::empty());
            assert(views(r.merge_requests@) =~= Seq::empty());
            assert(views(r.pipelines@) =~= Seq::empty());
            assert(views(r.pipeline_schedules@) =~= Seq::empty());
            assert(views(r.projects@) =~= Seq::empty());
            assert(views(r.runners@) =~= Seq::empty());
            assert(views(r.runner_hosts@) =~= Seq::empty());
            assert(views(r.users@) =~= Seq::empty());
        }
        r
    }

    /// The store that holds the given records, each at the index of its
    /// position.
    pub fn from_parts(
        deployments: Vec<Deployment>,
        environments: Vec<Environment>,
        instances: Vec<Instance>,
        jobs: Vec<Job>,
        job_artifacts: Vec<JobArtifact>,
        merge_requests: Vec<MergeRequest>,
        pipelines: Vec<Pipeline>,
        pipeline_schedules: Vec<PipelineSchedule>,
        projects: Vec<Project>,
        runners: Vec<Runner>,
        runner_hosts: Vec<RunnerHost>,
        users: Vec<User>,
    ) -> (r: Self)
        ensures
            r@ == (VecLookupView {
                deployments: views(deployments@),
                environments: views(environments@),
                instances: views(instances@),
                jobs: views(jobs@),
                job_artifacts: views(job_artifacts@),
                merge_requests: views(merge_requests@),
                pipelines: views(pipelines@),
                pipeline_schedules: views(pipeline_schedules@),
                projects: views(projects@),
                runners: views(runners@),
                runner_hosts: views(runner_hosts@),
                users: views(users@),
            }),
    {
        VecLookup {
            deployments,
            environments,
            instances,
            jobs,
            job_artifacts,
            merge_requests,
            pipelines,
            pipeline_schedules,
            projects,
            runners,
            runner_hosts,
            users,
        }
    }

    /// The deployments of the store, in the order of their indices.
    pub fn deployments(&self) -> (r: &Vec<Deployment>)
        ensures
            views(r@) == self@.deployments,
    {
        &self.deployments
    }

    /// The environments of the store, in the order of their indices.
    pub fn environments(&self) -> (r: &Vec<Environment>)
        ensures
            views(r@) == self@.environments,
    {
        &self.environments
    }

    /// The instances of the store, in the order of their indices.
    pub fn instances(&self) -> (r: &Vec<Instance>)
        ensures
            views(r@) == self@.instances,
    {
        &self.instances
    }

    /// The jobs of the store, in the order of their indices.
    pub fn jobs(&self) -> (r: &Vec<Job>)
        ensures
            views(r@) == self@.jobs,
    {
        &self.jobs
    }

    /// The job artifacts of the store, in the order of their indices.
    pub fn job_artifacts(&self) -> (r: &Vec<JobArtifact>)
        ensures
            views(r@) == self@.job_artifacts,
    {
        &self.job_artifacts
    }

    /// The merge requests of the store, in the order of their indices.
    pub fn merge_requests(&self) -> (r: &Vec<MergeRequest>)
        ensures
            views(r@) == self@.merge_requests,
    {
        &self.merge_requests
    }

    /// The pipelines of the store, in the order of their indices.
    pub fn pipelines(&self) -> (r: &Vec<Pipeline>)
        ensures
            views(r@) == self@.pipelines,
    {
        &self.pipelines
    }

    /// The pipeline schedules of the store, in the order of their indices.
    pub fn pipeline_schedules(&self) -> (r: &Vec<PipelineSchedule>)
        ensures
            views(r@) == self@.pipeline_schedules,
    {
        &self.pipeline_schedules
    }

    /// The projects of the store, in the order of their indices.
    pub fn projects(&self) -> (r: &Vec<Project>)
        ensures
            views(r@) == self@.projects,
    {
        &self.projects
    }

    /// The runners of the store, in the order of their indices.
    pub fn runners(&self) -> (r: &Vec<Runner>)
        ensures
            views(r@) == self@.runners,
    {
        &self.runners
    }

    /// The runner hosts of the store, in the order of their indices.
    pub fn runner_hosts(&self) -> (r: &Vec<RunnerHost>)
        ensures
            views(r@) == self@.runner_hosts,
    {
        &self.runner_hosts
    }

    /// The users of the store, in the order of their indices.
    pub fn users(&self) -> (r: &Vec<User>)
        ensures
            views(r@) == self@.users,
    {
        &self.users
    }

    /// Whether the store holds no record at all.
    pub fn is_empty(&self) -> (r: bool)
        ensures
            r == (self@ == VecLookupView::empty()),
    {
        let r = self.deployments.len() == 0
            && self.environments.len() == 0
            && self.instances.len() == 0
            && self.jobs.len() == 0
            && self.job_artifacts.len() == 0
            && self.merge_requests.len() == 0
            && self.pipelines.len() == 0
            && self.pipeline_schedules.len() == 0
            && self.projects.len() == 0
            && self.runners.len() == 0
            && self.runner_hosts.len() == 0
            && self.users.len() == 0;
        proof {
            if r {
                assert(views(self.deployments@) =~= Seq::empty());
                assert(views(self.environments@) =~= Seq::empty());
                assert(views(self.instances@) =~= Seq::empty());
                assert(views(self.jobs@) =~= Seq::empty());
                assert(views(self.job_artifacts@) =~= Seq::empty());
                assert(views(self.merge_requests@) =~= Seq::empty());
                assert(views(self.pipelines@) =~= Seq::empty());
                assert(views(self.pipeline_schedules@) =~= Seq::empty());
                assert(views(self.projects@) =~= Seq::empty());
                assert(views(self.runners@) =~= Seq::empty());
                assert(views(self.runner_hosts@) =~= Seq::empty());
                assert(views(self.users@) =~= Seq::empty());
            } else {
                assert(views(self.deployments@).len() == self.deployments@.len());
                assert(views(self.environments@).len() == self.environments@.len());
                assert(views(self.instances@).len() == self.instances@.len());
                assert(views(self.jobs@).len() == self.jobs@.len());
                assert(views(self.job_artifacts@).len() == self.job_artifacts@.len());
                assert(views(self.merge_requests@).len() == self.merge_requests@.len());
                assert(views(self.pipelines@).len() == self.pipelines@.len());
                assert(views(self.pipeline_schedules@).len() == self.pipeline_schedules@.len());
                assert(views(self.projects@).len() == self.projects@.len());
                assert(views(self.runners@).len() == self.runners@.len());
                assert(views(self.runner_hosts@).len() == self.runner_hosts@.len());
                assert(views(self.users@).len() == self.users@.len());
            }
        }
        r
    }

    /// Whether, within each entity type, no two records have the same
    /// identity key.
    pub fn has_unique_ids(&self) -> (r: bool)
        ensures
            r == self@.ids_unique(),
    {
        unique_slots(&self.deployments)
            && unique_slots(&self.environments)
            && unique_slots(&self.instances)
            && unique_slots(&self.jobs)
            && unique_slots(&self.job_artifacts)
            && unique_slots(&self.merge_requests)
            && unique_slots(&self.pipelines)
            && unique_slots(&self.pipeline_schedules)
            && unique_slots(&self.projects)
            && unique_slots(&self.runners)
            && unique_slots(&self.runner_hosts)
            && unique_slots(&self.users)
    }

    /// A store holds no more records than the machine can count.
    pub proof fn lemma_fits(&self)
        ensures
            self@.fits(),
    {
        assert(self.deployments@.len() == self.deployments.len());
        assert(self.environments@.len() == self.environments.len());
        assert(self.instances@.len() == self.instances.len());
        assert(self.jobs@.len() == self.jobs.len());
        assert(self.job_artifacts@.len() == self.job_artifacts.len());
        assert(self.merge_requests@.len() == self.merge_requests.len());
        assert(self.pipelines@.len() == self.pipelines.len());
        assert(self.pipeline_schedules@.len() == self.pipeline_schedules.len());
        assert(self.projects@.len() == self.projects.len());
        assert(self.runners@.len() == self.runners.len());
        assert(self.runner_hosts@.len() == self.runner_hosts.len());
        assert(self.users@.len() == self.users.len());
    }

    /// How many records of each type the store holds.
    pub fn counts(&self) -> (r: Counts)
        ensures
            r == self@.counts(),
            self@.fits(),
    {
        Counts {
            deployments: self.deployments.len(),
            environments: self.environments.len(),
            instances: self.instances.len(),
            jobs: self.jobs.len(),
            job_artifacts: self.job_artifacts.len(),
            merge_requests: self.merge_requests.len(),
            pipelines: self.pipelines.len(),
            pipeline_schedules: self.pipeline_schedules.len(),
            projects: self.projects.len(),
            runners: self.runners.len(),
            runner_hosts: self.runner_hosts.len(),
            users: self.users.len(),
        }
    }
}

impl Default for VecLookup {
    fn default() -> (r: Self)
        ensures
            r@ == VecLookupView::empty(),
    {
        VecLookup::new()
    }
}

impl Clone for VecLookup {
    fn clone(&self) -> (r: Self)
        ensures
            r@ == self@,
    {
        VecLookup {
            deployments: clone_records(&self.deployments),
            environments: clone_records(&self.environments),
            instances: clone_records(&self.instances),
            jobs: clone_records(&self.jobs),
            job_artifacts: clone_records(&self.job_artifacts),
            merge_requests: clone_records(&self.merge_requests),
            pipelines: clone_records(&self.pipelines),
            pipeline_schedules: clone_records(&self.pipeline_schedules),
            projects: clone_records(&self.projects),
            runners: clone_records(&self.runners),
            runner_hosts: clone_records(&self.runner_hosts),
            users: clone_records(&self.users),
        }
    }
}

impl VecLookup {
    /// The deployment at `idx`, if the store has one there.
    pub fn lookup_deployment<'a>(
        &'a self,
        idx: &VecIndex<Deployment>,
    ) -> (r: Option<&'a Deployment>)
        ensures
            match r {
                Some(v) => idx.idx < self@.deployments.len()
                    && v@ == self@.deployments[idx.idx as int],
                None => idx.idx >= self@.deployments.len(),
            },
            match r {
                Some(v) => <Self as Lookup<Deployment>>::resolve(self, idx) == Some(*v),
                None => <Self as Lookup<Deployment>>::resolve(self, idx) is None,
            },
    {
        if idx.idx < self.deployments.len() {
            Some(&self.deployments[idx.idx])
        } else {
            None
        }
    }

    /// Store a deployment: in place of the one with the same identity key, or at a
    /// fresh index where there is none.
    pub fn store_deployment(&mut self, data: Deployment) -> (idx: VecIndex<Deployment>)
        ensures
            final(self)@ == (VecLookupView {
                deployments: upsert(old(self)@.deployments, data@),
                ..old(self)@
            }),
            idx.idx == match find_key(old(self)@.deployments, data@.key()) {
                Some(i) => i,
                None => old(self)@.deployments.len() as int,
            },
            idx.idx < final(self)@.deployments.len(),
            <Self as Lookup<Deployment>>::resolve(final(self), &idx) == Some(data),
    {
        let i = store_slot(&mut self.deployments, data);
        VecIndex::new(i)
    }

    /// The index of the deployment with the identity key `id`.
    pub fn find_deployment(&self, id: u64) -> (r: Option<VecIndex<Deployment>>)
        ensures
            match r {
                Some(idx) => find_key(self@.deployments, id) == Some(idx.idx as int)
                    && idx.idx < self@.deployments.len(),
                None => find_key(self@.deployments, id) is None,
            },
    {
        match find_slot(&self.deployments, id) {
            Some(i) => Some(VecIndex::new(i)),
            None => None,
        }
    }

    /// The indices of all deployments, in order.
    pub fn all_deployment_indices(&self) -> (r: Vec<VecIndex<Deployment>>)
        ensures
            r@ == index_range::<Deployment>(self@.deployments.len()),
            r@ == <Self as DiscoverableLookup<Deployment>>::indices(self),
    {
        indices_up_to(self.deployments.len())
    }
}

impl Lookup<Deployment> for VecLookup {
    type Index = VecIndex<Deployment>;

    closed spec fn resolve(&self, idx: &VecIndex<Deployment>) -> Option<Deployment> {
        if idx.idx < self.deployments@.len() {
            Some(self.deployments@[idx.idx as int])
        } else {
            None
        }
    }

    /// The record takes the place of the first record that has its identity
    /// key, or a fresh index at the end; nothing else changes.
    open spec fn stored(&self, data: Deployment, after: &VecLookup) -> bool {
        after@ == (VecLookupView { deployments: upsert(self@.deployments, data@), ..self@ })
    }

    fn lookup<'a>(&'a self, idx: &'a VecIndex<Deployment>) -> (r: Option<&'a Deployment>) {
        self.lookup_deployment(idx)
    }

    fn store(&mut self, data: Deployment) -> (idx: VecIndex<Deployment>) {
        self.store_deployment(data)
    }
}

impl DiscoverableLookup<Deployment> for VecLookup {
    open spec fn indices(&self) -> Seq<VecIndex<Deployment>> {
        index_range(self@.deployments.len())
    }

    open spec fn identity(record: &Deployment) -> u64 {
        record@.key()
    }

    fn all_indices(&self) -> (r: Vec<VecIndex<Deployment>>) {
        self.all_deployment_indices()
    }

    fn find(&self, id: u64) -> (r: Option<VecIndex<Deployment>>) {
        match find_slot(&self.deployments, id) {
            Some(i) => {
                assert(views(self.deployments@)[i as int].key() == id);
                Some(VecIndex::new(i))
            },
            None => {
                assert forall|i: int| 0 <= i < self.deployments@.len() implies self.deployments@[i]@.key()
                    != id by {
                    assert(views(self.deployments@)[i].key() != id);
                }
                None
            },
        }
    }
}

impl VecLookup {
    /// The environment at `idx`, if the store has one there.
    pub fn lookup_environment<'a>(
        &'a self,
        idx: &VecIndex<Environment>,
    ) -> (r: Option<&'a Environment>)
        ensures
            match r {
                Some(v) => idx.idx < self@.environments.len()
                    && v@ == self@.environments[idx.idx as int],
                None => idx.idx >= self@.environments.len(),
            },
            match r {
                Some(v) => <Self as Lookup<Environment>>::resolve(self, idx) == Some(*v),
                None => <Self as Lookup<Environment>>::resolve(self, idx) is None,
            },
    {
        if idx.idx < self.environments.len() {
            Some(&self.environments[idx.idx])
        } else {
            None
        }
    }

    /// Store an environment: in place of the one with the same identity key, or at a
    /// fresh index where there is none.
    pub fn store_environment(&mut self, data: Environment) -> (idx: VecIndex<Environment>)
        ensures
            final(self)@ == (VecLookupView {
                environments: upsert(old(self)@.environments, data@),
                ..old(self)@
            }),
            idx.idx == match find_key(old(self)@.environments, data@.key()) {
                Some(i) => i,
                None => old(self)@.environments.len() as int,
            },
            idx.idx < final(self)@.environments.len(),
            <Self as Lookup<Environment>>::resolve(final(self), &idx) == Some(data),
    {
        let i = store_slot(&mut self.environments, data);
        VecIndex::new(i)
    }

    /// The index of the environment with the identity key `id`.
    pub fn find_environment(&self, id: u64) -> (r: Option<VecIndex<Environment>>)
        ensures
            match r {
                Some(idx) => find_key(self@.environments, id) == Some(idx.idx as int)
                    && idx.idx < self@.environments.len(),
                None => find_key(self@.environments, id) is None,
            },
    {
        match find_slot(&self.environments, id) {
            Some(i) => Some(VecIndex::new(i)),
            None => None,
        }
    }

    /// The indices of all environments, in order.
    pub fn all_environment_indices(&self) -> (r: Vec<VecIndex<Environment>>)
        ensures
            r@ == index_range::<Environment>(self@.environments.len()),
            r@ == <Self as DiscoverableLookup<Environment>>::indices(self),
    {
        indices_up_to(self.environments.len())
    }
}

impl Lookup<Environment> for VecLookup {
    type Index = VecIndex<Environment>;

    closed spec fn resolve(&self, idx: &VecIndex<Environment>) -> Option<Environment> {
        if idx.idx < self.environments@.len() {
            Some(self.environments@[idx.idx as int])
        } else {
            None
        }
    }

    /// The record takes the place of the first record that has its identity
    /// key, or a fresh index at the end; nothing else changes.
    open spec fn stored(&self, data: Environment, after: &VecLookup) -> bool {
        after@ == (VecLookupView { environments: upsert(self@.environments, data@), ..self@ })
    }

    fn lookup<'a>(&'a self, idx: &'a VecIndex<Environment>) -> (r: Option<&'a Environment>) {
        self.lookup_environment(idx)
    }

    fn store(&mut self, data: Environment) -> (idx: VecIndex<Environment>) {
        self.store_environment(data)
    }
}

impl DiscoverableLookup<Environment> for VecLookup {
    open spec fn indices(&self) -> Seq<VecIndex<Environment>> {
        index_range(self@.environments.len())
    }

    open spec fn identity(record: &Environment) -> u64 {
        record@.key()
    }

    fn all_indices(&self) -> (r: Vec<VecIndex<Environment>>) {
        self.all_environment_indices()
    }

    fn find(&self, id: u64) -> (r: Option<VecIndex<Environment>>) {
        match find_slot(&self.environments, id) {
            Some(i) => {
                assert(views(self.environments@)[i as int].key() == id);
                Some(VecIndex::new(i))
            },
            None => {
                assert forall|i: int| 0 <= i < self.environments@.len() implies self.environments@[i]@.key()
                    != id by {
                    assert(views(self.environments@)[i].key() != id);
                }
                None
            },
        }
    }
}

impl VecLookup {
    /// The instance at `idx`, if the store has one there.
    pub fn lookup_instance<'a>(&'a self, idx: &VecIndex<Instance>) -> (r: Option<&'a Instance>)
        ensures
            match r {
                Some(v) => idx.idx < self@.instances.len()
                    && v@ == self@.instances[idx.idx as int],
                None => idx.idx >= self@.instances.len(),
            },
            match r {
                Some(v) => <Self as Lookup<Instance>>::resolve(self, idx) == Some(*v),
                None => <Self as Lookup<Instance>>::resolve(self, idx) is None,
            },
    {
        if idx.idx < self.instances.len() {
            Some(&self.instances[idx.idx])
        } else {
            None
        }
    }

    /// Store an instance: in place of the one with the same identity key, or at a
    /// fresh index where there is none.
    pub fn store_instance(&mut self, data: Instance) -> (idx: VecIndex<Instance>)
        ensures
            final(self)@ == (VecLookupView {
                instances: upsert(old(self)@.instances, data@),
                ..old(self)@
            }),
            idx.idx == match find_key(old(self)@.instances, data@.key()) {
                Some(i) => i,
                None => old(self)@.instances.len() as int,
            },
            idx.idx < final(self)@.instances.len(),
            <Self as Lookup<Instance>>::resolve(final(self), &idx) == Some(data),
    {
        let i = store_slot(&mut self.instances, data);
        VecIndex::new(i)
    }

    /// The index of the instance with the identity key `id`.
    pub fn find_instance(&self, id: u64) -> (r: Option<VecIndex<Instance>>)
        ensures
            match r {
                Some(idx) => find_key(self@.instances, id) == Some(idx.idx as int)
                    && idx.idx < self@.instances.len(),
                None => find_key(self@.instances, id) is None,
            },
    {
        match find_slot(&self.instances, id) {
            Some(i) => Some(VecIndex::new(i)),
            None => None,
        }
    }

    /// The indices of all instances, in order.
    pub fn all_instance_indices(&self) -> (r: Vec<VecIndex<Instance>>)
        ensures
            r@ == index_range::<Instance>(self@.instances.len()),
            r@ == <Self as DiscoverableLookup<Instance>>::indices(self),
    {
        indices_up_to(self.instances.len())
    }
}

impl Lookup<Instance> for VecLookup {
    type Index = VecIndex<Instance>;

    closed spec fn resolve(&self, idx: &VecIndex<Instance>) -> Option<Instance> {
        if idx.idx < self.instances@.len() {
            Some(self.instances@[idx.idx as int])
        } else {
            None
        }
    }

    /// The record takes the place of the first record that has its identity
    /// key, or a fresh index at the end; nothing else changes.
    open spec fn stored(&self, data: Instance, after: &VecLookup) -> bool {
        after@ == (VecLookupView { instances: upsert(self@.instances, data@), ..self@ })
    }

    fn lookup<'a>(&'a self, idx: &'a VecIndex<Instance>) -> (r: Option<&'a Instance>) {
        self.lookup_instance(idx)
    }

    fn store(&mut self, data: Instance) -> (idx: VecIndex<Instance>) {
        self.store_instance(data)
    }
}

impl DiscoverableLookup<Instance> for VecLookup {
    open spec fn indices(&self) -> Seq<VecIndex<Instance>> {
        index_range(self@.instances.len())
    }

    open spec fn identity(record: &Instance) -> u64 {
        record@.key()
    }

    fn all_indices(&self) -> (r: Vec<VecIndex<Instance>>) {
        self.all_instance_indices()
    }

    fn find(&self, id: u64) -> (r: Option<VecIndex<Instance>>) {
        match find_slot(&self.instances, id) {
            Some(i) => {
                assert(views(self.instances@)[i as int].key() == id);
                Some(VecIndex::new(i))
            },
            None => {
                assert forall|i: int| 0 <= i < self.instances@.len() implies self.instances@[i]@.key()
                    != id by {
                    assert(views(self.instances@)[i].key() != id);
                }
                None
            },
        }
    }
}

impl VecLookup {
    /// The job at `idx`, if the store has one there.
    pub fn lookup_job<'a>(&'a self, idx: &VecIndex<Job>) -> (r: Option<&'a Job>)
        ensures
            match r {
                Some(v) => idx.idx < self@.jobs.len()
                    && v@ == self@.jobs[idx.idx as int],
                None => idx.idx >= self@.jobs.len(),
            },
            match r {
                Some(v) => <Self as Lookup<Job>>::resolve(self, idx) == Some(*v),
                None => <Self as Lookup<Job>>::resolve(self, idx) is None,
            },
    {
        if idx.idx < self.jobs.len() {
            Some(&self.jobs[idx.idx])
        } else {
            None
        }
    }

    /// Store a job: in place of the one with the same identity key, or at a
    /// fresh index where there is none.
    pub fn store_job(&mut self, data: Job) -> (idx: VecIndex<Job>)
        ensures
            final(self)@ == (VecLookupView {
                jobs: upsert(old(self)@.jobs, data@),
                ..old(self)@
            }),
            idx.idx == match find_key(old(self)@.jobs, data@.key()) {
                Some(i) => i,
                None => old(self)@.jobs.len() as int,
            },
            idx.idx < final(self)@.jobs.len(),
            <Self as Lookup<Job>>::resolve(final(self), &idx) == Some(data),
    {
        let i = store_slot(&mut self.jobs, data);
        VecIndex::new(i)
    }

    /// The index of the job with the identity key `id`.
    pub fn find_job(&self, id: u64) -> (r: Option<VecIndex<Job>>)
        ensures
            match r {
                Some(idx) => find_key(self@.jobs, id) == Some(idx.idx as int)
                    && idx.idx < self@.jobs.len(),
                None => find_key(self@.jobs, id) is None,
            },
    {
        match find_slot(&self.jobs, id) {
            Some(i) => Some(VecIndex::new(i)),
            None => None,
        }
    }

    /// The indices of all jobs, in order.
    pub fn all_job_indices(&self) -> (r: Vec<VecIndex<Job>>)
        ensures
            r@ == index_range::<Job>(self@.jobs.len()),
            r@ == <Self as DiscoverableLookup<Job>>::indices(self),
    {
        indices_up_to(self.jobs.len())
    }
}

impl Lookup<Job> for VecLookup {
    type Index = VecIndex<Job>;

    closed spec fn resolve(&self, idx: &VecIndex<Job>) -> Option<Job> {
        if idx.idx < self.jobs@.len() {
            Some(self.jobs@[idx.idx as int])
        } else {
            None
        }
    }

    /// The record takes the place of the first record that has its identity
    /// key, or a fresh index at the end; nothing else changes.
    open spec fn stored(&self, data: Job, after: &VecLookup) -> bool {
        after@ == (VecLookupView { jobs: upsert(self@.jobs, data@), ..self@ })
    }

    fn lookup<'a>(&'a self, idx: &'a VecIndex<Job>) -> (r: Option<&'a Job>) {
        self.lookup_job(idx)
    }

    fn store(&mut self, data: Job) -> (idx: VecIndex<Job>) {
        self.store_job(data)
    }
}

impl DiscoverableLookup<Job> for VecLookup {
    open spec fn indices(&self) -> Seq<VecIndex<Job>> {
        index_range(self@.jobs.len())
    }

    open spec fn identity(record: &Job) -> u64 {
        record@.key()
    }

    fn all_indices(&self) -> (r: Vec<VecIndex<Job>>) {
        self.all_job_indices()
    }

    fn find(&self, id: u64) -> (r: Option<VecIndex<Job>>) {
        match find_slot(&self.jobs, id) {
            Some(i) => {
                assert(views(self.jobs@)[i as int].key() == id);
                Some(VecIndex::new(i))
            },
            None => {
                assert forall|i: int| 0 <= i < self.jobs@.len() implies self.jobs@[i]@.key()
                    != id by {
                    assert(views(self.jobs@)[i].key() != id);
                }
                None
            },
        }
    }
}

impl VecLookup {
    /// The job artifact at `idx`, if the store has one there.
    pub fn lookup_job_artifact<'a>(
        &'a self,
        idx: &VecIndex<JobArtifact>,
    ) -> (r: Option<&'a JobArtifact>)
        ensures
            match r {
                Some(v) => idx.idx < self@.job_artifacts.len()
                    && v@ == self@.job_artifacts[idx.idx as int],
                None => idx.idx >= self@.job_artifacts.len(),
            },
            match r {
                Some(v) => <Self as Lookup<JobArtifact>>::resolve(self, idx) == Some(*v),
                None => <Self as Lookup<JobArtifact>>::resolve(self, idx) is None,
            },
    {
        if idx.idx < self.job_artifacts.len() {
            Some(&self.job_artifacts[idx.idx])
        } else {
            None
        }
    }

    /// Store a job artifact: in place of the one with the same identity key, or at a
    /// fresh index where there is none.
    pub fn store_job_artifact(&mut self, data: JobArtifact) -> (idx: VecIndex<JobArtifact>)
        ensures
            final(self)@ == (VecLookupView {
                job_artifacts: upsert(old(self)@.job_artifacts, data@),
                ..old(self)@
            }),
            idx.idx == match find_key(old(self)@.job_artifacts, data@.key()) {
                Some(i) => i,
                None => old(self)@.job_artifacts.len() as int,
            },
            idx.idx < final(self)@.job_artifacts.len(),
            <Self as Lookup<JobArtifact>>::resolve(final(self), &idx) == Some(data),
    {
        let i = store_slot(&mut self.job_artifacts, data);
        VecIndex::new(i)
    }

    /// The index of the job artifact with the identity key `id`.
    pub fn find_job_artifact(&self, id: u64) -> (r: Option<VecIndex<JobArtifact>>)
        ensures
            match r {
                Some(idx) => find_key(self@.job_artifacts, id) == Some(idx.idx as int)
                    && idx.idx < self@.job_artifacts.len(),
                None => find_key(self@.job_artifacts, id) is None,
            },
    {
        match find_slot(&self.job_artifacts, id) {
            Some(i) => Some(VecIndex::new(i)),
            None => None,
        }
    }

    /// The indices of all job artifacts, in order.
    pub fn all_job_artifact_indices(&self) -> (r: Vec<VecIndex<JobArtifact>>)
        ensures
            r@ == index_range::<JobArtifact>(self@.job_artifacts.len()),
            r@ == <Self as DiscoverableLookup<JobArtifact>>::indices(self),
    {
        indices_up_to(self.job_artifacts.len())
    }
}

impl Lookup<JobArtifact> for VecLookup {
    type Index = VecIndex<JobArtifact>;

    closed spec fn resolve(&self, idx: &VecIndex<JobArtifact>) -> Option<JobArtifact> {
        if idx.idx < self.job_artifacts@.len() {
            Some(self.job_artifacts@[idx.idx as int])
        } else {
            None
        }
    }

    /// The record takes the place of the first record that has its identity
    /// key, or a fresh index at the end; nothing else changes.
    open spec fn stored(&self, data: JobArtifact, after: &VecLookup) -> bool {
        after@ == (VecLookupView { job_artifacts: upsert(self@.job_artifacts, data@), ..self@ })
    }

    fn lookup<'a>(&'a self, idx: &'a VecIndex<JobArtifact>) -> (r: Option<&'a JobArtifact>) {
        self.lookup_job_artifact(idx)
    }

    fn store(&mut self, data: JobArtifact) -> (idx: VecIndex<JobArtifact>) {
        self.store_job_artifact(data)
    }
}

impl DiscoverableLookup<JobArtifact> for VecLookup {
    open spec fn indices(&self) -> Seq<VecIndex<JobArtifact>> {
        index_range(self@.job_artifacts.len())
    }

    open spec fn identity(record: &JobArtifact) -> u64 {
        record@.key()
    }

    fn all_indices(&self) -> (r: Vec<VecIndex<JobArtifact>>) {
        self.all_job_artifact_indices()
    }

    fn find(&self, id: u64) -> (r: Option<VecIndex<JobArtifact>>) {
        match find_slot(&self.job_artifacts, id) {
            Some(i) => {
                assert(views(self.job_artifacts@)[i as int].key() == id);
                Some(VecIndex::new(i))
            },
            None => {
                assert forall|i: int| 0 <= i < self.job_artifacts@.len() implies self.job_artifacts@[i]@.key()
                    != id by {
                    assert(views(self.job_artifacts@)[i].key() != id);
                }
                None
            },
        }
    }
}

impl VecLookup {
    /// The merge request at `idx`, if the store has one there.
    pub fn lookup_merge_request<'a>(
        &'a self,
        idx: &VecIndex<MergeRequest>,
    ) -> (r: Option<&'a MergeRequest>)
        ensures
            match r {
                Some(v) => idx.idx < self@.merge_requests.len()
                    && v@ == self@.merge_requests[idx.idx as int],
                None => idx.idx >= self@.merge_requests.len(),
            },
            match r {
                Some(v) => <Self as Lookup<MergeRequest>>::resolve(self, idx) == Some(*v),
                None => <Self as Lookup<MergeRequest>>::resolve(self, idx) is None,
            },
    {
        if idx.idx < self.merge_requests.len() {
            Some(&self.merge_requests[idx.idx])
        } else {
            None
        }
    }

    /// Store a merge request: in place of the one with the same identity key, or at a
    /// fresh index where there is none.
    pub fn store_merge_request(&mut self, data: MergeRequest) -> (idx: VecIndex<MergeRequest>)
        ensures
            final(self)@ == (VecLookupView {
                merge_requests: upsert(old(self)@.merge_requests, data@),
                ..old(self)@
            }),
            idx.idx == match find_key(old(self)@.merge_requests, data@.key()) {
                Some(i) => i,
                None => old(self)@.merge_requests.len() as int,
            },
            idx.idx < final(self)@.merge_requests.len(),
            <Self as Lookup<MergeRequest>>::resolve(final(self), &idx) == Some(data),
    {
        let i = store_slot(&mut self.merge_requests, data);
        VecIndex::new(i)
    }

    /// The index of the merge request with the identity key `id`.
    pub fn find_merge_request(&self, id: u64) -> (r: Option<VecIndex<MergeRequest>>)
        ensures
            match r {
                Some(idx) => find_key(self@.merge_requests, id) == Some(idx.idx as int)
                    && idx.idx < self@.merge_requests.len(),
                None => find_key(self@.merge_requests, id) is None,
            },
    {
        match find_slot(&self.merge_requests, id) {
            Some(i) => Some(VecIndex::new(i)),
            None => None,
        }
    }

    /// The indices of all merge requests, in order.
    pub fn all_merge_request_indices(&self) -> (r: Vec<VecIndex<MergeRequest>>)
        ensures
            r@ == index_range::<MergeRequest>(self@.merge_requests.len()),
            r@ == <Self as DiscoverableLookup<MergeRequest>>::indices(self),
    {
        indices_up_to(self.merge_requests.len())
    }
}

impl Lookup<MergeRequest> for VecLookup {
    type Index = VecIndex<MergeRequest>;

    closed spec fn resolve(&self, idx: &VecIndex<MergeRequest>) -> Option<MergeRequest> {
        if idx.idx < self.merge_requests@.len() {
            Some(self.merge_requests@[idx.idx as int])
        } else {
            None
        }
    }

    /// The record takes the place of the first record that has its identity
    /// key, or a fresh index at the end; nothing else changes.
    open spec fn stored(&self, data: MergeRequest, after: &VecLookup) -> bool {
        after@ == (VecLookupView { merge_requests: upsert(self@.merge_requests, data@), ..self@ })
    }

    fn lookup<'a>(&'a self, idx: &'a VecIndex<MergeRequest>) -> (r: Option<&'a MergeRequest>) {
        self.lookup_merge_request(idx)
    }

    fn store(&mut self, data: MergeRequest) -> (idx: VecIndex<MergeRequest>) {
        self.store_merge_request(data)
    }
}

impl DiscoverableLookup<MergeRequest> for VecLookup {
    open spec fn indices(&self) -> Seq<VecIndex<MergeRequest>> {
        index_range(self@.merge_requests.len())
    }

    open spec fn identity(record: &MergeRequest) -> u64 {
        record@.key()
    }

    fn all_indices(&self) -> (r: Vec<VecIndex<MergeRequest>>) {
        self.all_merge_request_indices()
    }

    fn find(&self, id: u64) -> (r: Option<VecIndex<MergeRequest>>) {
        match find_slot(&self.merge_requests, id) {
            Some(i) => {
                assert(views(self.merge_requests@)[i as int].key() == id);
                Some(VecIndex::new(i))
            },
            None => {
                assert forall|i: int| 0 <= i < self.merge_requests@.len() implies self.merge_requests@[i]@.key()
                    != id by {
                    assert(views(self.merge_requests@)[i].key() != id);
                }
                None
            },
        }
    }
}

impl VecLookup {
    /// The pipeline at `idx`, if the store has one there.
    pub fn lookup_pipeline<'a>(&'a self, idx: &VecIndex<Pipeline>) -> (r: Option<&'a Pipeline>)
        ensures
            match r {
                Some(v) => idx.idx < self@.pipelines.len()
                    && v@ == self@.pipelines[idx.idx as int],
                None => idx.idx >= self@.pipelines.len(),
            },
            match r {
                Some(v) => <Self as Lookup<Pipeline>>::resolve(self, idx) == Some(*v),
                None => <Self as Lookup<Pipeline>>::resolve(self, idx) is None,
            },
    {
        if idx.idx < self.pipelines.len() {
            Some(&self.pipelines[idx.idx])
        } else {
            None
        }
    }

    /// Store a pipeline: in place of the one with the same identity key, or at a
    /// fresh index where there is none.
    pub fn store_pipeline(&mut self, data: Pipeline) -> (idx: VecIndex<Pipeline>)
        ensures
            final(self)@ == (VecLookupView {
                pipelines: upsert(old(self)@.pipelines, data@),
                ..old(self)@
            }),
            idx.idx == match find_key(old(self)@.pipelines, data@.key()) {
                Some(i) => i,
                None => old(self)@.pipelines.len() as int,
            },
            idx.idx < final(self)@.pipelines.len(),
            <Self as Lookup<Pipeline>>::resolve(final(self), &idx) == Some(data),
    {
        let i = store_slot(&mut self.pipelines, data);
        VecIndex::new(i)
    }

    /// The index of the pipeline with the identity key `id`.
    pub fn find_pipeline(&self, id: u64) -> (r: Option<VecIndex<Pipeline>>)
        ensures
            match r {
                Some(idx) => find_key(self@.pipelines, id) == Some(idx.idx as int)
                    && idx.idx < self@.pipelines.len(),
                None => find_key(self@.pipelines, id) is None,
            },
    {
        match find_slot(&self.pipelines, id) {
            Some(i) => Some(VecIndex::new(i)),
            None => None,
        }
    }

    /// The indices of all pipelines, in order.
    pub fn all_pipeline_indices(&self) -> (r: Vec<VecIndex<Pipeline>>)
        ensures
            r@ == index_range::<Pipeline>(self@.pipelines.len()),
            r@ == <Self as DiscoverableLookup<Pipeline>>::indices(self),
    {
        indices_up_to(self.pipelines.len())
    }
}

impl Lookup<Pipeline> for VecLookup {
    type Index = VecIndex<Pipeline>;

    closed spec fn resolve(&self, idx: &VecIndex<Pipeline>) -> Option<Pipeline> {
        if idx.idx < self.pipelines@.len() {
            Some(self.pipelines@[idx.idx as int])
        } else {
            None
        }
    }

    /// The record takes the place of the first record that has its identity
    /// key, or a fresh index at the end; nothing else changes.
    open spec fn stored(&self, data: Pipeline, after: &VecLookup) -> bool {
        after@ == (VecLookupView { pipelines: upsert(self@.pipelines, data@), ..self@ })
    }

    fn lookup<'a>(&'a self, idx: &'a VecIndex<Pipeline>) -> (r: Option<&'a Pipeline>) {
        self.lookup_pipeline(idx)
    }

    fn store(&mut self, data: Pipeline) -> (idx: VecIndex<Pipeline>) {
        self.store_pipeline(data)
    }
}

impl DiscoverableLookup<Pipeline> for VecLookup {
    open spec fn indices(&self) -> Seq<VecIndex<Pipeline>> {
        index_range(self@.pipelines.len())
    }

    open spec fn identity(record: &Pipeline) -> u64 {
        record@.key()
    }

    fn all_indices(&self) -> (r: Vec<VecIndex<Pipeline>>) {
        self.all_pipeline_indices()
    }

    fn find(&self, id: u64) -> (r: Option<VecIndex<Pipeline>>) {
        match find_slot(&self.pipelines, id) {
            Some(i) => {
                assert(views(self.pipelines@)[i as int].key() == id);
                Some(VecIndex::new(i))
            },
            None => {
                assert forall|i: int| 0 <= i < self.pipelines@.len() implies self.pipelines@[i]@.key()
                    != id by {
                    assert(views(self.pipelines@)[i].key() != id);
                }
                None
            },
        }
    }
}

impl VecLookup {
    /// The pipeline schedule at `idx`, if the store has one there.
    pub fn lookup_pipeline_schedule<'a>(
        &'a self,
        idx: &VecIndex<PipelineSchedule>,
    ) -> (r: Option<&'a PipelineSchedule>)
        ensures
            match r {
                Some(v) => idx.idx < self@.pipeline_schedules.len()
                    && v@ == self@.pipeline_schedules[idx.idx as int],
                None => idx.idx >= self@.pipeline_schedules.len(),
            },
            match r {
                Some(v) => <Self as Lookup<PipelineSchedule>>::resolve(self, idx) == Some(*v),
                None => <Self as Lookup<PipelineSchedule>>::resolve(self, idx) is None,
            },
    {
        if idx.idx < self.pipeline_schedules.len() {
            Some(&self.pipeline_schedules[idx.idx])
        } else {
            None
        }
    }

    /// Store a pipeline schedule: in place of the one with the same identity key, or at a
    /// fresh index where there is none.
    pub fn store_pipeline_schedule(
        &mut self,
        data: PipelineSchedule,
    ) -> (idx: VecIndex<PipelineSchedule>)
        ensures
            final(self)@ == (VecLookupView {
                pipeline_schedules: upsert(old(self)@.pipeline_schedules, data@),
                ..old(self)@
            }),
            idx.idx == match find_key(old(self)@.pipeline_schedules, data@.key()) {
                Some(i) => i,
                None => old(self)@.pipeline_schedules.len() as int,
            },
            idx.idx < final(self)@.pipeline_schedules.len(),
            <Self as Lookup<PipelineSchedule>>::resolve(final(self), &idx) == Some(data),
    {
        let i = store_slot(&mut self.pipeline_schedules, data);
        VecIndex::new(i)
    }

    /// The index of the pipeline schedule with the identity key `id`.
    pub fn find_pipeline_schedule(&self, id: u64) -> (r: Option<VecIndex<PipelineSchedule>>)
        ensures
            match r {
                Some(idx) => find_key(self@.pipeline_schedules, id) == Some(idx.idx as int)
                    && idx.idx < self@.pipeline_schedules.len(),
                None => find_key(self@.pipeline_schedules, id) is None,
            },
    {
        match find_slot(&self.pipeline_schedules, id) {
            Some(i) => Some(VecIndex::new(i)),
            None => None,
        }
    }

    /// The indices of all pipeline schedules, in order.
    pub fn all_pipeline_schedule_indices(&self) -> (r: Vec<VecIndex<PipelineSchedule>>)
        ensures
            r@ == index_range::<PipelineSchedule>(self@.pipeline_schedules.len()),
            r@ == <Self as DiscoverableLookup<PipelineSchedule>>::indices(self),
    {
        indices_up_to(self.pipeline_schedules.len())
    }
}

impl Lookup<PipelineSchedule> for VecLookup {
    type Index = VecIndex<PipelineSchedule>;

    closed spec fn resolve(&self, idx: &VecIndex<PipelineSchedule>) -> Option<PipelineSchedule> {
        if idx.idx < self.pipeline_schedules@.len() {
            Some(self.pipeline_schedules@[idx.idx as int])
        } else {
            None
        }
    }

    /// The record takes the place of the first record that has its identity
    /// key, or a fresh index at the end; nothing else changes.
    open spec fn stored(&self, data: PipelineSchedule, after: &VecLookup) -> bool {
        after@ == (VecLookupView { pipeline_schedules: upsert(self@.pipeline_schedules, data@), ..self@ })
    }

    fn lookup<'a>(
        &'a self,
        idx: &'a VecIndex<PipelineSchedule>,
    ) -> (r: Option<&'a PipelineSchedule>) {
        self.lookup_pipeline_schedule(idx)
    }

    fn store(&mut self, data: PipelineSchedule) -> (idx: VecIndex<PipelineSchedule>) {
        self.store_pipeline_schedule(data)
    }
}

impl DiscoverableLookup<PipelineSchedule> for VecLookup {
    open spec fn indices(&self) -> Seq<VecIndex<PipelineSchedule>> {
        index_range(self@.pipeline_schedules.len())
    }

    open spec fn identity(record: &PipelineSchedule) -> u64 {
        record@.key()
    }

    fn all_indices(&self) -> (r: Vec<VecIndex<PipelineSchedule>>) {
        self.all_pipeline_schedule_indices()
    }

    fn find(&self, id: u64) -> (r: Option<VecIndex<PipelineSchedule>>) {
        match find_slot(&self.pipeline_schedules, id) {
            Some(i) => {
                assert(views(self.pipeline_schedules@)[i as int].key() == id);
                Some(VecIndex::new(i))
            },
            None => {
                assert forall|i: int| 0 <= i < self.pipeline_schedules@.len() implies self.pipeline_schedules@[i]@.key()
                    != id by {
                    assert(views(self.pipeline_schedules@)[i].key() != id);
                }
                None
            },
        }
    }
}

impl VecLookup {
    /// The project at `idx`, if the store has one there.
    pub fn lookup_project<'a>(&'a self, idx: &VecIndex<Project>) -> (r: Option<&'a Project>)
        ensures
            match r {
                Some(v) => idx.idx < self@.projects.len()
                    && v@ == self@.projects[idx.idx as int],
                None => idx.idx >= self@.projects.len(),
            },
            match r {
                Some(v) => <Self as Lookup<Project>>::resolve(self, idx) == Some(*v),
                None => <Self as Lookup<Project>>::resolve(self, idx) is None,
            },
    {
        if idx.idx < self.projects.len() {
            Some(&self.projects[idx.idx])
        } else {
            None
        }
    }

    /// Store a project: in place of the one with the same identity key, or at a
    /// fresh index where there is none.
    pub fn store_project(&mut self, data: Project) -> (idx: VecIndex<Project>)
        ensures
            final(self)@ == (VecLookupView {
                projects: upsert(old(self)@.projects, data@),
                ..old(self)@
            }),
            idx.idx == match find_key(old(self)@.projects, data@.key()) {
                Some(i) => i,
                None => old(self)@.projects.len() as int,
            },
            idx.idx < final(self)@.projects.len(),
            <Self as Lookup<Project>>::resolve(final(self), &idx) == Some(data),
    {
        let i = store_slot(&mut self.projects, data);
        VecIndex::new(i)
    }

    /// The index of the project with the identity key `id`.
    pub fn find_project(&self, id: u64) -> (r: Option<VecIndex<Project>>)
        ensures
            match r {
                Some(idx) => find_key(self@.projects, id) == Some(idx.idx as int)
                    && idx.idx < self@.projects.len(),
                None => find_key(self@.projects, id) is None,
            },
    {
        match find_slot(&self.projects, id) {
            Some(i) => Some(VecIndex::new(i)),
            None => None,
        }
    }

    /// The indices of all projects, in order.
    pub fn all_project_indices(&self) -> (r: Vec<VecIndex<Project>>)
        ensures
            r@ == index_range::<Project>(self@.projects.len()),
            r@ == <Self as DiscoverableLookup<Project>>::indices(self),
    {
        indices_up_to(self.projects.len())
    }
}

impl Lookup<Project> for VecLookup {
    type Index = VecIndex<Project>;

    closed spec fn resolve(&self, idx: &VecIndex<Project>) -> Option<Project> {
        if idx.idx < self.projects@.len() {
            Some(self.projects@[idx.idx as int])
        } else {
            None
        }
    }

    /// The record takes the place of the first record that has its identity
    /// key, or a fresh index at the end; nothing else changes.
    open spec fn stored(&self, data: Project, after: &VecLookup) -> bool {
        after@ == (VecLookupView { projects: upsert(self@.projects, data@), ..self@ })
    }

    fn lookup<'a>(&'a self, idx: &'a VecIndex<Project>) -> (r: Option<&'a Project>) {
        self.lookup_project(idx)
    }

    fn store(&mut self, data: Project) -> (idx: VecIndex<Project>) {
        self.store_project(data)
    }
}

impl DiscoverableLookup<Project> for VecLookup {
    open spec fn indices(&self) -> Seq<VecIndex<Project>> {
        index_range(self@.projects.len())
    }

    open spec fn identity(record: &Project) -> u64 {
        record@.key()
    }

    fn all_indices(&self) -> (r: Vec<VecIndex<Project>>) {
        self.all_project_indices()
    }

    fn find(&self, id: u64) -> (r: Option<VecIndex<Project>>) {
        match find_slot(&self.projects, id) {
            Some(i) => {
                assert(views(self.projects@)[i as int].key() == id);
                Some(VecIndex::new(i))
            },
            None => {
                assert forall|i: int| 0 <= i < self.projects@.len() implies self.projects@[i]@.key()
                    != id by {
                    assert(views(self.projects@)[i].key() != id);
                }
                None
            },
        }
    }
}

impl VecLookup {
    /// The runner at `idx`, if the store has one there.
    pub fn lookup_runner<'a>(&'a self, idx: &VecIndex<Runner>) -> (r: Option<&'a Runner>)
        ensures
            match r {
                Some(v) => idx.idx < self@.runners.len()
                    && v@ == self@.runners[idx.idx as int],
                None => idx.idx >= self@.runners.len(),
            },
            match r {
                Some(v) => <Self as Lookup<Runner>>::resolve(self, idx) == Some(*v),
                None => <Self as Lookup<Runner>>::resolve(self, idx) is None,
            },
    {
        if idx.idx < self.runners.len() {
            Some(&self.runners[idx.idx])
        } else {
            None
        }
    }

    /// Store a runner: in place of the one with the same identity key, or at a
    /// fresh index where there is none.
    pub fn store_runner(&mut self, data: Runner) -> (idx: VecIndex<Runner>)
        ensures
            final(self)@ == (VecLookupView {
                runners: upsert(old(self)@.runners, data@),
                ..old(self)@
            }),
            idx.idx == match find_key(old(self)@.runners, data@.key()) {
                Some(i) => i,
                None => old(self)@.runners.len() as int,
            },
            idx.idx < final(self)@.runners.len(),
            <Self as Lookup<Runner>>::resolve(final(self), &idx) == Some(data),
    {
        let i = store_slot(&mut self.runners, data);
        VecIndex::new(i)
    }

    /// The index of the runner with the identity key `id`.
    pub fn find_runner(&self, id: u64) -> (r: Option<VecIndex<Runner>>)
        ensures
            match r {
                Some(idx) => find_key(self@.runners, id) == Some(idx.idx as int)
                    && idx.idx < self@.runners.len(),
                None => find_key(self@.runners, id) is None,
            },
    {
        match find_slot(&self.runners, id) {
            Some(i) => Some(VecIndex::new(i)),
            None => None,
        }
    }

    /// The indices of all runners, in order.
    pub fn all_runner_indices(&self) -> (r: Vec<VecIndex<Runner>>)
        ensures
            r@ == index_range::<Runner>(self@.runners.len()),
            r@ == <Self as DiscoverableLookup<Runner>>::indices(self),
    {
        indices_up_to(self.runners.len())
    }
}

impl Lookup<Runner> for VecLookup {
    type Index = VecIndex<Runner>;

    closed spec fn resolve(&self, idx: &VecIndex<Runner>) -> Option<Runner> {
        if idx.idx < self.runners@.len() {
            Some(self.runners@[idx.idx as int])
        } else {
            None
        }
    }

    /// The record takes the place of the first record that has its identity
    /// key, or a fresh index at the end; nothing else changes.
    open spec fn stored(&self, data: Runner, after: &VecLookup) -> bool {
        after@ == (VecLookupView { runners: upsert(self@.runners, data@), ..self@ })
    }

    fn lookup<'a>(&'a self, idx: &'a VecIndex<Runner>) -> (r: Option<&'a Runner>) {
        self.lookup_runner(idx)
    }

    fn store(&mut self, data: Runner) -> (idx: VecIndex<Runner>) {
        self.store_runner(data)
    }
}

impl DiscoverableLookup<Runner> for VecLookup {
    open spec fn indices(&self) -> Seq<VecIndex<Runner>> {
        index_range(self@.runners.len())
    }

    open spec fn identity(record: &Runner) -> u64 {
        record@.key()
    }

    fn all_indices(&self) -> (r: Vec<VecIndex<Runner>>) {
        self.all_runner_indices()
    }

    fn find(&self, id: u64) -> (r: Option<VecIndex<Runner>>) {
        match find_slot(&self.runners, id) {
            Some(i) => {
                assert(views(self.runners@)[i as int].key() == id);
                Some(VecIndex::new(i))
            },
            None => {
                assert forall|i: int| 0 <= i < self.runners@.len() implies self.runners@[i]@.key()
                    != id by {
                    assert(views(self.runners@)[i].key() != id);
                }
                None
            },
        }
    }
}

impl VecLookup {
    /// The runner host at `idx`, if the store has one there.
    pub fn lookup_runner_host<'a>(
        &'a self,
        idx: &VecIndex<RunnerHost>,
    ) -> (r: Option<&'a RunnerHost>)
        ensures
            match r {
                Some(v) => idx.idx < self@.runner_hosts.len()
                    && v@ == self@.runner_hosts[idx.idx as int],
                None => idx.idx >= self@.runner_hosts.len(),
            },
            match r {
                Some(v) => <Self as Lookup<RunnerHost>>::resolve(self, idx) == Some(*v),
                None => <Self as Lookup<RunnerHost>>::resolve(self, idx) is None,
            },
    {
        if idx.idx < self.runner_hosts.len() {
            Some(&self.runner_hosts[idx.idx])
        } else {
            None
        }
    }

    /// Store a runner host: in place of the one with the same identity key, or at a
    /// fresh index where there is none.
    pub fn store_runner_host(&mut self, data: RunnerHost) -> (idx: VecIndex<RunnerHost>)
        ensures
            final(self)@ == (VecLookupView {
                runner_hosts: upsert(old(self)@.runner_hosts, data@),
                ..old(self)@
            }),
            idx.idx == match find_key(old(self)@.runner_hosts, data@.key()) {
                Some(i) => i,
                None => old(self)@.runner_hosts.len() as int,
            },
            idx.idx < final(self)@.runner_hosts.len(),
            <Self as Lookup<RunnerHost>>::resolve(final(self), &idx) == Some(data),
    {
        let i = store_slot(&mut self.runner_hosts, data);
        VecIndex::new(i)
    }

    /// The index of the runner host with the identity key `id`.
    pub fn find_runner_host(&self, id: u64) -> (r: Option<VecIndex<RunnerHost>>)
        ensures
            match r {
                Some(idx) => find_key(self@.runner_hosts, id) == Some(idx.idx as int)
                    && idx.idx < self@.runner_hosts.len(),
                None => find_key(self@.runner_hosts, id) is None,
            },
    {
        match find_slot(&self.runner_hosts, id) {
            Some(i) => Some(VecIndex::new(i)),
            None => None,
        }
    }

    /// The indices of all runner hosts, in order.
    pub fn all_runner_host_indices(&self) -> (r: Vec<VecIndex<RunnerHost>>)
        ensures
            r@ == index_range::<RunnerHost>(self@.runner_hosts.len()),
            r@ == <Self as DiscoverableLookup<RunnerHost>>::indices(self),
    {
        indices_up_to(self.runner_hosts.len())
    }
}

impl Lookup<RunnerHost> for VecLookup {
    type Index = VecIndex<RunnerHost>;

    closed spec fn resolve(&self, idx: &VecIndex<RunnerHost>) -> Option<RunnerHost> {
        if idx.idx < self.runner_hosts@.len() {
            Some(self.runner_hosts@[idx.idx as int])
        } else {
            None
        }
    }

    /// The record takes the place of the first record that has its identity
    /// key, or a fresh index at the end; nothing else changes.
    open spec fn stored(&self, data: RunnerHost, after: &VecLookup) -> bool {
        after@ == (VecLookupView { runner_hosts: upsert(self@.runner_hosts, data@), ..self@ })
    }

    fn lookup<'a>(&'a self, idx: &'a VecIndex<RunnerHost>) -> (r: Option<&'a RunnerHost>) {
        self.lookup_runner_host(idx)
    }

    fn store(&mut self, data: RunnerHost) -> (idx: VecIndex<RunnerHost>) {
        self.store_runner_host(data)
    }
}

impl DiscoverableLookup<RunnerHost> for VecLookup {
    open spec fn indices(&self) -> Seq<VecIndex<RunnerHost>> {
        index_range(self@.runner_hosts.len())
    }

    open spec fn identity(record: &RunnerHost) -> u64 {
        record@.key()
    }

    fn all_indices(&self) -> (r: Vec<VecIndex<RunnerHost>>) {
        self.all_runner_host_indices()
    }

    fn find(&self, id: u64) -> (r: Option<VecIndex<RunnerHost>>) {
        match find_slot(&self.runner_hosts, id) {
            Some(i) => {
                assert(views(self.runner_hosts@)[i as int].key() == id);
                Some(VecIndex::new(i))
            },
            None => {
                assert forall|i: int| 0 <= i < self.runner_hosts@.len() implies self.runner_hosts@[i]@.key()
                    != id by {
                    assert(views(self.runner_hosts@)[i].key() != id);
                }
                None
            },
        }
    }
}

impl VecLookup {
    /// The user at `idx`, if the store has one there.
    pub fn lookup_user<'a>(&'a self, idx: &VecIndex<User>) -> (r: Option<&'a User>)
        ensures
            match r {
                Some(v) => idx.idx < self@.users.len()
                    && v@ == self@.users[idx.idx as int],
                None => idx.idx >= self@.users.len(),
            },
            match r {
                Some(v) => <Self as Lookup<User>>::resolve(self, idx) == Some(*v),
                None => <Self as Lookup<User>>::resolve(self, idx) is None,
            },
    {
        if idx.idx < self.users.len() {
            Some(&self.users[idx.idx])
        } else {
            None
        }
    }

    /// Store an user: in place of the one with the same identity key, or at a
    /// fresh index where there is none.
    pub fn store_user(&mut self, data: User) -> (idx: VecIndex<User>)
        ensures
            final(self)@ == (VecLookupView {
                users: upsert(old(self)@.users, data@),
                ..old(self)@
            }),
            idx.idx == match find_key(old(self)@.users, data@.key()) {
                Some(i) => i,
                None => old(self)@.users.len() as int,
            },
            idx.idx < final(self)@.users.len(),
            <Self as Lookup<User>>::resolve(final(self), &idx) == Some(data),
    {
        let i = store_slot(&mut self.users, data);
        VecIndex::new(i)
    }

    /// The index of the user with the identity key `id`.
    pub fn find_user(&self, id: u64) -> (r: Option<VecIndex<User>>)
        ensures
            match r {
                Some(idx) => find_key(self@.users, id) == Some(idx.idx as int)
                    && idx.idx < self@.users.len(),
                None => find_key(self@.users, id) is None,
            },
    {
        match find_slot(&self.users, id) {
            Some(i) => Some(VecIndex::new(i)),
            None => None,
        }
    }

    /// The indices of all users, in order.
    pub fn all_user_indices(&self) -> (r: Vec<VecIndex<User>>)
        ensures
            r@ == index_range::<User>(self@.users.len()),
            r@ == <Self as DiscoverableLookup<User>>::indices(self),
    {
        indices_up_to(self.users.len())
    }
}

impl Lookup<User> for VecLookup {
    type Index = VecIndex<User>;

    closed spec fn resolve(&self, idx: &VecIndex<User>) -> Option<User> {
        if idx.idx < self.users@.len() {
            Some(self.users@[idx.idx as int])
        } else {
            None
        }
    }

    /// The record takes the place of the first record that has its identity
    /// key, or a fresh index at the end; nothing else changes.
    open spec fn stored(&self, data: User, after: &VecLookup) -> bool {
        after@ == (VecLookupView { users: upsert(self@.users, data@), ..self@ })
    }

    fn lookup<'a>(&'a self, idx: &'a VecIndex<User>) -> (r: Option<&'a User>) {
        self.lookup_user(idx)
    }

    fn store(&mut self, data: User) -> (idx: VecIndex<User>) {
        self.store_user(data)
    }
}

impl DiscoverableLookup<User> for VecLookup {
    open spec fn indices(&self) -> Seq<VecIndex<User>> {
        index_range(self@.users.len())
    }

    open spec fn identity(record: &User) -> u64 {
        record@.key()
    }

    fn all_indices(&self) -> (r: Vec<VecIndex<User>>) {
        self.all_user_indices()
    }

    fn find(&self, id: u64) -> (r: Option<VecIndex<User>>) {
        match find_slot(&self.users, id) {
            Some(i) => {
                assert(views(self.users@)[i as int].key() == id);
                Some(VecIndex::new(i))
            },
            None => {
                assert forall|i: int| 0 <= i < self.users@.len() implies self.users@[i]@.key()
                    != id by {
                    assert(views(self.users@)[i].key() != id);
                }
                None
            },
        }
    }
}

/// Copy a list of indices.
pub fn clone_indices<T>(v: &Vec<VecIndex<T>>) -> (r: Vec<VecIndex<T>>)
    ensures
        r@ == v@,
{
    let mut r: Vec<VecIndex<T>> = Vec::new();
    let mut i: usize = 0;
    while i < v.len()
        invariant
            i <= v.len(),
            r@ == v@.subrange(0, i as int),
        decreases v.len() - i,
    {
        r.push(v[i]);
        i += 1;
    }
    r
}

/// Copy an optional index.
pub fn clone_opt_index<T>(o: &Option<VecIndex<T>>) -> (r: Option<VecIndex<T>>)
    ensures
        r == *o,
{
    match o {
        Some(i) => Some(*i),
        None => None,
    }
}

} // verus!
