//! The migration of each entity type, and of a whole store.

use vstd::prelude::*;
use crate::data::deployment::{Deployment, DeploymentView};
use crate::data::environment::{Environment, EnvironmentView};
use crate::data::instance::{Instance, InstanceView};
use crate::data::job::{Job, JobView};
use crate::data::job_artifact::{JobArtifact, JobArtifactView};
use crate::data::merge_request::{MergeRequest, MergeRequestView};
use crate::data::pipeline::{Pipeline, PipelineView};
use crate::data::pipeline_schedule::{PipelineSchedule, PipelineScheduleView};
use crate::data::project::{Project, ProjectView};
use crate::data::runner::{Runner, RunnerView};
use crate::data::runner_host::{RunnerHost, RunnerHostView};
use crate::data::user::{User, UserView};
use crate::data::blob::clone_opt_blob;
use crate::migrate::errors::{missing, MigrationError, MigrationErrorView};
use crate::migrate::index_map::{
    lemma_translated_all_fails_dangling, translated, translated_all, translated_opt, IndexMap,
};
use crate::objects::vec::data::{Refs, Stamped, Typename};
use crate::objects::vec::{
    clone_indices, find_key, keys_unique, lemma_first_position, lemma_held_key_has_first,
    lemma_upsert_places, holds_key, upsert, views, Counts, HasId, Keyed, VecIndex, VecLookup,
    VecLookupView,
};
use crate::text::{clone_opt_string, clone_strings};

verus! {

/// What the outcome of a translation says.
pub open spec fn migrated<T: View>(
    r: Result<T, MigrationError>,
) -> Result<T::V, MigrationErrorView> {
    match r {
        Ok(v) => Ok(v@),
        Err(e) => Err(e@),
    }
}

/// What the outcome of a step says.
pub open spec fn stepped(r: Result<(), MigrationError>) -> Result<(), MigrationErrorView> {
    match r {
        Ok(()) => Ok(()),
        Err(e) => Err(e@),
    }
}

/// An entity that is migrated from one store into another.
pub trait Migrated: Sized + View<V: Keyed> + HasId + Typename {
    /// The record `v` with each of its references translated, or the error
    /// for the first reference, in order, that has no translation.
    spec fn spec_translate(v: Self::V, maps: IndexMapsView) -> Result<Self::V, MigrationErrorView>;

    /// The records of this type in a store.
    spec fn records(store: VecLookupView) -> Seq<Self::V>;

    /// The store with `s` as the records of this type.
    spec fn with_records(store: VecLookupView, s: Seq<Self::V>) -> VecLookupView;

    /// The translation of the indices of this type.
    spec fn map_of(maps: IndexMapsView) -> Map<usize, usize>;

    /// The entity with each of its references translated.
    fn translate(&self, maps: &IndexMaps) -> (r: Result<Self, MigrationError>)
        ensures
            migrated(r) == Self::spec_translate(self@, maps@),
    ;

    /// The entities of this type in `source`, in the order of their indices.
    fn all(source: &VecLookup) -> (r: &Vec<Self>)
        ensures
            views(r@) == Self::records(source@),
    ;

    /// Store an entity of this type in `sink`.
    fn put(sink: &mut VecLookup, data: Self) -> (idx: VecIndex<Self>)
        ensures
            final(sink)@ == Self::with_records(
                old(sink)@,
                upsert(Self::records(old(sink)@), data@),
            ),
            idx.idx == match find_key(Self::records(old(sink)@), data@.key()) {
                Some(i) => i,
                None => Self::records(old(sink)@).len() as int,
            },
    ;

    /// A translation keeps the identity key.
    proof fn lemma_translate_keeps_key(v: Self::V, maps: IndexMapsView)
        ensures
            Self::spec_translate(v, maps) matches Ok(w) ==> w.key() == v.key(),
    ;

    /// A translation fails for want of a translation of an index.
    proof fn lemma_translate_fails_dangling(v: Self::V, maps: IndexMapsView)
        ensures
            Self::spec_translate(v, maps) matches Err(e) ==> e is DanglingSourceIndex,
    ;

    /// The records of this type are what they were set to.
    proof fn lemma_records(store: VecLookupView, s: Seq<Self::V>)
        ensures
            Self::records(Self::with_records(store, s)) == s,
            Self::with_records(store, Self::records(store)) == store,
            forall|t: Seq<Self::V>|
                Self::with_records(#[trigger] Self::with_records(store, t), s)
                    == Self::with_records(store, s),
    ;
}

/// The source record at `idx`; an index beyond the records of the source is
/// an error.
pub fn get_data<'a, T: Migrated>(source: &'a VecLookup, idx: &VecIndex<T>) -> (r: Result<
    &'a T,
    MigrationError,
>)
    ensures
        match r {
            Ok(v) => idx.idx < T::records(source@).len() && v@ == T::records(source@)[idx.idx as int],
            Err(e) => idx.idx >= T::records(source@).len() && e@ == missing::<T>(idx.idx),
        },
{
    let all = T::all(source);
    if idx.idx < all.len() {
        assert(views(all@)[idx.idx as int] == all@[idx.idx as int]@);
        Ok(&all[idx.idx])
    } else {
        Err(MigrationError::missing_data::<T>(idx))
    }
}

/// The records `s`, each with its references translated, or the error of the
/// first record that has a reference without translation.
pub open spec fn translations<T: Migrated>(s: Seq<T::V>, maps: IndexMapsView) -> Result<
    Seq<T::V>,
    MigrationErrorView,
>
    decreases s.len(),
{
    if s.len() == 0 {
        Ok(Seq::empty())
    } else {
        match translations::<T>(s.drop_last(), maps) {
            Err(e) => Err(e),
            Ok(front) => match T::spec_translate(s.last(), maps) {
                Err(e) => Err(e),
                Ok(v) => Ok(front.push(v)),
            },
        }
    }
}

/// The translation that takes each of the first `n` positions to itself.
pub open spec fn identity(n: nat) -> Map<usize, usize> {
    Map::new(|k: usize| k < n, |k: usize| k)
}

/// Translations keep the number of records and their identity keys.
pub proof fn lemma_translations<T: Migrated>(s: Seq<T::V>, maps: IndexMapsView)
    ensures
        translations::<T>(s, maps) matches Ok(done) ==> done.len() == s.len() && (forall|i: int|
            0 <= i < s.len() ==> T::spec_translate(#[trigger] s[i], maps) == Ok::<
                T::V,
                MigrationErrorView,
            >(done[i]) && done[i].key() == s[i].key()),
    decreases s.len(),
{
    if s.len() > 0 {
        let front = s.drop_last();
        lemma_translations::<T>(front, maps);
        T::lemma_translate_keeps_key(s.last(), maps);
        match translations::<T>(s, maps) {
            Ok(done) => {
                assert forall|i: int| 0 <= i < s.len() implies T::spec_translate(
                    #[trigger] s[i],
                    maps,
                ) == Ok::<T::V, MigrationErrorView>(done[i]) && done[i].key() == s[i].key() by {
                    if i < front.len() {
                        assert(front[i] == s[i]);
                    }
                }
            },
            Err(_) => {},
        }
    }
}

/// Once a prefix of the records fails to translate, every longer prefix
/// fails alike.
pub proof fn lemma_translations_stay_failed<T: Migrated>(s: Seq<T::V>, maps: IndexMapsView, n: int)
    requires
        0 <= n <= s.len(),
        translations::<T>(s.subrange(0, n), maps) is Err,
    ensures
        translations::<T>(s, maps) == translations::<T>(s.subrange(0, n), maps),
    decreases s.len() - n,
{
    if n == s.len() {
        assert(s.subrange(0, n) =~= s);
    } else {
        let upto = s.subrange(0, n + 1);
        assert(upto.drop_last() =~= s.subrange(0, n));
        lemma_translations_stay_failed::<T>(s, maps, n + 1);
    }
}

/// A sequence of records fails to translate for want of a translation of an
/// index.
pub proof fn lemma_translations_fail_dangling<T: Migrated>(s: Seq<T::V>, maps: IndexMapsView)
    ensures
        translations::<T>(s, maps) matches Err(e) ==> e is DanglingSourceIndex,
    decreases s.len(),
{
    if s.len() > 0 {
        lemma_translations_fail_dangling::<T>(s.drop_last(), maps);
        T::lemma_translate_fails_dangling(s.last(), maps);
    }
}

/// Translations that agree on every record agree on every sequence.
pub proof fn lemma_translations_agree<T: Migrated>(s: Seq<T::V>, a: IndexMapsView, b: IndexMapsView)
    requires
        forall|i: int|
            0 <= i < s.len() ==> T::spec_translate(#[trigger] s[i], a) == T::spec_translate(
                s[i],
                b,
            ),
    ensures
        translations::<T>(s, a) == translations::<T>(s, b),
    decreases s.len(),
{
    if s.len() > 0 {
        let front = s.drop_last();
        assert forall|i: int| 0 <= i < front.len() implies T::spec_translate(
            #[trigger] front[i],
            a,
        ) == T::spec_translate(front[i], b) by {
            assert(front[i] == s[i]);
        }
        lemma_translations_agree::<T>(front, a, b);
        assert(s.last() == s[s.len() - 1]);
    }
}

/// Migrate the records of one entity type, in the order of their indices,
/// into a sink that has none of that type. Each reference is translated
/// through `maps`; `imap` takes up where each record went.
pub fn migrate_records<T: Migrated>(
    source: &VecLookup,
    sink: &mut VecLookup,
    maps: &IndexMaps,
    imap: &mut IndexMap<T>,
) -> (r: Result<(), MigrationError>)
    requires
        old(imap)@ == Map::<usize, usize>::empty(),
        T::records(old(sink)@).len() == 0,
        keys_unique(T::records(source@)),
    ensures
        match r {
            Ok(()) => translations::<T>(T::records(source@), maps@) matches Ok(done)
                && final(sink)@ == T::with_records(old(sink)@, done)
                && final(imap)@ == identity(T::records(source@).len()),
            Err(e) => translations::<T>(T::records(source@), maps@) == Err::<
                Seq<T::V>,
                MigrationErrorView,
            >(e@),
        },
{
    let all = T::all(source);
    let ghost records = T::records(source@);
    let ghost start = sink@;
    let mut i: usize = 0;
    proof {
        assert(records.subrange(0, 0) =~= Seq::empty());
        T::lemma_records(start, Seq::empty());
        assert(T::records(start) =~= Seq::empty());
        assert(imap@ =~= identity(0));
    }
    while i < all.len()
        invariant
            i <= all.len(),
            views(all@) == records,
            records == T::records(source@),
            keys_unique(records),
            translations::<T>(records.subrange(0, i as int), maps@) is Ok,
            sink@ == T::with_records(
                start,
                translations::<T>(records.subrange(0, i as int), maps@)->Ok_0,
            ),
            imap@ == identity(i as nat),
        decreases all.len() - i,
    {
        let idx: VecIndex<T> = VecIndex::new(i);
        let ghost upto = records.subrange(0, i + 1);
        let ghost done = translations::<T>(records.subrange(0, i as int), maps@)->Ok_0;
        proof {
            assert(upto.drop_last() =~= records.subrange(0, i as int));
            assert(upto.last() == records[i as int]);
            lemma_translations::<T>(records.subrange(0, i as int), maps@);
            T::lemma_records(start, done);
        }
        match imap.entry(&idx) {
            Ok(()) => {},
            Err(e) => {
                assert(false);
                return Err(e);
            },
        }
        let data = match get_data::<T>(source, &idx) {
            Ok(data) => data,
            Err(e) => {
                assert(false);
                return Err(e);
            },
        };
        let new_data = match data.translate(maps) {
            Ok(new_data) => new_data,
            Err(e) => {
                proof {
                    lemma_translations_stay_failed::<T>(records, maps@, i + 1);
                }
                return Err(e);
            },
        };
        proof {
            T::lemma_translate_keeps_key(data@, maps@);
            // No record that went before has the key of this one.
            assert(!holds_key(done, new_data@.key())) by {
                if holds_key(done, new_data@.key()) {
                    let w = choose|w: int| 0 <= w < done.len() && #[trigger] done[w].key() == new_data@.key();
                    assert(records.subrange(0, i as int)[w] == records[w]);
                    assert(records[w].key() != records[i as int].key());
                }
            }
        }
        let new_index = T::put(sink, new_data);
        imap.insert(idx, new_index);
        proof {
            T::lemma_records(start, done.push(new_data@));
            assert(upsert(done, new_data@) == done.push(new_data@));
            assert(translations::<T>(upto, maps@) == Ok::<Seq<T::V>, MigrationErrorView>(
                done.push(new_data@),
            ));
            assert(new_index.idx == i);
            assert(imap@ =~= identity((i + 1) as nat));
        }
        i += 1;
    }
    proof {
        assert(records.subrange(0, records.len() as int) =~= records);
    }
    Ok(())
}

/// The translations of the indices of every entity type.
#[derive(Debug)]
pub struct IndexMaps {
    pub deployments: IndexMap<Deployment>,
    pub environments: IndexMap<Environment>,
    pub instances: IndexMap<Instance>,
    pub jobs: IndexMap<Job>,
    pub job_artifacts: IndexMap<JobArtifact>,
    pub merge_requests: IndexMap<MergeRequest>,
    pub pipelines: IndexMap<Pipeline>,
    pub pipeline_schedules: IndexMap<PipelineSchedule>,
    pub projects: IndexMap<Project>,
    pub runners: IndexMap<Runner>,
    pub runner_hosts: IndexMap<RunnerHost>,
    pub users: IndexMap<User>,
}

/// What the translations say: for each entity type, the sink position of
/// each source position that was migrated.
pub struct IndexMapsView {
    pub deployments: Map<usize, usize>,
    pub environments: Map<usize, usize>,
    pub instances: Map<usize, usize>,
    pub jobs: Map<usize, usize>,
    pub job_artifacts: Map<usize, usize>,
    pub merge_requests: Map<usize, usize>,
    pub pipelines: Map<usize, usize>,
    pub pipeline_schedules: Map<usize, usize>,
    pub projects: Map<usize, usize>,
    pub runners: Map<usize, usize>,
    pub runner_hosts: Map<usize, usize>,
    pub users: Map<usize, usize>,
}

impl View for IndexMaps {
    type V = IndexMapsView;

    open spec fn view(&self) -> IndexMapsView {
        IndexMapsView {
            deployments: self.deployments@,
            environments: self.environments@,
            instances: self.instances@,
            jobs: self.jobs@,
            job_artifacts: self.job_artifacts@,
            merge_requests: self.merge_requests@,
            pipelines: self.pipelines@,
            pipeline_schedules: self.pipeline_schedules@,
            projects: self.projects@,
            runners: self.runners@,
            runner_hosts: self.runner_hosts@,
            users: self.users@,
        }
    }
}

impl IndexMapsView {
    /// The translations before anything was migrated.
    pub open spec fn empty() -> IndexMapsView {
        IndexMapsView {
            deployments: Map::empty(),
            environments: Map::empty(),
            instances: Map::empty(),
            jobs: Map::empty(),
            job_artifacts: Map::empty(),
            merge_requests: Map::empty(),
            pipelines: Map::empty(),
            pipeline_schedules: Map::empty(),
            projects: Map::empty(),
            runners: Map::empty(),
            runner_hosts: Map::empty(),
            users: Map::empty(),
        }
    }
}

impl IndexMaps {
    /// The translations before anything was migrated.
    pub fn new() -> (r: Self)
        ensures
            r@ == IndexMapsView::empty(),
    {
        IndexMaps {
            deployments: IndexMap::new(),
            environments: IndexMap::new(),
            instances: IndexMap::new(),
            jobs: IndexMap::new(),
            job_artifacts: IndexMap::new(),
            merge_requests: IndexMap::new(),
            pipelines: IndexMap::new(),
            pipeline_schedules: IndexMap::new(),
            projects: IndexMap::new(),
            runners: IndexMap::new(),
            runner_hosts: IndexMap::new(),
            users: IndexMap::new(),
        }
    }
}

impl Migrated for Deployment {
    open spec fn spec_translate(
        v: DeploymentView,
        maps: IndexMapsView,
    ) -> Result<DeploymentView, MigrationErrorView> {
        match translated::<Pipeline>(maps.pipelines, v.pipeline.idx) {
            Err(e) => Err(e),
            Ok(pipeline) => match translated::<Environment>(maps.environments, v.environment.idx) {
                Err(e) => Err(e),
                Ok(environment) => Ok(DeploymentView { pipeline, environment, ..v }),
            },
        }
    }

    open spec fn records(store: VecLookupView) -> Seq<DeploymentView> {
        store.deployments
    }

    open spec fn with_records(store: VecLookupView, s: Seq<DeploymentView>) -> VecLookupView {
        VecLookupView { deployments: s, ..store }
    }

    open spec fn map_of(maps: IndexMapsView) -> Map<usize, usize> {
        maps.deployments
    }

    fn translate(&self, maps: &IndexMaps) -> (r: Result<Deployment, MigrationError>) {
        let pipeline = match maps.pipelines.get(&self.pipeline) {
            Ok(v) => v,
            Err(e) => return Err(e),
        };
        let environment = match maps.environments.get(&self.environment) {
            Ok(v) => v,
            Err(e) => return Err(e),
        };
        Ok(
            Deployment {
                pipeline,
                environment,
                forge_id: self.forge_id,
                created_at: self.created_at,
                updated_at: self.updated_at,
                finished_at: self.finished_at,
                status: self.status,
                cim_fetched_at: self.cim_fetched_at,
                cim_refreshed_at: self.cim_refreshed_at,
            },
        )
    }

    fn all(source: &VecLookup) -> (r: &Vec<Deployment>) {
        source.deployments()
    }

    fn put(sink: &mut VecLookup, data: Deployment) -> (idx: VecIndex<Deployment>) {
        sink.store_deployment(data)
    }

    proof fn lemma_translate_keeps_key(v: DeploymentView, maps: IndexMapsView) {
    }

    proof fn lemma_translate_fails_dangling(v: DeploymentView, maps: IndexMapsView) {
    }

    proof fn lemma_records(store: VecLookupView, s: Seq<DeploymentView>) {
    }
}

impl Migrated for Environment {
    open spec fn spec_translate(
        v: EnvironmentView,
        maps: IndexMapsView,
    ) -> Result<EnvironmentView, MigrationErrorView> {
        match translated::<Project>(maps.projects, v.project.idx) {
            Err(e) => Err(e),
            Ok(project) => Ok(EnvironmentView { project, ..v }),
        }
    }

    open spec fn records(store: VecLookupView) -> Seq<EnvironmentView> {
        store.environments
    }

    open spec fn with_records(store: VecLookupView, s: Seq<EnvironmentView>) -> VecLookupView {
        VecLookupView { environments: s, ..store }
    }

    open spec fn map_of(maps: IndexMapsView) -> Map<usize, usize> {
        maps.environments
    }

    fn translate(&self, maps: &IndexMaps) -> (r: Result<Environment, MigrationError>) {
        let project = match maps.projects.get(&self.project) {
            Ok(v) => v,
            Err(e) => return Err(e),
        };
        Ok(
            Environment {
                name: self.name.clone(),
                external_url: self.external_url.clone(),
                state: self.state,
                tier: self.tier,
                forge_id: self.forge_id,
                project,
                created_at: self.created_at,
                updated_at: self.updated_at,
                auto_stop_at: self.auto_stop_at,
                cim_fetched_at: self.cim_fetched_at,
                cim_refreshed_at: self.cim_refreshed_at,
            },
        )
    }

    fn all(source: &VecLookup) -> (r: &Vec<Environment>) {
        source.environments()
    }

    fn put(sink: &mut VecLookup, data: Environment) -> (idx: VecIndex<Environment>) {
        sink.store_environment(data)
    }

    proof fn lemma_translate_keeps_key(v: EnvironmentView, maps: IndexMapsView) {
    }

    proof fn lemma_translate_fails_dangling(v: EnvironmentView, maps: IndexMapsView) {
    }

    proof fn lemma_records(store: VecLookupView, s: Seq<EnvironmentView>) {
    }
}

impl Migrated for Instance {
    open spec fn spec_translate(
        v: InstanceView,
        maps: IndexMapsView,
    ) -> Result<InstanceView, MigrationErrorView> {
        Ok(v)
    }

    open spec fn records(store: VecLookupView) -> Seq<InstanceView> {
        store.instances
    }

    open spec fn with_records(store: VecLookupView, s: Seq<InstanceView>) -> VecLookupView {
        VecLookupView { instances: s, ..store }
    }

    open spec fn map_of(maps: IndexMapsView) -> Map<usize, usize> {
        maps.instances
    }

    fn translate(&self, maps: &IndexMaps) -> (r: Result<Instance, MigrationError>) {
        Ok(
            Instance {
                unique_id: self.unique_id,
                forge: self.forge.clone(),
                url: self.url.clone(),
            },
        )
    }

    fn all(source: &VecLookup) -> (r: &Vec<Instance>) {
        source.instances()
    }

    fn put(sink: &mut VecLookup, data: Instance) -> (idx: VecIndex<Instance>) {
        sink.store_instance(data)
    }

    proof fn lemma_translate_keeps_key(v: InstanceView, maps: IndexMapsView) {
    }

    proof fn lemma_translate_fails_dangling(v: InstanceView, maps: IndexMapsView) {
    }

    proof fn lemma_records(store: VecLookupView, s: Seq<InstanceView>) {
    }
}

impl Migrated for Job {
    open spec fn spec_translate(
        v: JobView,
        maps: IndexMapsView,
    ) -> Result<JobView, MigrationErrorView> {
        match translated::<User>(maps.users, v.user.idx) {
            Err(e) => Err(e),
            Ok(user) => match translated::<Pipeline>(maps.pipelines, v.pipeline.idx) {
                Err(e) => Err(e),
                Ok(pipeline) => match translated_opt::<Runner>(maps.runners, v.runner) {
                    Err(e) => Err(e),
                    Ok(runner) => match translated_opt::<Deployment>(
                        maps.deployments,
                        v.deployment,
                    ) {
                        Err(e) => Err(e),
                        Ok(deployment) => Ok(JobView { user, pipeline, runner, deployment, ..v }),
                    },
                },
            },
        }
    }

    open spec fn records(store: VecLookupView) -> Seq<JobView> {
        store.jobs
    }

    open spec fn with_records(store: VecLookupView, s: Seq<JobView>) -> VecLookupView {
        VecLookupView { jobs: s, ..store }
    }

    open spec fn map_of(maps: IndexMapsView) -> Map<usize, usize> {
        maps.jobs
    }

    fn translate(&self, maps: &IndexMaps) -> (r: Result<Job, MigrationError>) {
        let user = match maps.users.get(&self.user) {
            Ok(v) => v,
            Err(e) => return Err(e),
        };
        let pipeline = match maps.pipelines.get(&self.pipeline) {
            Ok(v) => v,
            Err(e) => return Err(e),
        };
        let runner = match maps.runners.get_opt(&self.runner) {
            Ok(v) => v,
            Err(e) => return Err(e),
        };
        let deployment = match maps.deployments.get_opt(&self.deployment) {
            Ok(v) => v,
            Err(e) => return Err(e),
        };
        Ok(
            Job {
                name: self.name.clone(),
                stage: self.stage.clone(),
                allow_failure: self.allow_failure,
                user,
                tags: clone_strings(&self.tags),
                variables: self.variables.clone(),
                state: self.state,
                created_at: self.created_at,
                started_at: self.started_at,
                finished_at: self.finished_at,
                erased_at: self.erased_at,
                queued_duration: self.queued_duration,
                runner,
                deployment,
                forge_id: self.forge_id,
                archived: self.archived,
                url: self.url.clone(),
                pipeline,
                coverage: self.coverage,
                cim_fetched_at: self.cim_fetched_at,
                cim_refreshed_at: self.cim_refreshed_at,
            },
        )
    }

    fn all(source: &VecLookup) -> (r: &Vec<Job>) {
        source.jobs()
    }

    fn put(sink: &mut VecLookup, data: Job) -> (idx: VecIndex<Job>) {
        sink.store_job(data)
    }

    proof fn lemma_translate_keeps_key(v: JobView, maps: IndexMapsView) {
    }

    proof fn lemma_translate_fails_dangling(v: JobView, maps: IndexMapsView) {
    }

    proof fn lemma_records(store: VecLookupView, s: Seq<JobView>) {
    }
}

impl Migrated for JobArtifact {
    open spec fn spec_translate(
        v: JobArtifactView,
        maps: IndexMapsView,
    ) -> Result<JobArtifactView, MigrationErrorView> {
        match translated::<Job>(maps.jobs, v.job.idx) {
            Err(e) => Err(e),
            Ok(job) => Ok(JobArtifactView { job, ..v }),
        }
    }

    open spec fn records(store: VecLookupView) -> Seq<JobArtifactView> {
        store.job_artifacts
    }

    open spec fn with_records(store: VecLookupView, s: Seq<JobArtifactView>) -> VecLookupView {
        VecLookupView { job_artifacts: s, ..store }
    }

    open spec fn map_of(maps: IndexMapsView) -> Map<usize, usize> {
        maps.job_artifacts
    }

    fn translate(&self, maps: &IndexMaps) -> (r: Result<JobArtifact, MigrationError>) {
        let job = match maps.jobs.get(&self.job) {
            Ok(v) => v,
            Err(e) => return Err(e),
        };
        Ok(
            JobArtifact {
                state: self.state,
                kind: self.kind.clone(),
                expire_at: self.expire_at,
                name: self.name.clone(),
                blob: clone_opt_blob(&self.blob),
                size: self.size,
                unique_id: self.unique_id,
                job,
            },
        )
    }

    fn all(source: &VecLookup) -> (r: &Vec<JobArtifact>) {
        source.job_artifacts()
    }

    fn put(sink: &mut VecLookup, data: JobArtifact) -> (idx: VecIndex<JobArtifact>) {
        sink.store_job_artifact(data)
    }

    proof fn lemma_translate_keeps_key(v: JobArtifactView, maps: IndexMapsView) {
    }

    proof fn lemma_translate_fails_dangling(v: JobArtifactView, maps: IndexMapsView) {
    }

    proof fn lemma_records(store: VecLookupView, s: Seq<JobArtifactView>) {
    }
}

impl Migrated for MergeRequest {
    open spec fn spec_translate(
        v: MergeRequestView,
        maps: IndexMapsView,
    ) -> Result<MergeRequestView, MigrationErrorView> {
        match translated::<Project>(maps.projects, v.source_project.idx) {
            Err(e) => Err(e),
            Ok(source_project) => match translated::<Project>(maps.projects, v.target_project.idx) {
                Err(e) => Err(e),
                Ok(target_project) => match translated::<User>(maps.users, v.author.idx) {
                    Err(e) => Err(e),
                    Ok(author) => Ok(MergeRequestView { source_project, target_project, author, ..v }),
                },
            },
        }
    }

    open spec fn records(store: VecLookupView) -> Seq<MergeRequestView> {
        store.merge_requests
    }

    open spec fn with_records(store: VecLookupView, s: Seq<MergeRequestView>) -> VecLookupView {
        VecLookupView { merge_requests: s, ..store }
    }

    open spec fn map_of(maps: IndexMapsView) -> Map<usize, usize> {
        maps.merge_requests
    }

    fn translate(&self, maps: &IndexMaps) -> (r: Result<MergeRequest, MigrationError>) {
        let source_project = match maps.projects.get(&self.source_project) {
            Ok(v) => v,
            Err(e) => return Err(e),
        };
        let target_project = match maps.projects.get(&self.target_project) {
            Ok(v) => v,
            Err(e) => return Err(e),
        };
        let author = match maps.users.get(&self.author) {
            Ok(v) => v,
            Err(e) => return Err(e),
        };
        Ok(
            MergeRequest {
                id: self.id,
                source_project,
                source_branch: self.source_branch.clone(),
                sha: self.sha.clone(),
                target_project,
                target_branch: self.target_branch.clone(),
                forge_id: self.forge_id,
                title: self.title.clone(),
                description: self.description.clone(),
                state: self.state,
                author,
                url: self.url.clone(),
                cim_fetched_at: self.cim_fetched_at,
                cim_refreshed_at: self.cim_refreshed_at,
            },
        )
    }

    fn all(source: &VecLookup) -> (r: &Vec<MergeRequest>) {
        source.merge_requests()
    }

    fn put(sink: &mut VecLookup, data: MergeRequest) -> (idx: VecIndex<MergeRequest>) {
        sink.store_merge_request(data)
    }

    proof fn lemma_translate_keeps_key(v: MergeRequestView, maps: IndexMapsView) {
    }

    proof fn lemma_translate_fails_dangling(v: MergeRequestView, maps: IndexMapsView) {
    }

    proof fn lemma_records(store: VecLookupView, s: Seq<MergeRequestView>) {
    }
}

impl Migrated for Pipeline {
    open spec fn spec_translate(
        v: PipelineView,
        maps: IndexMapsView,
    ) -> Result<PipelineView, MigrationErrorView> {
        match translated::<Project>(maps.projects, v.project.idx) {
            Err(e) => Err(e),
            Ok(project) => match translated_opt::<PipelineSchedule>(
                maps.pipeline_schedules,
                v.schedule,
            ) {
                Err(e) => Err(e),
                Ok(schedule) => match translated_opt::<Pipeline>(
                    maps.pipelines,
                    v.parent_pipeline,
                ) {
                    Err(e) => Err(e),
                    Ok(parent_pipeline) => match translated_opt::<MergeRequest>(
                        maps.merge_requests,
                        v.merge_request,
                    ) {
                        Err(e) => Err(e),
                        Ok(merge_request) => match translated_opt::<User>(maps.users, v.user) {
                            Err(e) => Err(e),
                            Ok(user) => Ok(PipelineView { project, schedule, parent_pipeline, merge_request, user, ..v }),
                        },
                    },
                },
            },
        }
    }

    open spec fn records(store: VecLookupView) -> Seq<PipelineView> {
        store.pipelines
    }

    open spec fn with_records(store: VecLookupView, s: Seq<PipelineView>) -> VecLookupView {
        VecLookupView { pipelines: s, ..store }
    }

    open spec fn map_of(maps: IndexMapsView) -> Map<usize, usize> {
        maps.pipelines
    }

    fn translate(&self, maps: &IndexMaps) -> (r: Result<Pipeline, MigrationError>) {
        let project = match maps.projects.get(&self.project) {
            Ok(v) => v,
            Err(e) => return Err(e),
        };
        let schedule = match maps.pipeline_schedules.get_opt(&self.schedule) {
            Ok(v) => v,
            Err(e) => return Err(e),
        };
        let parent_pipeline = match maps.pipelines.get_opt(&self.parent_pipeline) {
            Ok(v) => v,
            Err(e) => return Err(e),
        };
        let merge_request = match maps.merge_requests.get_opt(&self.merge_request) {
            Ok(v) => v,
            Err(e) => return Err(e),
        };
        let user = match maps.users.get_opt(&self.user) {
            Ok(v) => v,
            Err(e) => return Err(e),
        };
        Ok(
            Pipeline {
                name: clone_opt_string(&self.name),
                project,
                sha: self.sha.clone(),
                previous_sha: clone_opt_string(&self.previous_sha),
                refname: clone_opt_string(&self.refname),
                stable_refname: clone_opt_string(&self.stable_refname),
                source: self.source,
                schedule,
                parent_pipeline,
                merge_request,
                variables: self.variables.clone(),
                user,
                status: self.status,
                coverage: self.coverage,
                forge_id: self.forge_id,
                url: self.url.clone(),
                archived: self.archived,
                created_at: self.created_at,
                updated_at: self.updated_at,
                started_at: self.started_at,
                finished_at: self.finished_at,
                cim_fetched_at: self.cim_fetched_at,
                cim_refreshed_at: self.cim_refreshed_at,
            },
        )
    }

    fn all(source: &VecLookup) -> (r: &Vec<Pipeline>) {
        source.pipelines()
    }

    fn put(sink: &mut VecLookup, data: Pipeline) -> (idx: VecIndex<Pipeline>) {
        sink.store_pipeline(data)
    }

    proof fn lemma_translate_keeps_key(v: PipelineView, maps: IndexMapsView) {
    }

    proof fn lemma_translate_fails_dangling(v: PipelineView, maps: IndexMapsView) {
    }

    proof fn lemma_records(store: VecLookupView, s: Seq<PipelineView>) {
    }
}

impl Migrated for PipelineSchedule {
    open spec fn spec_translate(
        v: PipelineScheduleView,
        maps: IndexMapsView,
    ) -> Result<PipelineScheduleView, MigrationErrorView> {
        match translated::<Project>(maps.projects, v.project.idx) {
            Err(e) => Err(e),
            Ok(project) => match translated::<User>(maps.users, v.owner.idx) {
                Err(e) => Err(e),
                Ok(owner) => Ok(PipelineScheduleView { project, owner, ..v }),
            },
        }
    }

    open spec fn records(store: VecLookupView) -> Seq<PipelineScheduleView> {
        store.pipeline_schedules
    }

    open spec fn with_records(store: VecLookupView, s: Seq<PipelineScheduleView>) -> VecLookupView {
        VecLookupView { pipeline_schedules: s, ..store }
    }

    open spec fn map_of(maps: IndexMapsView) -> Map<usize, usize> {
        maps.pipeline_schedules
    }

    fn translate(&self, maps: &IndexMaps) -> (r: Result<PipelineSchedule, MigrationError>) {
        let project = match maps.projects.get(&self.project) {
            Ok(v) => v,
            Err(e) => return Err(e),
        };
        let owner = match maps.users.get(&self.owner) {
            Ok(v) => v,
            Err(e) => return Err(e),
        };
        Ok(
            PipelineSchedule {
                name: self.name.clone(),
                project,
                ref_: self.ref_.clone(),
                variables: self.variables.clone(),
                forge_id: self.forge_id,
                created_at: self.created_at,
                updated_at: self.updated_at,
                owner,
                active: self.active,
                next_run: self.next_run,
                cim_fetched_at: self.cim_fetched_at,
                cim_refreshed_at: self.cim_refreshed_at,
            },
        )
    }

    fn all(source: &VecLookup) -> (r: &Vec<PipelineSchedule>) {
        source.pipeline_schedules()
    }

    fn put(sink: &mut VecLookup, data: PipelineSchedule) -> (idx: VecIndex<PipelineSchedule>) {
        sink.store_pipeline_schedule(data)
    }

    proof fn lemma_translate_keeps_key(v: PipelineScheduleView, maps: IndexMapsView) {
    }

    proof fn lemma_translate_fails_dangling(v: PipelineScheduleView, maps: IndexMapsView) {
    }

    proof fn lemma_records(store: VecLookupView, s: Seq<PipelineScheduleView>) {
    }
}

impl Migrated for Project {
    open spec fn spec_translate(
        v: ProjectView,
        maps: IndexMapsView,
    ) -> Result<ProjectView, MigrationErrorView> {
        match translated::<Instance>(maps.instances, v.instance.idx) {
            Err(e) => Err(e),
            Ok(instance) => Ok(ProjectView { instance, ..v }),
        }
    }

    open spec fn records(store: VecLookupView) -> Seq<ProjectView> {
        store.projects
    }

    open spec fn with_records(store: VecLookupView, s: Seq<ProjectView>) -> VecLookupView {
        VecLookupView { projects: s, ..store }
    }

    open spec fn map_of(maps: IndexMapsView) -> Map<usize, usize> {
        maps.projects
    }

    fn translate(&self, maps: &IndexMaps) -> (r: Result<Project, MigrationError>) {
        let instance = match maps.instances.get(&self.instance) {
            Ok(v) => v,
            Err(e) => return Err(e),
        };
        Ok(
            Project {
                name: self.name.clone(),
                forge_id: self.forge_id,
                url: self.url.clone(),
                instance,
                instance_path: self.instance_path.clone(),
                cim_fetched_at: self.cim_fetched_at,
                cim_refreshed_at: self.cim_refreshed_at,
            },
        )
    }

    fn all(source: &VecLookup) -> (r: &Vec<Project>) {
        source.projects()
    }

    fn put(sink: &mut VecLookup, data: Project) -> (idx: VecIndex<Project>) {
        sink.store_project(data)
    }

    proof fn lemma_translate_keeps_key(v: ProjectView, maps: IndexMapsView) {
    }

    proof fn lemma_translate_fails_dangling(v: ProjectView, maps: IndexMapsView) {
    }

    proof fn lemma_records(store: VecLookupView, s: Seq<ProjectView>) {
    }
}

impl Migrated for Runner {
    open spec fn spec_translate(
        v: RunnerView,
        maps: IndexMapsView,
    ) -> Result<RunnerView, MigrationErrorView> {
        match translated::<Instance>(maps.instances, v.instance.idx) {
            Err(e) => Err(e),
            Ok(instance) => match translated_all::<Project>(maps.projects, v.projects) {
                Err(e) => Err(e),
                Ok(projects) => match translated_opt::<RunnerHost>(
                    maps.runner_hosts,
                    v.runner_host,
                ) {
                    Err(e) => Err(e),
                    Ok(runner_host) => Ok(RunnerView { instance, projects, runner_host, ..v }),
                },
            },
        }
    }

    open spec fn records(store: VecLookupView) -> Seq<RunnerView> {
        store.runners
    }

    open spec fn with_records(store: VecLookupView, s: Seq<RunnerView>) -> VecLookupView {
        VecLookupView { runners: s, ..store }
    }

    open spec fn map_of(maps: IndexMapsView) -> Map<usize, usize> {
        maps.runners
    }

    fn translate(&self, maps: &IndexMaps) -> (r: Result<Runner, MigrationError>) {
        let instance = match maps.instances.get(&self.instance) {
            Ok(v) => v,
            Err(e) => return Err(e),
        };
        let projects = match maps.projects.get_all(&self.projects) {
            Ok(v) => v,
            Err(e) => return Err(e),
        };
        let runner_host = match maps.runner_hosts.get_opt(&self.runner_host) {
            Ok(v) => v,
            Err(e) => return Err(e),
        };
        Ok(
            Runner {
                description: self.description.clone(),
                runner_type: self.runner_type,
                maximum_timeout: self.maximum_timeout,
                protection_level: self.protection_level,
                implementation: self.implementation.clone(),
                version: self.version.clone(),
                revision: self.revision.clone(),
                platform: self.platform.clone(),
                architecture: self.architecture.clone(),
                tags: clone_strings(&self.tags),
                run_untagged: self.run_untagged,
                projects,
                forge_id: self.forge_id,
                paused: self.paused,
                shared: self.shared,
                online: self.online,
                locked: self.locked,
                contacted_at: self.contacted_at,
                maintenance_note: clone_opt_string(&self.maintenance_note),
                instance,
                runner_host,
                cim_fetched_at: self.cim_fetched_at,
                cim_refreshed_at: self.cim_refreshed_at,
            },
        )
    }

    fn all(source: &VecLookup) -> (r: &Vec<Runner>) {
        source.runners()
    }

    fn put(sink: &mut VecLookup, data: Runner) -> (idx: VecIndex<Runner>) {
        sink.store_runner(data)
    }

    proof fn lemma_translate_keeps_key(v: RunnerView, maps: IndexMapsView) {
    }

    proof fn lemma_translate_fails_dangling(v: RunnerView, maps: IndexMapsView) {
        lemma_translated_all_fails_dangling::<Project>(maps.projects, v.projects);
    }

    proof fn lemma_records(store: VecLookupView, s: Seq<RunnerView>) {
    }
}

impl Migrated for RunnerHost {
    open spec fn spec_translate(
        v: RunnerHostView,
        maps: IndexMapsView,
    ) -> Result<RunnerHostView, MigrationErrorView> {
        Ok(v)
    }

    open spec fn records(store: VecLookupView) -> Seq<RunnerHostView> {
        store.runner_hosts
    }

    open spec fn with_records(store: VecLookupView, s: Seq<RunnerHostView>) -> VecLookupView {
        VecLookupView { runner_hosts: s, ..store }
    }

    open spec fn map_of(maps: IndexMapsView) -> Map<usize, usize> {
        maps.runner_hosts
    }

    fn translate(&self, maps: &IndexMaps) -> (r: Result<RunnerHost, MigrationError>) {
        Ok(
            RunnerHost {
                os: self.os.clone(),
                os_version: self.os_version.clone(),
                name: self.name.clone(),
                management: self.management.clone(),
                location: self.location.clone(),
                estimated_cost_per_hour: self.estimated_cost_per_hour,
                unique_id: self.unique_id,
                cim_fetched_at: self.cim_fetched_at,
                cim_refreshed_at: self.cim_refreshed_at,
            },
        )
    }

    fn all(source: &VecLookup) -> (r: &Vec<RunnerHost>) {
        source.runner_hosts()
    }

    fn put(sink: &mut VecLookup, data: RunnerHost) -> (idx: VecIndex<RunnerHost>) {
        sink.store_runner_host(data)
    }

    proof fn lemma_translate_keeps_key(v: RunnerHostView, maps: IndexMapsView) {
    }

    proof fn lemma_translate_fails_dangling(v: RunnerHostView, maps: IndexMapsView) {
    }

    proof fn lemma_records(store: VecLookupView, s: Seq<RunnerHostView>) {
    }
}

impl Migrated for User {
    open spec fn spec_translate(
        v: UserView,
        maps: IndexMapsView,
    ) -> Result<UserView, MigrationErrorView> {
        match translated::<Instance>(maps.instances, v.instance.idx) {
            Err(e) => Err(e),
            Ok(instance) => Ok(UserView { instance, ..v }),
        }
    }

    open spec fn records(store: VecLookupView) -> Seq<UserView> {
        store.users
    }

    open spec fn with_records(store: VecLookupView, s: Seq<UserView>) -> VecLookupView {
        VecLookupView { users: s, ..store }
    }

    open spec fn map_of(maps: IndexMapsView) -> Map<usize, usize> {
        maps.users
    }

    fn translate(&self, maps: &IndexMaps) -> (r: Result<User, MigrationError>) {
        let instance = match maps.instances.get(&self.instance) {
            Ok(v) => v,
            Err(e) => return Err(e),
        };
        Ok(
            User {
                handle: self.handle.clone(),
                name: self.name.clone(),
                email: clone_opt_string(&self.email),
                avatar: clone_opt_blob(&self.avatar),
                forge_id: self.forge_id,
                instance,
                cim_fetched_at: self.cim_fetched_at,
                cim_refreshed_at: self.cim_refreshed_at,
            },
        )
    }

    fn all(source: &VecLookup) -> (r: &Vec<User>) {
        source.users()
    }

    fn put(sink: &mut VecLookup, data: User) -> (idx: VecIndex<User>) {
        sink.store_user(data)
    }

    proof fn lemma_translate_keeps_key(v: UserView, maps: IndexMapsView) {
    }

    proof fn lemma_translate_fails_dangling(v: UserView, maps: IndexMapsView) {
    }

    proof fn lemma_records(store: VecLookupView, s: Seq<UserView>) {
    }
}

/// The positions below `n`.
pub open spec fn below(n: nat) -> Set<usize> {
    Set::new(|x: usize| x < n)
}

/// There are `n` positions below `n`.
pub proof fn lemma_below(n: nat)
    requires
        n <= usize::MAX,
    ensures
        below(n).finite(),
        below(n).len() == n,
    decreases n,
{
    if n == 0 {
        assert(below(0) =~= Set::<usize>::empty());
    } else {
        lemma_below((n - 1) as nat);
        assert(below(n) =~= below((n - 1) as nat).insert((n - 1) as usize));
    }
}

/// Whether every source pipeline that `maps` holds stands, translated, at
/// its position in `sink`.
pub open spec fn pipelines_placed(
    source: Seq<PipelineView>,
    sink: Seq<PipelineView>,
    maps: IndexMapsView,
) -> bool {
    forall|k: usize|
        k < source.len() && maps.pipelines.contains_key(k) ==> {
            &&& (#[trigger] maps.pipelines[k]) < sink.len()
            &&& Pipeline::spec_translate(source[k as int], maps) == Ok::<
                PipelineView,
                MigrationErrorView,
            >(sink[maps.pipelines[k] as int])
        }
}

/// Whether `map` takes a position below `n` to the position `j`.
pub open spec fn reaches(map: Map<usize, usize>, n: nat, j: usize) -> bool {
    exists|k: usize| k < n && #[trigger] map[k] == j
}

/// Whether `map` takes the positions below `n`, and no others, one to one
/// onto the positions below `n`.
pub open spec fn permutes(map: Map<usize, usize>, n: nat) -> bool {
    &&& forall|k: usize| map.contains_key(k) <==> k < n
    &&& forall|k: usize| k < n ==> (#[trigger] map[k]) < n
    &&& forall|a: usize, b: usize|
        a < n && b < n && a != b ==> #[trigger] map[a] != #[trigger] map[b]
    &&& forall|j: usize| j < n ==> #[trigger] reaches(map, n, j)
}

/// Whether the parent of the pipeline `k`, where it has one, went to an
/// earlier position than the pipeline.
pub open spec fn parent_before(
    records: Seq<PipelineView>,
    map: Map<usize, usize>,
    k: usize,
) -> bool {
    match records[k as int].parent_pipeline {
        Some(parent) => map.contains_key(parent.idx) && map[parent.idx] < map[k],
        None => true,
    }
}

/// Whether every pipeline that `map` holds went to a later position than its
/// parent, which `map` holds too.
pub open spec fn parents_first(records: Seq<PipelineView>, map: Map<usize, usize>) -> bool {
    forall|k: usize|
        k < records.len() && map.contains_key(k) ==> #[trigger] parent_before(records, map, k)
}

/// Whether the parent of a pipeline, where it has one, is translated.
pub open spec fn parent_ready(v: PipelineView, map: Map<usize, usize>) -> bool {
    match v.parent_pipeline {
        Some(parent) => map.contains_key(parent.idx),
        None => true,
    }
}

/// Whether the chain of parents that starts at the pipeline `i` ends within
/// `steps` steps, each parent being a pipeline of `records`.
pub open spec fn chain_ends(records: Seq<PipelineView>, i: int, steps: nat) -> bool
    decreases steps,
{
    match records[i].parent_pipeline {
        None => true,
        Some(parent) => steps > 0 && parent.idx < records.len() && chain_ends(
            records,
            parent.idx as int,
            (steps - 1) as nat,
        ),
    }
}

/// Whether the pipelines `records` can all be migrated: every reference of a
/// pipeline but that to its parent has a translation in `maps`, and the
/// chain of parents of every pipeline ends, so that no pipeline is its own
/// ancestor.
pub open spec fn pipelines_migrate(records: Seq<PipelineView>, maps: IndexMapsView) -> bool {
    forall|i: int|
        0 <= i < records.len() ==> {
            &&& Pipeline::spec_translate(
                PipelineView { parent_pipeline: None, ..#[trigger] records[i] },
                maps,
            ) is Ok
            &&& chain_ends(records, i, records.len())
        }
}

/// A pipeline without parent whose references are within the counts
/// translates where the translations of what it refers to hold the positions
/// below the counts, whatever the translation of the pipelines holds.
pub proof fn lemma_parentless_translates(v: PipelineView, maps: IndexMapsView, counts: Counts)
    requires
        v.refs_within(counts),
        v.parent_pipeline is None,
        covers(maps.projects, counts.projects as nat),
        covers(maps.pipeline_schedules, counts.pipeline_schedules as nat),
        covers(maps.merge_requests, counts.merge_requests as nat),
        covers(maps.users, counts.users as nat),
    ensures
        Pipeline::spec_translate(v, maps) is Ok,
{
}

/// A chain of parents that ends within some steps ends within more.
pub proof fn lemma_chain_ends_within_more(
    records: Seq<PipelineView>,
    i: int,
    steps: nat,
    more: nat,
)
    requires
        chain_ends(records, i, steps),
        steps <= more,
    ensures
        chain_ends(records, i, more),
    decreases steps,
{
    match records[i].parent_pipeline {
        Some(parent) => {
            lemma_chain_ends_within_more(
                records,
                parent.idx as int,
                (steps - 1) as nat,
                (more - 1) as nat,
            );
        },
        None => {},
    }
}

/// The chain of parents of a pipeline that went to the position `map[i]`
/// ends within as many steps, where every pipeline went to a later position
/// than its parent.
pub proof fn lemma_chain_by_position(records: Seq<PipelineView>, map: Map<usize, usize>, i: usize)
    requires
        permutes(map, records.len()),
        parents_first(records, map),
        i < records.len(),
    ensures
        chain_ends(records, i as int, map[i] as nat),
    decreases map[i],
{
    match records[i as int].parent_pipeline {
        Some(parent) => {
            assert(map.contains_key(i));
            assert(parent_before(records, map, i));
            lemma_chain_by_position(records, map, parent.idx);
            lemma_chain_ends_within_more(
                records,
                parent.idx as int,
                map[parent.idx] as nat,
                (map[i] - 1) as nat,
            );
        },
        None => {},
    }
}

/// Where every pipeline went to a later position than its parent, the chain
/// of parents of every pipeline ends.
pub proof fn lemma_parents_end(records: Seq<PipelineView>, map: Map<usize, usize>)
    requires
        records.len() <= usize::MAX,
        permutes(map, records.len()),
        parents_first(records, map),
    ensures
        forall|i: int| 0 <= i < records.len() ==> #[trigger] chain_ends(records, i, records.len()),
{
    assert forall|i: int| 0 <= i < records.len() implies #[trigger] chain_ends(
        records,
        i,
        records.len(),
    ) by {
        lemma_chain_by_position(records, map, i as usize);
        lemma_chain_ends_within_more(records, i, map[i as usize] as nat, records.len());
    }
}

/// Where every pipeline that is not migrated waits for a parent that is not
/// migrated either, no chain of parents of such a pipeline ends.
pub proof fn lemma_stuck(records: Seq<PipelineView>, map: Map<usize, usize>, steps: nat)
    requires
        forall|x: int|
            0 <= x < records.len() && !map.contains_key(x as usize) ==> !parent_ready(
                #[trigger] records[x],
                map,
            ),
    ensures
        forall|x: int|
            0 <= x < records.len() && !map.contains_key(x as usize) ==> !#[trigger] chain_ends(
                records,
                x,
                steps,
            ),
    decreases steps,
{
    if steps > 0 {
        lemma_stuck(records, map, (steps - 1) as nat);
    }
    assert forall|x: int|
        0 <= x < records.len() && !map.contains_key(x as usize) implies !#[trigger] chain_ends(
        records,
        x,
        steps,
    ) by {
        match records[x].parent_pipeline {
            None => {
                assert(parent_ready(records[x], map));
            },
            Some(parent) => {
                assert(!parent_ready(records[x], map));
                if steps > 0 && parent.idx < records.len() {
                    assert(!map.contains_key(parent.idx as int as usize));
                    assert(!chain_ends(records, parent.idx as int, (steps - 1) as nat));
                }
            },
        }
    }
}

/// A pipeline whose other references translate is translated once its
/// parent is.
pub proof fn lemma_ready_translates(v: PipelineView, start: IndexMapsView, maps: IndexMapsView)
    requires
        maps == (IndexMapsView { pipelines: maps.pipelines, ..start }),
        Pipeline::spec_translate(PipelineView { parent_pipeline: None, ..v }, start) is Ok,
        parent_ready(v, maps.pipelines),
    ensures
        Pipeline::spec_translate(v, maps) is Ok,
{
}

/// A translation of a pipeline stays what it is when another pipeline is
/// migrated.
pub proof fn lemma_pipeline_translation_stable(
    v: PipelineView,
    before: IndexMapsView,
    after: IndexMapsView,
    from: usize,
    to: usize,
)
    requires
        after == (IndexMapsView { pipelines: before.pipelines.insert(from, to), ..before }),
        !before.pipelines.contains_key(from),
        Pipeline::spec_translate(v, before) is Ok,
    ensures
        Pipeline::spec_translate(v, after) == Pipeline::spec_translate(v, before),
{
}

/// Whether the pipelines migrated so far are in order: `maps` holds source
/// positions only, `inverse` takes each sink position back to the source
/// position that went there, and every migrated pipeline stands translated
/// at its sink position.
#[verifier::opaque]
pub open spec fn placement(
    records: Seq<PipelineView>,
    sink: Seq<PipelineView>,
    maps: IndexMapsView,
    inverse: Seq<usize>,
) -> bool {
    &&& forall|x: usize| maps.pipelines.contains_key(x) ==> x < records.len()
    &&& inverse.len() == sink.len()
    &&& forall|j: int|
        0 <= j < inverse.len() ==> maps.pipelines.contains_key(#[trigger] inverse[j])
            && maps.pipelines[inverse[j]] == j
    &&& forall|x: usize|
        maps.pipelines.contains_key(x) ==> (#[trigger] maps.pipelines[x]) < inverse.len()
            && inverse[maps.pipelines[x] as int] == x
    &&& pipelines_placed(records, sink, maps)
    &&& parents_first(records, maps.pipelines)
}

/// Before anything is migrated, the placement is in order.
pub proof fn lemma_placement_start(records: Seq<PipelineView>, maps: IndexMapsView)
    requires
        maps.pipelines == Map::<usize, usize>::empty(),
    ensures
        placement(records, Seq::empty(), maps, Seq::empty()),
{
    reveal(placement);
}

/// What is in the translation is a source position.
pub proof fn lemma_placement_bounds(
    records: Seq<PipelineView>,
    sink: Seq<PipelineView>,
    maps: IndexMapsView,
    inverse: Seq<usize>,
)
    requires
        placement(records, sink, maps, inverse),
    ensures
        forall|x: usize| maps.pipelines.contains_key(x) ==> x < records.len(),
        pipelines_placed(records, sink, maps),
        parents_first(records, maps.pipelines),
{
    reveal(placement);
}

/// No pipeline of the sink has the key of a source pipeline that is not
/// migrated yet.
pub proof fn lemma_placement_fresh_key(
    records: Seq<PipelineView>,
    sink: Seq<PipelineView>,
    maps: IndexMapsView,
    inverse: Seq<usize>,
    i: usize,
    new_data: PipelineView,
)
    requires
        placement(records, sink, maps, inverse),
        keys_unique(records),
        i < records.len(),
        !maps.pipelines.contains_key(i),
        Pipeline::spec_translate(records[i as int], maps) == Ok::<PipelineView, MigrationErrorView>(
            new_data,
        ),
    ensures
        !holds_key(sink, new_data.key()),
        upsert(sink, new_data) == sink.push(new_data),
        find_key(sink, new_data.key()) is None,
{
    reveal(placement);
    Pipeline::lemma_translate_keeps_key(records[i as int], maps);
    if holds_key(sink, new_data.key()) {
        let w = choose|w: int| 0 <= w < sink.len() && #[trigger] sink[w].key() == new_data.key();
        let from = inverse[w];
        assert(maps.pipelines[from] == w);
        Pipeline::lemma_translate_keeps_key(records[from as int], maps);
        assert(records[from as int].key() != records[i as int].key());
    }
}

/// The placement stays in order when one more pipeline is migrated to the
/// end of the sink.
pub proof fn lemma_placement_step(
    records: Seq<PipelineView>,
    sink: Seq<PipelineView>,
    maps: IndexMapsView,
    inverse: Seq<usize>,
    i: usize,
    new_data: PipelineView,
)
    requires
        placement(records, sink, maps, inverse),
        i < records.len(),
        sink.len() < usize::MAX,
        !maps.pipelines.contains_key(i),
        Pipeline::spec_translate(records[i as int], maps) == Ok::<PipelineView, MigrationErrorView>(
            new_data,
        ),
    ensures
        placement(
            records,
            sink.push(new_data),
            IndexMapsView { pipelines: maps.pipelines.insert(i, sink.len() as usize), ..maps },
            inverse.push(i),
        ),
{
    reveal(placement);
    let to = sink.len() as usize;
    let after = IndexMapsView { pipelines: maps.pipelines.insert(i, to), ..maps };
    let new_sink = sink.push(new_data);
    let new_inverse = inverse.push(i);
    assert forall|x: usize| x < records.len() && after.pipelines.contains_key(x) implies (
    #[trigger] after.pipelines[x]) < new_sink.len() && Pipeline::spec_translate(
        records[x as int],
        after,
    ) == Ok::<PipelineView, MigrationErrorView>(new_sink[after.pipelines[x] as int]) by {
        if x != i {
            assert(maps.pipelines.contains_key(x));
            assert(maps.pipelines[x] < sink.len());
        }
        lemma_pipeline_translation_stable(records[x as int], maps, after, i, to);
    }
    assert forall|j: int| 0 <= j < new_inverse.len() implies after.pipelines.contains_key(
        #[trigger] new_inverse[j],
    ) && after.pipelines[new_inverse[j]] == j by {
        if j < inverse.len() {
            assert(maps.pipelines.contains_key(inverse[j]));
        }
    }
    assert forall|x: usize| after.pipelines.contains_key(x) implies (#[trigger] after.pipelines[x])
        < new_inverse.len() && new_inverse[after.pipelines[x] as int] == x by {
        if x != i {
            assert(maps.pipelines.contains_key(x));
            assert(maps.pipelines[x] < inverse.len());
        }
    }
    assert forall|k: usize|
        k < records.len() && after.pipelines.contains_key(k) implies #[trigger] parent_before(
        records,
        after.pipelines,
        k,
    ) by {
        if k != i {
            assert(maps.pipelines.contains_key(k));
            assert(parent_before(records, maps.pipelines, k));
        }
    }
}

/// Once every source position is migrated, the translation permutes the
/// positions.
pub proof fn lemma_placement_done(
    records: Seq<PipelineView>,
    sink: Seq<PipelineView>,
    maps: IndexMapsView,
    inverse: Seq<usize>,
)
    requires
        placement(records, sink, maps, inverse),
        sink.len() == records.len(),
        forall|k: usize| k < records.len() ==> maps.pipelines.contains_key(k),
    ensures
        permutes(maps.pipelines, records.len()),
        pipelines_placed(records, sink, maps),
        parents_first(records, maps.pipelines),
{
    reveal(placement);
    let n = records.len();
    assert forall|a: usize, b: usize| a < n && b < n && a != b implies #[trigger] maps.pipelines[a]
        != #[trigger] maps.pipelines[b] by {
        assert(inverse[maps.pipelines[a] as int] == a);
        assert(inverse[maps.pipelines[b] as int] == b);
    }
    assert forall|j: usize| j < n implies #[trigger] reaches(maps.pipelines, n, j) by {
        let k = inverse[j as int];
        assert(maps.pipelines.contains_key(k));
        assert(maps.pipelines[k] == j);
    }
}

/// Migrate the pipelines into a sink that has none. A pipeline is migrated
/// once its parent is; the source is gone through, in the order of the
/// indices, as often as that takes. A pass that migrates nothing ends the
/// migration: what is left hangs on parents that are never migrated.
pub fn migrate_pipelines(source: &VecLookup, sink: &mut VecLookup, maps: &mut IndexMaps) -> (r:
    Result<(), MigrationError>)
    requires
        old(maps)@.pipelines == Map::<usize, usize>::empty(),
        old(sink)@.pipelines.len() == 0,
        keys_unique(source@.pipelines),
    ensures
        final(maps)@ == (IndexMapsView { pipelines: final(maps)@.pipelines, ..old(maps)@ }),
        final(sink)@ == (VecLookupView { pipelines: final(sink)@.pipelines, ..old(sink)@ }),
        r is Ok ==> {
            &&& final(sink)@.pipelines.len() == source@.pipelines.len()
            &&& permutes(final(maps)@.pipelines, source@.pipelines.len())
            &&& pipelines_placed(source@.pipelines, final(sink)@.pipelines, final(maps)@)
            &&& parents_first(source@.pipelines, final(maps)@.pipelines)
        },
        r matches Err(e) ==> e@ is DanglingSourceIndex,
        pipelines_migrate(source@.pipelines, old(maps)@) ==> r is Ok,
{
    let all = source.pipelines();
    let n = all.len();
    let ghost records = source@.pipelines;
    let ghost start_maps = maps@;
    let ghost start_sink = sink@;
    let mut left: usize = n;
    let ghost mut todo: Set<usize> = below(n as nat);
    // For each sink position, the source position that it holds.
    let ghost mut inverse: Seq<usize> = Seq::empty();
    proof {
        lemma_below(n as nat);
        lemma_placement_start(records, maps@);
        assert(sink@.pipelines =~= Seq::empty());
        assert(sink@ == (VecLookupView { pipelines: sink@.pipelines, ..start_sink }));
        assert(maps@ == (IndexMapsView { pipelines: maps@.pipelines, ..start_maps }));
    }
    while left > 0
        invariant
            n == all@.len(),
            views(all@) == records,
            records == source@.pipelines,
            keys_unique(records),
            start_maps == old(maps)@,
            start_sink == old(sink)@,
            maps@ == (IndexMapsView { pipelines: maps@.pipelines, ..start_maps }),
            sink@ == (VecLookupView { pipelines: sink@.pipelines, ..start_sink }),
            todo.finite(),
            left == todo.len(),
            forall|x: usize| todo.contains(x) <==> x < n && !maps@.pipelines.contains_key(x),
            sink@.pipelines.len() + left == n,
            placement(records, sink@.pipelines, maps@, inverse),
        decreases left,
    {
        let before = left;
        let mut first_waiting: Option<VecIndex<Pipeline>> = None;
        let mut i: usize = 0;
        while i < n
            invariant
                i <= n,
                n == all@.len(),
                views(all@) == records,
                records == source@.pipelines,
                keys_unique(records),
                start_maps == old(maps)@,
                start_sink == old(sink)@,
                maps@ == (IndexMapsView { pipelines: maps@.pipelines, ..start_maps }),
                sink@ == (VecLookupView { pipelines: sink@.pipelines, ..start_sink }),
                todo.finite(),
                left == todo.len(),
                left <= before,
                forall|x: usize| todo.contains(x) <==> x < n && !maps@.pipelines.contains_key(x),
                sink@.pipelines.len() + left == n,
                placement(records, sink@.pipelines, maps@, inverse),
                // What the pass has seen so far.
                left == before ==> forall|x: int|
                    0 <= x < i && !maps@.pipelines.contains_key(x as usize) ==> !parent_ready(
                        #[trigger] records[x],
                        maps@.pipelines,
                    ),
                left == before && first_waiting is None ==> forall|x: usize|
                    x < i ==> maps@.pipelines.contains_key(x),
            decreases n - i,
        {
            let idx: VecIndex<Pipeline> = VecIndex::new(i);
            if !maps.pipelines.contains_key(&idx) {
                let data = match get_data::<Pipeline>(source, &idx) {
                    Ok(data) => data,
                    Err(e) => {
                        assert(false);
                        return Err(e);
                    },
                };
                let ready = match &data.parent_pipeline {
                    Some(parent) => maps.pipelines.contains_key(parent),
                    None => true,
                };
                if ready {
                    let new_data = match data.translate(maps) {
                        Ok(new_data) => new_data,
                        Err(e) => {
                            proof {
                                if pipelines_migrate(records, start_maps) {
                                    lemma_ready_translates(records[i as int], start_maps, maps@);
                                }
                            }
                            return Err(e);
                        },
                    };
                    let ghost old_maps = maps@;
                    let ghost old_sink = sink@.pipelines;
                    proof {
                        assert(todo.contains(i));
                        assert(left > 0);
                        lemma_placement_fresh_key(
                            records,
                            old_sink,
                            old_maps,
                            inverse,
                            i,
                            new_data@,
                        );
                        lemma_placement_step(records, old_sink, old_maps, inverse, i, new_data@);
                    }
                    let new_index = sink.store_pipeline(new_data);
                    maps.pipelines.insert(idx, new_index);
                    proof {
                        todo = todo.remove(i);
                        inverse = inverse.push(i);
                    }
                    left = left - 1;
                } else {
                    if first_waiting.is_none() {
                        first_waiting = data.parent_pipeline;
                    }
                }
            }
            i += 1;
        }
        if left == before {
            proof {
                lemma_placement_bounds(records, sink@.pipelines, maps@, inverse);
                // Something is left, and whatever is left waits for its parent.
                if first_waiting is None {
                    assert(todo =~= Set::<usize>::empty());
                    assert(false);
                }
                if pipelines_migrate(records, start_maps) {
                    lemma_stuck(records, maps@.pipelines, n as nat);
                    let x = todo.choose();
                    assert(todo.contains(x));
                    assert(chain_ends(records, x as int, records.len()));
                }
            }
            return match first_waiting {
                Some(parent) => Err(MigrationError::dangling_source_index::<Pipeline>(&parent)),
                // Nothing waits only once nothing is left.
                None => Ok(()),
            };
        }
    }
    proof {
        todo.lemma_len0_is_empty();
        assert forall|k: usize| k < n implies maps@.pipelines.contains_key(k) by {
            if !maps@.pipelines.contains_key(k) {
                assert(todo.contains(k));
            }
        }
        lemma_placement_bounds(records, sink@.pipelines, maps@, inverse);
        lemma_placement_done(records, sink@.pipelines, maps@, inverse);
    }
    Ok(())
}

/// Whether `map` holds the positions below `n`, and no others.
pub open spec fn covers(map: Map<usize, usize>, n: nat) -> bool {
    forall|k: usize| map.contains_key(k) <==> k < n
}

/// Indices below `n` translate where the translation holds the positions
/// below `n`.
pub proof fn lemma_translated_all_covered<T: Typename>(
    map: Map<usize, usize>,
    n: nat,
    s: Seq<VecIndex<T>>,
)
    requires
        covers(map, n),
        forall|k: int| 0 <= k < s.len() ==> (#[trigger] s[k]).idx < n,
    ensures
        translated_all::<T>(map, s) is Ok,
    decreases s.len(),
{
    if s.len() > 0 {
        assert forall|k: int| 0 <= k < s.drop_last().len() implies (#[trigger] s.drop_last()[k]).idx < n by {
            assert(s.drop_last()[k] == s[k]);
        }
        lemma_translated_all_covered::<T>(map, n, s.drop_last());
        assert(s.last() == s[s.len() - 1]);
    }
}

/// Records that each translate, translate as a sequence.
pub proof fn lemma_translations_ok<T: Migrated>(s: Seq<T::V>, maps: IndexMapsView)
    requires
        forall|i: int| 0 <= i < s.len() ==> T::spec_translate(#[trigger] s[i], maps) is Ok,
    ensures
        translations::<T>(s, maps) is Ok,
    decreases s.len(),
{
    if s.len() > 0 {
        assert forall|i: int| 0 <= i < s.drop_last().len() implies T::spec_translate(
            #[trigger] s.drop_last()[i],
            maps,
        ) is Ok by {
            assert(s.drop_last()[i] == s[i]);
        }
        lemma_translations_ok::<T>(s.drop_last(), maps);
        assert(s.last() == s[s.len() - 1]);
    }
}

/// The translation of an instance looks at the translations of what it refers to,
/// and at no others.
pub proof fn lemma_instance_translation_local(v: InstanceView, a: IndexMapsView, b: IndexMapsView)
    ensures
        Instance::spec_translate(v, a) == Instance::spec_translate(v, b),
{
}

/// An instance whose references are within the counts translates where the
/// translations hold the positions below the counts.
pub proof fn lemma_instance_translates(v: InstanceView, maps: IndexMapsView, counts: Counts)
    requires
        v.refs_within(counts),
    ensures
        Instance::spec_translate(v, maps) is Ok,
{
}

/// The translation of a runner host looks at the translations of what it refers to,
/// and at no others.
pub proof fn lemma_runner_host_translation_local(
    v: RunnerHostView,
    a: IndexMapsView,
    b: IndexMapsView,
)
    ensures
        RunnerHost::spec_translate(v, a) == RunnerHost::spec_translate(v, b),
{
}

/// A runner host whose references are within the counts translates where the
/// translations hold the positions below the counts.
pub proof fn lemma_runner_host_translates(v: RunnerHostView, maps: IndexMapsView, counts: Counts)
    requires
        v.refs_within(counts),
    ensures
        RunnerHost::spec_translate(v, maps) is Ok,
{
}

/// The translation of an user looks at the translations of what it refers to,
/// and at no others.
pub proof fn lemma_user_translation_local(v: UserView, a: IndexMapsView, b: IndexMapsView)
    requires
        a.instances == b.instances,
    ensures
        User::spec_translate(v, a) == User::spec_translate(v, b),
{
}

/// An user whose references are within the counts translates where the
/// translations hold the positions below the counts.
pub proof fn lemma_user_translates(v: UserView, maps: IndexMapsView, counts: Counts)
    requires
        v.refs_within(counts),
        covers(maps.instances, counts.instances as nat),
    ensures
        User::spec_translate(v, maps) is Ok,
{
}

/// The translation of a project looks at the translations of what it refers to,
/// and at no others.
pub proof fn lemma_project_translation_local(v: ProjectView, a: IndexMapsView, b: IndexMapsView)
    requires
        a.instances == b.instances,
    ensures
        Project::spec_translate(v, a) == Project::spec_translate(v, b),
{
}

/// A project whose references are within the counts translates where the
/// translations hold the positions below the counts.
pub proof fn lemma_project_translates(v: ProjectView, maps: IndexMapsView, counts: Counts)
    requires
        v.refs_within(counts),
        covers(maps.instances, counts.instances as nat),
    ensures
        Project::spec_translate(v, maps) is Ok,
{
}

/// The translation of a runner looks at the translations of what it refers to,
/// and at no others.
pub proof fn lemma_runner_translation_local(v: RunnerView, a: IndexMapsView, b: IndexMapsView)
    requires
        a.instances == b.instances,
        a.projects == b.projects,
        a.runner_hosts == b.runner_hosts,
    ensures
        Runner::spec_translate(v, a) == Runner::spec_translate(v, b),
{
}

/// A runner whose references are within the counts translates where the
/// translations hold the positions below the counts.
pub proof fn lemma_runner_translates(v: RunnerView, maps: IndexMapsView, counts: Counts)
    requires
        v.refs_within(counts),
        covers(maps.instances, counts.instances as nat),
        covers(maps.projects, counts.projects as nat),
        covers(maps.runner_hosts, counts.runner_hosts as nat),
    ensures
        Runner::spec_translate(v, maps) is Ok,
{
    lemma_translated_all_covered::<Project>(maps.projects, counts.projects as nat, v.projects);
}

/// The translation of a merge request looks at the translations of what it refers to,
/// and at no others.
pub proof fn lemma_merge_request_translation_local(
    v: MergeRequestView,
    a: IndexMapsView,
    b: IndexMapsView,
)
    requires
        a.projects == b.projects,
        a.users == b.users,
    ensures
        MergeRequest::spec_translate(v, a) == MergeRequest::spec_translate(v, b),
{
}

/// A merge request whose references are within the counts translates where the
/// translations hold the positions below the counts.
pub proof fn lemma_merge_request_translates(
    v: MergeRequestView,
    maps: IndexMapsView,
    counts: Counts,
)
    requires
        v.refs_within(counts),
        covers(maps.projects, counts.projects as nat),
        covers(maps.users, counts.users as nat),
    ensures
        MergeRequest::spec_translate(v, maps) is Ok,
{
}

/// The translation of a pipeline schedule looks at the translations of what it refers to,
/// and at no others.
pub proof fn lemma_pipeline_schedule_translation_local(
    v: PipelineScheduleView,
    a: IndexMapsView,
    b: IndexMapsView,
)
    requires
        a.projects == b.projects,
        a.users == b.users,
    ensures
        PipelineSchedule::spec_translate(v, a) == PipelineSchedule::spec_translate(v, b),
{
}

/// A pipeline schedule whose references are within the counts translates where the
/// translations hold the positions below the counts.
pub proof fn lemma_pipeline_schedule_translates(
    v: PipelineScheduleView,
    maps: IndexMapsView,
    counts: Counts,
)
    requires
        v.refs_within(counts),
        covers(maps.projects, counts.projects as nat),
        covers(maps.users, counts.users as nat),
    ensures
        PipelineSchedule::spec_translate(v, maps) is Ok,
{
}

/// The translation of a pipeline looks at the translations of what it refers to,
/// and at no others.
pub proof fn lemma_pipeline_translation_local(v: PipelineView, a: IndexMapsView, b: IndexMapsView)
    requires
        a.projects == b.projects,
        a.pipeline_schedules == b.pipeline_schedules,
        a.pipelines == b.pipelines,
        a.merge_requests == b.merge_requests,
        a.users == b.users,
    ensures
        Pipeline::spec_translate(v, a) == Pipeline::spec_translate(v, b),
{
}

/// The translation of an environment looks at the translations of what it refers to,
/// and at no others.
pub proof fn lemma_environment_translation_local(
    v: EnvironmentView,
    a: IndexMapsView,
    b: IndexMapsView,
)
    requires
        a.projects == b.projects,
    ensures
        Environment::spec_translate(v, a) == Environment::spec_translate(v, b),
{
}

/// An environment whose references are within the counts translates where the
/// translations hold the positions below the counts.
pub proof fn lemma_environment_translates(v: EnvironmentView, maps: IndexMapsView, counts: Counts)
    requires
        v.refs_within(counts),
        covers(maps.projects, counts.projects as nat),
    ensures
        Environment::spec_translate(v, maps) is Ok,
{
}

/// The translation of a deployment looks at the translations of what it refers to,
/// and at no others.
pub proof fn lemma_deployment_translation_local(
    v: DeploymentView,
    a: IndexMapsView,
    b: IndexMapsView,
)
    requires
        a.pipelines == b.pipelines,
        a.environments == b.environments,
    ensures
        Deployment::spec_translate(v, a) == Deployment::spec_translate(v, b),
{
}

/// A deployment whose references are within the counts translates where the
/// translations hold the positions below the counts.
pub proof fn lemma_deployment_translates(v: DeploymentView, maps: IndexMapsView, counts: Counts)
    requires
        v.refs_within(counts),
        covers(maps.pipelines, counts.pipelines as nat),
        covers(maps.environments, counts.environments as nat),
    ensures
        Deployment::spec_translate(v, maps) is Ok,
{
}

/// The translation of a job looks at the translations of what it refers to,
/// and at no others.
pub proof fn lemma_job_translation_local(v: JobView, a: IndexMapsView, b: IndexMapsView)
    requires
        a.users == b.users,
        a.pipelines == b.pipelines,
        a.runners == b.runners,
        a.deployments == b.deployments,
    ensures
        Job::spec_translate(v, a) == Job::spec_translate(v, b),
{
}

/// A job whose references are within the counts translates where the
/// translations hold the positions below the counts.
pub proof fn lemma_job_translates(v: JobView, maps: IndexMapsView, counts: Counts)
    requires
        v.refs_within(counts),
        covers(maps.users, counts.users as nat),
        covers(maps.pipelines, counts.pipelines as nat),
        covers(maps.runners, counts.runners as nat),
        covers(maps.deployments, counts.deployments as nat),
    ensures
        Job::spec_translate(v, maps) is Ok,
{
}

/// The translation of a job artifact looks at the translations of what it refers to,
/// and at no others.
pub proof fn lemma_job_artifact_translation_local(
    v: JobArtifactView,
    a: IndexMapsView,
    b: IndexMapsView,
)
    requires
        a.jobs == b.jobs,
    ensures
        JobArtifact::spec_translate(v, a) == JobArtifact::spec_translate(v, b),
{
}

/// A job artifact whose references are within the counts translates where the
/// translations hold the positions below the counts.
pub proof fn lemma_job_artifact_translates(v: JobArtifactView, maps: IndexMapsView, counts: Counts)
    requires
        v.refs_within(counts),
        covers(maps.jobs, counts.jobs as nat),
    ensures
        JobArtifact::spec_translate(v, maps) is Ok,
{
}

/// Whether `map` takes what it holds to positions below `n`.
pub open spec fn lands_below(map: Map<usize, usize>, n: nat) -> bool {
    forall|k: usize| map.contains_key(k) ==> (#[trigger] map[k]) < n
}

/// Translated indices are below `n` where the translation takes what it
/// holds to positions below `n`.
pub proof fn lemma_translated_all_lands<T: Typename>(
    map: Map<usize, usize>,
    n: nat,
    s: Seq<VecIndex<T>>,
)
    requires
        lands_below(map, n),
    ensures
        translated_all::<T>(map, s) matches Ok(to) ==> to.len() == s.len() && forall|k: int|
            0 <= k < to.len() ==> (#[trigger] to[k]).idx < n,
    decreases s.len(),
{
    if s.len() > 0 {
        lemma_translated_all_lands::<T>(map, n, s.drop_last());
    }
}

/// A translated instance has its references within the counts that the
/// translations land below, and its stamps are as they were.
pub proof fn lemma_instance_translated_sound(
    v: InstanceView,
    to: InstanceView,
    maps: IndexMapsView,
    counts: Counts,
)
    requires
        Instance::spec_translate(v, maps) == Ok::<InstanceView, MigrationErrorView>(to),
    ensures
        to.refs_within(counts),
        to.in_order() == v.in_order(),
        to.key() == v.key(),
{
}

/// A translated runner host has its references within the counts that the
/// translations land below, and its stamps are as they were.
pub proof fn lemma_runner_host_translated_sound(
    v: RunnerHostView,
    to: RunnerHostView,
    maps: IndexMapsView,
    counts: Counts,
)
    requires
        RunnerHost::spec_translate(v, maps) == Ok::<RunnerHostView, MigrationErrorView>(to),
    ensures
        to.refs_within(counts),
        to.in_order() == v.in_order(),
        to.key() == v.key(),
{
}

/// A translated user has its references within the counts that the
/// translations land below, and its stamps are as they were.
pub proof fn lemma_user_translated_sound(
    v: UserView,
    to: UserView,
    maps: IndexMapsView,
    counts: Counts,
)
    requires
        User::spec_translate(v, maps) == Ok::<UserView, MigrationErrorView>(to),
        lands_below(maps.instances, counts.instances as nat),
    ensures
        to.refs_within(counts),
        to.in_order() == v.in_order(),
        to.key() == v.key(),
{
}

/// A translated project has its references within the counts that the
/// translations land below, and its stamps are as they were.
pub proof fn lemma_project_translated_sound(
    v: ProjectView,
    to: ProjectView,
    maps: IndexMapsView,
    counts: Counts,
)
    requires
        Project::spec_translate(v, maps) == Ok::<ProjectView, MigrationErrorView>(to),
        lands_below(maps.instances, counts.instances as nat),
    ensures
        to.refs_within(counts),
        to.in_order() == v.in_order(),
        to.key() == v.key(),
{
}

/// A translated runner has its references within the counts that the
/// translations land below, and its stamps are as they were.
pub proof fn lemma_runner_translated_sound(
    v: RunnerView,
    to: RunnerView,
    maps: IndexMapsView,
    counts: Counts,
)
    requires
        Runner::spec_translate(v, maps) == Ok::<RunnerView, MigrationErrorView>(to),
        lands_below(maps.instances, counts.instances as nat),
        lands_below(maps.projects, counts.projects as nat),
        lands_below(maps.runner_hosts, counts.runner_hosts as nat),
    ensures
        to.refs_within(counts),
        to.in_order() == v.in_order(),
        to.key() == v.key(),
{
    lemma_translated_all_lands::<Project>(maps.projects, counts.projects as nat, v.projects);
}

/// A translated merge request has its references within the counts that the
/// translations land below, and its stamps are as they were.
pub proof fn lemma_merge_request_translated_sound(
    v: MergeRequestView,
    to: MergeRequestView,
    maps: IndexMapsView,
    counts: Counts,
)
    requires
        MergeRequest::spec_translate(v, maps) == Ok::<MergeRequestView, MigrationErrorView>(to),
        lands_below(maps.projects, counts.projects as nat),
        lands_below(maps.users, counts.users as nat),
    ensures
        to.refs_within(counts),
        to.in_order() == v.in_order(),
        to.key() == v.key(),
{
}

/// A translated pipeline schedule has its references within the counts that the
/// translations land below, and its stamps are as they were.
pub proof fn lemma_pipeline_schedule_translated_sound(
    v: PipelineScheduleView,
    to: PipelineScheduleView,
    maps: IndexMapsView,
    counts: Counts,
)
    requires
        PipelineSchedule::spec_translate(v, maps) == Ok::<PipelineScheduleView, MigrationErrorView>(to),
        lands_below(maps.projects, counts.projects as nat),
        lands_below(maps.users, counts.users as nat),
    ensures
        to.refs_within(counts),
        to.in_order() == v.in_order(),
        to.key() == v.key(),
{
}

/// A translated pipeline has its references within the counts that the
/// translations land below, and its stamps are as they were.
pub proof fn lemma_pipeline_translated_sound(
    v: PipelineView,
    to: PipelineView,
    maps: IndexMapsView,
    counts: Counts,
)
    requires
        Pipeline::spec_translate(v, maps) == Ok::<PipelineView, MigrationErrorView>(to),
        lands_below(maps.projects, counts.projects as nat),
        lands_below(maps.pipeline_schedules, counts.pipeline_schedules as nat),
        lands_below(maps.pipelines, counts.pipelines as nat),
        lands_below(maps.merge_requests, counts.merge_requests as nat),
        lands_below(maps.users, counts.users as nat),
    ensures
        to.refs_within(counts),
        to.in_order() == v.in_order(),
        to.key() == v.key(),
{
}

/// A translated environment has its references within the counts that the
/// translations land below, and its stamps are as they were.
pub proof fn lemma_environment_translated_sound(
    v: EnvironmentView,
    to: EnvironmentView,
    maps: IndexMapsView,
    counts: Counts,
)
    requires
        Environment::spec_translate(v, maps) == Ok::<EnvironmentView, MigrationErrorView>(to),
        lands_below(maps.projects, counts.projects as nat),
    ensures
        to.refs_within(counts),
        to.in_order() == v.in_order(),
        to.key() == v.key(),
{
}

/// A translated deployment has its references within the counts that the
/// translations land below, and its stamps are as they were.
pub proof fn lemma_deployment_translated_sound(
    v: DeploymentView,
    to: DeploymentView,
    maps: IndexMapsView,
    counts: Counts,
)
    requires
        Deployment::spec_translate(v, maps) == Ok::<DeploymentView, MigrationErrorView>(to),
        lands_below(maps.pipelines, counts.pipelines as nat),
        lands_below(maps.environments, counts.environments as nat),
    ensures
        to.refs_within(counts),
        to.in_order() == v.in_order(),
        to.key() == v.key(),
{
}

/// A translated job has its references within the counts that the
/// translations land below, and its stamps are as they were.
pub proof fn lemma_job_translated_sound(
    v: JobView,
    to: JobView,
    maps: IndexMapsView,
    counts: Counts,
)
    requires
        Job::spec_translate(v, maps) == Ok::<JobView, MigrationErrorView>(to),
        lands_below(maps.users, counts.users as nat),
        lands_below(maps.pipelines, counts.pipelines as nat),
        lands_below(maps.runners, counts.runners as nat),
        lands_below(maps.deployments, counts.deployments as nat),
    ensures
        to.refs_within(counts),
        to.in_order() == v.in_order(),
        to.key() == v.key(),
{
}

/// A translated job artifact has its references within the counts that the
/// translations land below, and its stamps are as they were.
pub proof fn lemma_job_artifact_translated_sound(
    v: JobArtifactView,
    to: JobArtifactView,
    maps: IndexMapsView,
    counts: Counts,
)
    requires
        JobArtifact::spec_translate(v, maps) == Ok::<JobArtifactView, MigrationErrorView>(to),
        lands_below(maps.jobs, counts.jobs as nat),
    ensures
        to.refs_within(counts),
        to.in_order() == v.in_order(),
        to.key() == v.key(),
{
}

/// Indices that translate are below `n` where the translation holds the
/// positions below `n` only.
pub proof fn lemma_translated_all_within<T: Typename>(
    map: Map<usize, usize>,
    n: nat,
    s: Seq<VecIndex<T>>,
)
    requires
        covers(map, n),
        translated_all::<T>(map, s) is Ok,
    ensures
        forall|k: int| 0 <= k < s.len() ==> (#[trigger] s[k]).idx < n,
    decreases s.len(),
{
    if s.len() > 0 {
        lemma_translated_all_within::<T>(map, n, s.drop_last());
        assert forall|k: int| 0 <= k < s.len() implies (#[trigger] s[k]).idx < n by {
            if k < s.len() - 1 {
                assert(s.drop_last()[k] == s[k]);
            } else {
                assert(s.last() == s[k]);
            }
        }
    }
}

/// An instance that translates has its references within the counts, where
/// the translations hold the positions below the counts only.
pub proof fn lemma_instance_translated_within(v: InstanceView, maps: IndexMapsView, counts: Counts)
    requires
        Instance::spec_translate(v, maps) is Ok,
    ensures
        v.refs_within(counts),
{
}

/// A runner host that translates has its references within the counts, where
/// the translations hold the positions below the counts only.
pub proof fn lemma_runner_host_translated_within(
    v: RunnerHostView,
    maps: IndexMapsView,
    counts: Counts,
)
    requires
        RunnerHost::spec_translate(v, maps) is Ok,
    ensures
        v.refs_within(counts),
{
}

/// An user that translates has its references within the counts, where
/// the translations hold the positions below the counts only.
pub proof fn lemma_user_translated_within(v: UserView, maps: IndexMapsView, counts: Counts)
    requires
        User::spec_translate(v, maps) is Ok,
        covers(maps.instances, counts.instances as nat),
    ensures
        v.refs_within(counts),
{
}

/// A project that translates has its references within the counts, where
/// the translations hold the positions below the counts only.
pub proof fn lemma_project_translated_within(v: ProjectView, maps: IndexMapsView, counts: Counts)
    requires
        Project::spec_translate(v, maps) is Ok,
        covers(maps.instances, counts.instances as nat),
    ensures
        v.refs_within(counts),
{
}

/// A runner that translates has its references within the counts, where
/// the translations hold the positions below the counts only.
pub proof fn lemma_runner_translated_within(v: RunnerView, maps: IndexMapsView, counts: Counts)
    requires
        Runner::spec_translate(v, maps) is Ok,
        covers(maps.instances, counts.instances as nat),
        covers(maps.projects, counts.projects as nat),
        covers(maps.runner_hosts, counts.runner_hosts as nat),
    ensures
        v.refs_within(counts),
{
    lemma_translated_all_within::<Project>(maps.projects, counts.projects as nat, v.projects);
}

/// A merge request that translates has its references within the counts, where
/// the translations hold the positions below the counts only.
pub proof fn lemma_merge_request_translated_within(
    v: MergeRequestView,
    maps: IndexMapsView,
    counts: Counts,
)
    requires
        MergeRequest::spec_translate(v, maps) is Ok,
        covers(maps.projects, counts.projects as nat),
        covers(maps.users, counts.users as nat),
    ensures
        v.refs_within(counts),
{
}

/// A pipeline schedule that translates has its references within the counts, where
/// the translations hold the positions below the counts only.
pub proof fn lemma_pipeline_schedule_translated_within(
    v: PipelineScheduleView,
    maps: IndexMapsView,
    counts: Counts,
)
    requires
        PipelineSchedule::spec_translate(v, maps) is Ok,
        covers(maps.projects, counts.projects as nat),
        covers(maps.users, counts.users as nat),
    ensures
        v.refs_within(counts),
{
}

/// A pipeline that translates has its references within the counts, where
/// the translations hold the positions below the counts only.
pub proof fn lemma_pipeline_translated_within(v: PipelineView, maps: IndexMapsView, counts: Counts)
    requires
        Pipeline::spec_translate(v, maps) is Ok,
        covers(maps.projects, counts.projects as nat),
        covers(maps.pipeline_schedules, counts.pipeline_schedules as nat),
        covers(maps.pipelines, counts.pipelines as nat),
        covers(maps.merge_requests, counts.merge_requests as nat),
        covers(maps.users, counts.users as nat),
    ensures
        v.refs_within(counts),
{
}

/// An environment that translates has its references within the counts, where
/// the translations hold the positions below the counts only.
pub proof fn lemma_environment_translated_within(
    v: EnvironmentView,
    maps: IndexMapsView,
    counts: Counts,
)
    requires
        Environment::spec_translate(v, maps) is Ok,
        covers(maps.projects, counts.projects as nat),
    ensures
        v.refs_within(counts),
{
}

/// A deployment that translates has its references within the counts, where
/// the translations hold the positions below the counts only.
pub proof fn lemma_deployment_translated_within(
    v: DeploymentView,
    maps: IndexMapsView,
    counts: Counts,
)
    requires
        Deployment::spec_translate(v, maps) is Ok,
        covers(maps.pipelines, counts.pipelines as nat),
        covers(maps.environments, counts.environments as nat),
    ensures
        v.refs_within(counts),
{
}

/// A job that translates has its references within the counts, where
/// the translations hold the positions below the counts only.
pub proof fn lemma_job_translated_within(v: JobView, maps: IndexMapsView, counts: Counts)
    requires
        Job::spec_translate(v, maps) is Ok,
        covers(maps.users, counts.users as nat),
        covers(maps.pipelines, counts.pipelines as nat),
        covers(maps.runners, counts.runners as nat),
        covers(maps.deployments, counts.deployments as nat),
    ensures
        v.refs_within(counts),
{
}

/// A job artifact that translates has its references within the counts, where
/// the translations hold the positions below the counts only.
pub proof fn lemma_job_artifact_translated_within(
    v: JobArtifactView,
    maps: IndexMapsView,
    counts: Counts,
)
    requires
        JobArtifact::spec_translate(v, maps) is Ok,
        covers(maps.jobs, counts.jobs as nat),
    ensures
        v.refs_within(counts),
{
}

/// Whether `sink` is `source` migrated with the translations `maps`: the
/// records of every type but the pipelines stand in the order of the source,
/// each with its references translated; the pipelines stand where `maps`
/// put them, which permutes their positions.
pub open spec fn store_migrated(
    source: VecLookupView,
    sink: VecLookupView,
    maps: IndexMapsView,
) -> bool {
    &&& maps.instances == identity(source.instances.len())
    &&& translations::<Instance>(source.instances, maps) == Ok::<
        Seq<InstanceView>,
        MigrationErrorView,
    >(sink.instances)
    &&& maps.runner_hosts == identity(source.runner_hosts.len())
    &&& translations::<RunnerHost>(source.runner_hosts, maps) == Ok::<
        Seq<RunnerHostView>,
        MigrationErrorView,
    >(sink.runner_hosts)
    &&& maps.users == identity(source.users.len())
    &&& translations::<User>(source.users, maps) == Ok::<
        Seq<UserView>,
        MigrationErrorView,
    >(sink.users)
    &&& maps.projects == identity(source.projects.len())
    &&& translations::<Project>(source.projects, maps) == Ok::<
        Seq<ProjectView>,
        MigrationErrorView,
    >(sink.projects)
    &&& maps.runners == identity(source.runners.len())
    &&& translations::<Runner>(source.runners, maps) == Ok::<
        Seq<RunnerView>,
        MigrationErrorView,
    >(sink.runners)
    &&& maps.merge_requests == identity(source.merge_requests.len())
    &&& translations::<MergeRequest>(source.merge_requests, maps) == Ok::<
        Seq<MergeRequestView>,
        MigrationErrorView,
    >(sink.merge_requests)
    &&& maps.pipeline_schedules == identity(source.pipeline_schedules.len())
    &&& translations::<PipelineSchedule>(source.pipeline_schedules, maps) == Ok::<
        Seq<PipelineScheduleView>,
        MigrationErrorView,
    >(sink.pipeline_schedules)
    &&& permutes(maps.pipelines, source.pipelines.len())
    &&& sink.pipelines.len() == source.pipelines.len()
    &&& pipelines_placed(source.pipelines, sink.pipelines, maps)
    &&& parents_first(source.pipelines, maps.pipelines)
    &&& maps.environments == identity(source.environments.len())
    &&& translations::<Environment>(source.environments, maps) == Ok::<
        Seq<EnvironmentView>,
        MigrationErrorView,
    >(sink.environments)
    &&& maps.deployments == identity(source.deployments.len())
    &&& translations::<Deployment>(source.deployments, maps) == Ok::<
        Seq<DeploymentView>,
        MigrationErrorView,
    >(sink.deployments)
    &&& maps.jobs == identity(source.jobs.len())
    &&& translations::<Job>(source.jobs, maps) == Ok::<
        Seq<JobView>,
        MigrationErrorView,
    >(sink.jobs)
    &&& maps.job_artifacts == identity(source.job_artifacts.len())
    &&& translations::<JobArtifact>(source.job_artifacts, maps) == Ok::<
        Seq<JobArtifactView>,
        MigrationErrorView,
    >(sink.job_artifacts)
}

/// Whether the chain of parents of every pipeline ends: every parent is a
/// pipeline of the store, and no pipeline is its own ancestor.
pub open spec fn parents_end(pipelines: Seq<PipelineView>) -> bool {
    forall|i: int| 0 <= i < pipelines.len() ==> #[trigger] chain_ends(pipelines, i, pipelines.len())
}

/// A migrated store has as many records of each type as its source.
pub proof fn lemma_migration_keeps_counts(
    source: VecLookupView,
    sink: VecLookupView,
    maps: IndexMapsView,
)
    requires
        store_migrated(source, sink, maps),
    ensures
        sink.counts() == source.counts(),
{
    lemma_translations::<Instance>(source.instances, maps);
    lemma_translations::<RunnerHost>(source.runner_hosts, maps);
    lemma_translations::<User>(source.users, maps);
    lemma_translations::<Project>(source.projects, maps);
    lemma_translations::<Runner>(source.runners, maps);
    lemma_translations::<MergeRequest>(source.merge_requests, maps);
    lemma_translations::<PipelineSchedule>(source.pipeline_schedules, maps);
    lemma_translations::<Environment>(source.environments, maps);
    lemma_translations::<Deployment>(source.deployments, maps);
    lemma_translations::<Job>(source.jobs, maps);
    lemma_translations::<JobArtifact>(source.job_artifacts, maps);
}

/// A migrated store is in order: every reference names a record, no two
/// records of a type have the same identity key where none of the source
/// have, and the stamps are in order where those of the source are.
pub proof fn lemma_migrated_store_sound(
    source: VecLookupView,
    sink: VecLookupView,
    maps: IndexMapsView,
)
    requires
        store_migrated(source, sink, maps),
        source.fits(),
    ensures
        sink.refs_valid(),
        source.ids_unique() ==> sink.ids_unique(),
        source.stamps_ordered() ==> sink.stamps_ordered(),
{
    lemma_migration_keeps_counts(source, sink, maps);
    let counts = sink.counts();
    lemma_translations::<Instance>(source.instances, maps);
    assert forall|i: int| 0 <= i < sink.instances.len() implies (
    #[trigger] sink.instances[i]).refs_within(counts) && (source.stamps_ordered()
        ==> sink.instances[i].in_order()) && sink.instances[i].key()
        == source.instances[i].key() by {
        lemma_instance_translated_sound(
            source.instances[i],
            sink.instances[i],
            maps,
            counts,
        );
        assert(source.stamps_ordered() ==> source.instances[i].in_order());
    }
    if source.ids_unique() {
        assert forall|a: int, b: int| 0 <= a < b < sink.instances.len() implies
            #[trigger] sink.instances[a].key() != #[trigger] sink.instances[b].key() by {
            assert(source.instances[a].key() != source.instances[b].key());
        }
    }
    lemma_translations::<RunnerHost>(source.runner_hosts, maps);
    assert forall|i: int| 0 <= i < sink.runner_hosts.len() implies (
    #[trigger] sink.runner_hosts[i]).refs_within(counts) && (source.stamps_ordered()
        ==> sink.runner_hosts[i].in_order()) && sink.runner_hosts[i].key()
        == source.runner_hosts[i].key() by {
        lemma_runner_host_translated_sound(
            source.runner_hosts[i],
            sink.runner_hosts[i],
            maps,
            counts,
        );
        assert(source.stamps_ordered() ==> source.runner_hosts[i].in_order());
    }
    if source.ids_unique() {
        assert forall|a: int, b: int| 0 <= a < b < sink.runner_hosts.len() implies
            #[trigger] sink.runner_hosts[a].key() != #[trigger] sink.runner_hosts[b].key() by {
            assert(source.runner_hosts[a].key() != source.runner_hosts[b].key());
        }
    }
    lemma_translations::<User>(source.users, maps);
    assert forall|i: int| 0 <= i < sink.users.len() implies (
    #[trigger] sink.users[i]).refs_within(counts) && (source.stamps_ordered()
        ==> sink.users[i].in_order()) && sink.users[i].key()
        == source.users[i].key() by {
        lemma_user_translated_sound(
            source.users[i],
            sink.users[i],
            maps,
            counts,
        );
        assert(source.stamps_ordered() ==> source.users[i].in_order());
    }
    if source.ids_unique() {
        assert forall|a: int, b: int| 0 <= a < b < sink.users.len() implies
            #[trigger] sink.users[a].key() != #[trigger] sink.users[b].key() by {
            assert(source.users[a].key() != source.users[b].key());
        }
    }
    lemma_translations::<Project>(source.projects, maps);
    assert forall|i: int| 0 <= i < sink.projects.len() implies (
    #[trigger] sink.projects[i]).refs_within(counts) && (source.stamps_ordered()
        ==> sink.projects[i].in_order()) && sink.projects[i].key()
        == source.projects[i].key() by {
        lemma_project_translated_sound(
            source.projects[i],
            sink.projects[i],
            maps,
            counts,
        );
        assert(source.stamps_ordered() ==> source.projects[i].in_order());
    }
    if source.ids_unique() {
        assert forall|a: int, b: int| 0 <= a < b < sink.projects.len() implies
            #[trigger] sink.projects[a].key() != #[trigger] sink.projects[b].key() by {
            assert(source.projects[a].key() != source.projects[b].key());
        }
    }
    lemma_translations::<Runner>(source.runners, maps);
    assert forall|i: int| 0 <= i < sink.runners.len() implies (
    #[trigger] sink.runners[i]).refs_within(counts) && (source.stamps_ordered()
        ==> sink.runners[i].in_order()) && sink.runners[i].key()
        == source.runners[i].key() by {
        lemma_runner_translated_sound(
            source.runners[i],
            sink.runners[i],
            maps,
            counts,
        );
        assert(source.stamps_ordered() ==> source.runners[i].in_order());
    }
    if source.ids_unique() {
        assert forall|a: int, b: int| 0 <= a < b < sink.runners.len() implies
            #[trigger] sink.runners[a].key() != #[trigger] sink.runners[b].key() by {
            assert(source.runners[a].key() != source.runners[b].key());
        }
    }
    lemma_translations::<MergeRequest>(source.merge_requests, maps);
    assert forall|i: int| 0 <= i < sink.merge_requests.len() implies (
    #[trigger] sink.merge_requests[i]).refs_within(counts) && (source.stamps_ordered()
        ==> sink.merge_requests[i].in_order()) && sink.merge_requests[i].key()
        == source.merge_requests[i].key() by {
        lemma_merge_request_translated_sound(
            source.merge_requests[i],
            sink.merge_requests[i],
            maps,
            counts,
        );
        assert(source.stamps_ordered() ==> source.merge_requests[i].in_order());
    }
    if source.ids_unique() {
        assert forall|a: int, b: int| 0 <= a < b < sink.merge_requests.len() implies
            #[trigger] sink.merge_requests[a].key() != #[trigger] sink.merge_requests[b].key() by {
            assert(source.merge_requests[a].key() != source.merge_requests[b].key());
        }
    }
    lemma_translations::<PipelineSchedule>(source.pipeline_schedules, maps);
    assert forall|i: int| 0 <= i < sink.pipeline_schedules.len() implies (
    #[trigger] sink.pipeline_schedules[i]).refs_within(counts) && (source.stamps_ordered()
        ==> sink.pipeline_schedules[i].in_order()) && sink.pipeline_schedules[i].key()
        == source.pipeline_schedules[i].key() by {
        lemma_pipeline_schedule_translated_sound(
            source.pipeline_schedules[i],
            sink.pipeline_schedules[i],
            maps,
            counts,
        );
        assert(source.stamps_ordered() ==> source.pipeline_schedules[i].in_order());
    }
    if source.ids_unique() {
        assert forall|a: int, b: int| 0 <= a < b < sink.pipeline_schedules.len() implies
            #[trigger] sink.pipeline_schedules[a].key() != #[trigger] sink.pipeline_schedules[b].key() by {
            assert(source.pipeline_schedules[a].key() != source.pipeline_schedules[b].key());
        }
    }
    assert forall|j: int| 0 <= j < sink.pipelines.len() implies (
    #[trigger] sink.pipelines[j]).refs_within(counts) && (source.stamps_ordered()
        ==> sink.pipelines[j].in_order()) by {
        assert(reaches(maps.pipelines, source.pipelines.len(), j as usize));
        let k = choose|k: usize|
            k < source.pipelines.len() && #[trigger] maps.pipelines[k] == j as usize;
        assert(maps.pipelines.contains_key(k));
        lemma_pipeline_translated_sound(
            source.pipelines[k as int],
            sink.pipelines[j],
            maps,
            counts,
        );
        assert(source.stamps_ordered() ==> source.pipelines[k as int].in_order());
    }
    if source.ids_unique() {
        assert forall|a: int, b: int| 0 <= a < b < sink.pipelines.len() implies
            #[trigger] sink.pipelines[a].key() != #[trigger] sink.pipelines[b].key() by {
            assert(reaches(maps.pipelines, source.pipelines.len(), a as usize));
            assert(reaches(maps.pipelines, source.pipelines.len(), b as usize));
            let ka = choose|k: usize|
                k < source.pipelines.len() && #[trigger] maps.pipelines[k] == a as usize;
            let kb = choose|k: usize|
                k < source.pipelines.len() && #[trigger] maps.pipelines[k] == b as usize;
            assert(maps.pipelines.contains_key(ka) && maps.pipelines.contains_key(kb));
            lemma_pipeline_translated_sound(
                source.pipelines[ka as int],
                sink.pipelines[a],
                maps,
                counts,
            );
            lemma_pipeline_translated_sound(
                source.pipelines[kb as int],
                sink.pipelines[b],
                maps,
                counts,
            );
            if ka < kb {
                assert(source.pipelines[ka as int].key()
                    != source.pipelines[kb as int].key());
            } else {
                assert(source.pipelines[kb as int].key()
                    != source.pipelines[ka as int].key());
            }
        }
    }
    lemma_translations::<Environment>(source.environments, maps);
    assert forall|i: int| 0 <= i < sink.environments.len() implies (
    #[trigger] sink.environments[i]).refs_within(counts) && (source.stamps_ordered()
        ==> sink.environments[i].in_order()) && sink.environments[i].key()
        == source.environments[i].key() by {
        lemma_environment_translated_sound(
            source.environments[i],
            sink.environments[i],
            maps,
            counts,
        );
        assert(source.stamps_ordered() ==> source.environments[i].in_order());
    }
    if source.ids_unique() {
        assert forall|a: int, b: int| 0 <= a < b < sink.environments.len() implies
            #[trigger] sink.environments[a].key() != #[trigger] sink.environments[b].key() by {
            assert(source.environments[a].key() != source.environments[b].key());
        }
    }
    lemma_translations::<Deployment>(source.deployments, maps);
    assert forall|i: int| 0 <= i < sink.deployments.len() implies (
    #[trigger] sink.deployments[i]).refs_within(counts) && (source.stamps_ordered()
        ==> sink.deployments[i].in_order()) && sink.deployments[i].key()
        == source.deployments[i].key() by {
        lemma_deployment_translated_sound(
            source.deployments[i],
            sink.deployments[i],
            maps,
            counts,
        );
        assert(source.stamps_ordered() ==> source.deployments[i].in_order());
    }
    if source.ids_unique() {
        assert forall|a: int, b: int| 0 <= a < b < sink.deployments.len() implies
            #[trigger] sink.deployments[a].key() != #[trigger] sink.deployments[b].key() by {
            assert(source.deployments[a].key() != source.deployments[b].key());
        }
    }
    lemma_translations::<Job>(source.jobs, maps);
    assert forall|i: int| 0 <= i < sink.jobs.len() implies (
    #[trigger] sink.jobs[i]).refs_within(counts) && (source.stamps_ordered()
        ==> sink.jobs[i].in_order()) && sink.jobs[i].key()
        == source.jobs[i].key() by {
        lemma_job_translated_sound(
            source.jobs[i],
            sink.jobs[i],
            maps,
            counts,
        );
        assert(source.stamps_ordered() ==> source.jobs[i].in_order());
    }
    if source.ids_unique() {
        assert forall|a: int, b: int| 0 <= a < b < sink.jobs.len() implies
            #[trigger] sink.jobs[a].key() != #[trigger] sink.jobs[b].key() by {
            assert(source.jobs[a].key() != source.jobs[b].key());
        }
    }
    lemma_translations::<JobArtifact>(source.job_artifacts, maps);
    assert forall|i: int| 0 <= i < sink.job_artifacts.len() implies (
    #[trigger] sink.job_artifacts[i]).refs_within(counts) && (source.stamps_ordered()
        ==> sink.job_artifacts[i].in_order()) && sink.job_artifacts[i].key()
        == source.job_artifacts[i].key() by {
        lemma_job_artifact_translated_sound(
            source.job_artifacts[i],
            sink.job_artifacts[i],
            maps,
            counts,
        );
        assert(source.stamps_ordered() ==> source.job_artifacts[i].in_order());
    }
    if source.ids_unique() {
        assert forall|a: int, b: int| 0 <= a < b < sink.job_artifacts.len() implies
            #[trigger] sink.job_artifacts[a].key() != #[trigger] sink.job_artifacts[b].key() by {
            assert(source.job_artifacts[a].key() != source.job_artifacts[b].key());
        }
    }
}

/// What migrated was in order: every reference of the source names a record,
/// and the chain of parents of every pipeline ends.
pub proof fn lemma_migrated_source_valid(
    source: VecLookupView,
    sink: VecLookupView,
    maps: IndexMapsView,
)
    requires
        store_migrated(source, sink, maps),
        source.fits(),
    ensures
        source.refs_valid(),
        parents_end(source.pipelines),
{
    let counts = source.counts();
    lemma_translations::<Instance>(source.instances, maps);
    assert forall|i: int| 0 <= i < source.instances.len() implies (
    #[trigger] source.instances[i]).refs_within(counts) by {
        lemma_instance_translated_within(source.instances[i], maps, counts);
    }
    lemma_translations::<RunnerHost>(source.runner_hosts, maps);
    assert forall|i: int| 0 <= i < source.runner_hosts.len() implies (
    #[trigger] source.runner_hosts[i]).refs_within(counts) by {
        lemma_runner_host_translated_within(source.runner_hosts[i], maps, counts);
    }
    lemma_translations::<User>(source.users, maps);
    assert forall|i: int| 0 <= i < source.users.len() implies (
    #[trigger] source.users[i]).refs_within(counts) by {
        lemma_user_translated_within(source.users[i], maps, counts);
    }
    lemma_translations::<Project>(source.projects, maps);
    assert forall|i: int| 0 <= i < source.projects.len() implies (
    #[trigger] source.projects[i]).refs_within(counts) by {
        lemma_project_translated_within(source.projects[i], maps, counts);
    }
    lemma_translations::<Runner>(source.runners, maps);
    assert forall|i: int| 0 <= i < source.runners.len() implies (
    #[trigger] source.runners[i]).refs_within(counts) by {
        lemma_runner_translated_within(source.runners[i], maps, counts);
    }
    lemma_translations::<MergeRequest>(source.merge_requests, maps);
    assert forall|i: int| 0 <= i < source.merge_requests.len() implies (
    #[trigger] source.merge_requests[i]).refs_within(counts) by {
        lemma_merge_request_translated_within(source.merge_requests[i], maps, counts);
    }
    lemma_translations::<PipelineSchedule>(source.pipeline_schedules, maps);
    assert forall|i: int| 0 <= i < source.pipeline_schedules.len() implies (
    #[trigger] source.pipeline_schedules[i]).refs_within(counts) by {
        lemma_pipeline_schedule_translated_within(source.pipeline_schedules[i], maps, counts);
    }
    assert forall|i: int| 0 <= i < source.pipelines.len() implies (
    #[trigger] source.pipelines[i]).refs_within(counts) by {
        assert(maps.pipelines.contains_key(i as usize));
        assert(maps.pipelines[i as usize] < sink.pipelines.len());
        lemma_pipeline_translated_within(source.pipelines[i], maps, counts);
    }
    lemma_parents_end(source.pipelines, maps.pipelines);
    lemma_translations::<Environment>(source.environments, maps);
    assert forall|i: int| 0 <= i < source.environments.len() implies (
    #[trigger] source.environments[i]).refs_within(counts) by {
        lemma_environment_translated_within(source.environments[i], maps, counts);
    }
    lemma_translations::<Deployment>(source.deployments, maps);
    assert forall|i: int| 0 <= i < source.deployments.len() implies (
    #[trigger] source.deployments[i]).refs_within(counts) by {
        lemma_deployment_translated_within(source.deployments[i], maps, counts);
    }
    lemma_translations::<Job>(source.jobs, maps);
    assert forall|i: int| 0 <= i < source.jobs.len() implies (
    #[trigger] source.jobs[i]).refs_within(counts) by {
        lemma_job_translated_within(source.jobs[i], maps, counts);
    }
    lemma_translations::<JobArtifact>(source.job_artifacts, maps);
    assert forall|i: int| 0 <= i < source.job_artifacts.len() implies (
    #[trigger] source.job_artifacts[i]).refs_within(counts) by {
        lemma_job_artifact_translated_within(source.job_artifacts[i], maps, counts);
    }
}

/// Migrate a store into an empty store; the translations of the indices
/// come back.
pub fn migrate_with_maps(
    source: &VecLookup,
    sink: &mut VecLookup,
) -> (r: Result<IndexMaps, MigrationError>)
    requires
        source@.ids_unique(),
        old(sink)@ == VecLookupView::empty(),
    ensures
        r matches Ok(maps) ==> store_migrated(source@, final(sink)@, maps@),
        r is Ok ==> final(sink)@.refs_valid() && final(sink)@.ids_unique(),
        r is Ok && source@.stamps_ordered() ==> final(sink)@.stamps_ordered(),
        r matches Err(e) ==> e@ is DanglingSourceIndex,
        r is Ok <==> source@.refs_valid() && parents_end(source@.pipelines),
{
    let mut maps = IndexMaps::new();
    let ghost counts = source@.counts();
    proof {
        source.lemma_fits();
    }
    // Instances
    let ghost maps_instances = maps@;
    let mut instance_map = IndexMap::new();
    proof {
        if source@.refs_valid() && parents_end(source@.pipelines) {
            assert forall|i: int|
                0 <= i < source@.instances.len() implies Instance::spec_translate(
                #[trigger] source@.instances[i],
                maps@,
            ) is Ok by {
                assert(source@.instances[i].refs_within(counts));
                lemma_instance_translates(source@.instances[i], maps@, counts);
            }
            lemma_translations_ok::<Instance>(source@.instances, maps@);
        }
    }
    match migrate_records::<Instance>(source, sink, &maps, &mut instance_map) {
        Ok(()) => {},
        Err(e) => {
            proof {
                lemma_translations_fail_dangling::<Instance>(source@.instances, maps@);
            }
            return Err(e);
        },
    }
    maps.instances = instance_map;
    // Runner hosts
    let ghost maps_runner_hosts = maps@;
    let mut runner_host_map = IndexMap::new();
    proof {
        if source@.refs_valid() && parents_end(source@.pipelines) {
            assert forall|i: int|
                0 <= i < source@.runner_hosts.len() implies RunnerHost::spec_translate(
                #[trigger] source@.runner_hosts[i],
                maps@,
            ) is Ok by {
                assert(source@.runner_hosts[i].refs_within(counts));
                lemma_runner_host_translates(source@.runner_hosts[i], maps@, counts);
            }
            lemma_translations_ok::<RunnerHost>(source@.runner_hosts, maps@);
        }
    }
    match migrate_records::<RunnerHost>(source, sink, &maps, &mut runner_host_map) {
        Ok(()) => {},
        Err(e) => {
            proof {
                lemma_translations_fail_dangling::<RunnerHost>(source@.runner_hosts, maps@);
            }
            return Err(e);
        },
    }
    maps.runner_hosts = runner_host_map;
    // Users
    let ghost maps_users = maps@;
    let mut user_map = IndexMap::new();
    proof {
        if source@.refs_valid() && parents_end(source@.pipelines) {
            assert forall|i: int|
                0 <= i < source@.users.len() implies User::spec_translate(
                #[trigger] source@.users[i],
                maps@,
            ) is Ok by {
                assert(source@.users[i].refs_within(counts));
                lemma_user_translates(source@.users[i], maps@, counts);
            }
            lemma_translations_ok::<User>(source@.users, maps@);
        }
    }
    match migrate_records::<User>(source, sink, &maps, &mut user_map) {
        Ok(()) => {},
        Err(e) => {
            proof {
                lemma_translations_fail_dangling::<User>(source@.users, maps@);
            }
            return Err(e);
        },
    }
    maps.users = user_map;
    // Projects
    let ghost maps_projects = maps@;
    let mut project_map = IndexMap::new();
    proof {
        if source@.refs_valid() && parents_end(source@.pipelines) {
            assert forall|i: int|
                0 <= i < source@.projects.len() implies Project::spec_translate(
                #[trigger] source@.projects[i],
                maps@,
            ) is Ok by {
                assert(source@.projects[i].refs_within(counts));
                lemma_project_translates(source@.projects[i], maps@, counts);
            }
            lemma_translations_ok::<Project>(source@.projects, maps@);
        }
    }
    match migrate_records::<Project>(source, sink, &maps, &mut project_map) {
        Ok(()) => {},
        Err(e) => {
            proof {
                lemma_translations_fail_dangling::<Project>(source@.projects, maps@);
            }
            return Err(e);
        },
    }
    maps.projects = project_map;
    // Runners
    let ghost maps_runners = maps@;
    let mut runner_map = IndexMap::new();
    proof {
        if source@.refs_valid() && parents_end(source@.pipelines) {
            assert forall|i: int|
                0 <= i < source@.runners.len() implies Runner::spec_translate(
                #[trigger] source@.runners[i],
                maps@,
            ) is Ok by {
                assert(source@.runners[i].refs_within(counts));
                lemma_runner_translates(source@.runners[i], maps@, counts);
            }
            lemma_translations_ok::<Runner>(source@.runners, maps@);
        }
    }
    match migrate_records::<Runner>(source, sink, &maps, &mut runner_map) {
        Ok(()) => {},
        Err(e) => {
            proof {
                lemma_translations_fail_dangling::<Runner>(source@.runners, maps@);
            }
            return Err(e);
        },
    }
    maps.runners = runner_map;
    // Merge requests
    let ghost maps_merge_requests = maps@;
    let mut merge_request_map = IndexMap::new();
    proof {
        if source@.refs_valid() && parents_end(source@.pipelines) {
            assert forall|i: int|
                0 <= i < source@.merge_requests.len() implies MergeRequest::spec_translate(
                #[trigger] source@.merge_requests[i],
                maps@,
            ) is Ok by {
                assert(source@.merge_requests[i].refs_within(counts));
                lemma_merge_request_translates(source@.merge_requests[i], maps@, counts);
            }
            lemma_translations_ok::<MergeRequest>(source@.merge_requests, maps@);
        }
    }
    match migrate_records::<MergeRequest>(source, sink, &maps, &mut merge_request_map) {
        Ok(()) => {},
        Err(e) => {
            proof {
                lemma_translations_fail_dangling::<MergeRequest>(source@.merge_requests, maps@);
            }
            return Err(e);
        },
    }
    maps.merge_requests = merge_request_map;
    // Pipeline schedules
    let ghost maps_pipeline_schedules = maps@;
    let mut pipeline_schedule_map = IndexMap::new();
    proof {
        if source@.refs_valid() && parents_end(source@.pipelines) {
            assert forall|i: int|
                0 <= i < source@.pipeline_schedules.len() implies PipelineSchedule::spec_translate(
                #[trigger] source@.pipeline_schedules[i],
                maps@,
            ) is Ok by {
                assert(source@.pipeline_schedules[i].refs_within(counts));
                lemma_pipeline_schedule_translates(source@.pipeline_schedules[i], maps@, counts);
            }
            lemma_translations_ok::<PipelineSchedule>(source@.pipeline_schedules, maps@);
        }
    }
    match migrate_records::<PipelineSchedule>(source, sink, &maps, &mut pipeline_schedule_map) {
        Ok(()) => {},
        Err(e) => {
            proof {
                lemma_translations_fail_dangling::<PipelineSchedule>(
                    source@.pipeline_schedules,
                    maps@,
                );
            }
            return Err(e);
        },
    }
    maps.pipeline_schedules = pipeline_schedule_map;
    // Pipelines
    let ghost maps_pipelines = maps@;
    proof {
        if source@.refs_valid() && parents_end(source@.pipelines) {
            assert forall|i: int| 0 <= i < source@.pipelines.len() implies Pipeline::spec_translate(
                PipelineView { parent_pipeline: None, ..#[trigger] source@.pipelines[i] },
                maps@,
            ) is Ok by {
                assert(source@.pipelines[i].refs_within(counts));
                lemma_parentless_translates(
                    PipelineView { parent_pipeline: None, ..source@.pipelines[i] },
                    maps@,
                    counts,
                );
            }
        }
    }
    match migrate_pipelines(source, sink, &mut maps) {
        Ok(()) => {},
        Err(e) => return Err(e),
    }
    // Environments
    let ghost maps_environments = maps@;
    let mut environment_map = IndexMap::new();
    proof {
        if source@.refs_valid() && parents_end(source@.pipelines) {
            assert forall|i: int|
                0 <= i < source@.environments.len() implies Environment::spec_translate(
                #[trigger] source@.environments[i],
                maps@,
            ) is Ok by {
                assert(source@.environments[i].refs_within(counts));
                lemma_environment_translates(source@.environments[i], maps@, counts);
            }
            lemma_translations_ok::<Environment>(source@.environments, maps@);
        }
    }
    match migrate_records::<Environment>(source, sink, &maps, &mut environment_map) {
        Ok(()) => {},
        Err(e) => {
            proof {
                lemma_translations_fail_dangling::<Environment>(source@.environments, maps@);
            }
            return Err(e);
        },
    }
    maps.environments = environment_map;
    // Deployments
    let ghost maps_deployments = maps@;
    let mut deployment_map = IndexMap::new();
    proof {
        if source@.refs_valid() && parents_end(source@.pipelines) {
            assert forall|i: int|
                0 <= i < source@.deployments.len() implies Deployment::spec_translate(
                #[trigger] source@.deployments[i],
                maps@,
            ) is Ok by {
                assert(source@.deployments[i].refs_within(counts));
                lemma_deployment_translates(source@.deployments[i], maps@, counts);
            }
            lemma_translations_ok::<Deployment>(source@.deployments, maps@);
        }
    }
    match migrate_records::<Deployment>(source, sink, &maps, &mut deployment_map) {
        Ok(()) => {},
        Err(e) => {
            proof {
                lemma_translations_fail_dangling::<Deployment>(source@.deployments, maps@);
            }
            return Err(e);
        },
    }
    maps.deployments = deployment_map;
    // Jobs
    let ghost maps_jobs = maps@;
    let mut job_map = IndexMap::new();
    proof {
        if source@.refs_valid() && parents_end(source@.pipelines) {
            assert forall|i: int|
                0 <= i < source@.jobs.len() implies Job::spec_translate(
                #[trigger] source@.jobs[i],
                maps@,
            ) is Ok by {
                assert(source@.jobs[i].refs_within(counts));
                lemma_job_translates(source@.jobs[i], maps@, counts);
            }
            lemma_translations_ok::<Job>(source@.jobs, maps@);
        }
    }
    match migrate_records::<Job>(source, sink, &maps, &mut job_map) {
        Ok(()) => {},
        Err(e) => {
            proof {
                lemma_translations_fail_dangling::<Job>(source@.jobs, maps@);
            }
            return Err(e);
        },
    }
    maps.jobs = job_map;
    // Job artifacts
    let ghost maps_job_artifacts = maps@;
    let mut job_artifact_map = IndexMap::new();
    proof {
        if source@.refs_valid() && parents_end(source@.pipelines) {
            assert forall|i: int|
                0 <= i < source@.job_artifacts.len() implies JobArtifact::spec_translate(
                #[trigger] source@.job_artifacts[i],
                maps@,
            ) is Ok by {
                assert(source@.job_artifacts[i].refs_within(counts));
                lemma_job_artifact_translates(source@.job_artifacts[i], maps@, counts);
            }
            lemma_translations_ok::<JobArtifact>(source@.job_artifacts, maps@);
        }
    }
    match migrate_records::<JobArtifact>(source, sink, &maps, &mut job_artifact_map) {
        Ok(()) => {},
        Err(e) => {
            proof {
                lemma_translations_fail_dangling::<JobArtifact>(source@.job_artifacts, maps@);
            }
            return Err(e);
        },
    }
    maps.job_artifacts = job_artifact_map;
    proof {
        assert forall|i: int|
            0 <= i < source@.instances.len() implies Instance::spec_translate(
            #[trigger] source@.instances[i],
            maps_instances,
        ) == Instance::spec_translate(source@.instances[i], maps@) by {
            lemma_instance_translation_local(source@.instances[i], maps_instances, maps@);
        }
        lemma_translations_agree::<Instance>(source@.instances, maps_instances, maps@);
        assert forall|i: int|
            0 <= i < source@.runner_hosts.len() implies RunnerHost::spec_translate(
            #[trigger] source@.runner_hosts[i],
            maps_runner_hosts,
        ) == RunnerHost::spec_translate(source@.runner_hosts[i], maps@) by {
            lemma_runner_host_translation_local(source@.runner_hosts[i], maps_runner_hosts, maps@);
        }
        lemma_translations_agree::<RunnerHost>(source@.runner_hosts, maps_runner_hosts, maps@);
        assert forall|i: int|
            0 <= i < source@.users.len() implies User::spec_translate(
            #[trigger] source@.users[i],
            maps_users,
        ) == User::spec_translate(source@.users[i], maps@) by {
            lemma_user_translation_local(source@.users[i], maps_users, maps@);
        }
        lemma_translations_agree::<User>(source@.users, maps_users, maps@);
        assert forall|i: int|
            0 <= i < source@.projects.len() implies Project::spec_translate(
            #[trigger] source@.projects[i],
            maps_projects,
        ) == Project::spec_translate(source@.projects[i], maps@) by {
            lemma_project_translation_local(source@.projects[i], maps_projects, maps@);
        }
        lemma_translations_agree::<Project>(source@.projects, maps_projects, maps@);
        assert forall|i: int|
            0 <= i < source@.runners.len() implies Runner::spec_translate(
            #[trigger] source@.runners[i],
            maps_runners,
        ) == Runner::spec_translate(source@.runners[i], maps@) by {
            lemma_runner_translation_local(source@.runners[i], maps_runners, maps@);
        }
        lemma_translations_agree::<Runner>(source@.runners, maps_runners, maps@);
        assert forall|i: int|
            0 <= i < source@.merge_requests.len() implies MergeRequest::spec_translate(
            #[trigger] source@.merge_requests[i],
            maps_merge_requests,
        ) == MergeRequest::spec_translate(source@.merge_requests[i], maps@) by {
            lemma_merge_request_translation_local(
                source@.merge_requests[i],
                maps_merge_requests,
                maps@,
            );
        }
        lemma_translations_agree::<MergeRequest>(
            source@.merge_requests,
            maps_merge_requests,
            maps@,
        );
        assert forall|i: int|
            0 <= i < source@.pipeline_schedules.len() implies PipelineSchedule::spec_translate(
            #[trigger] source@.pipeline_schedules[i],
            maps_pipeline_schedules,
        ) == PipelineSchedule::spec_translate(source@.pipeline_schedules[i], maps@) by {
            lemma_pipeline_schedule_translation_local(
                source@.pipeline_schedules[i],
                maps_pipeline_schedules,
                maps@,
            );
        }
        lemma_translations_agree::<PipelineSchedule>(
            source@.pipeline_schedules,
            maps_pipeline_schedules,
            maps@,
        );
        assert forall|i: int|
            0 <= i < source@.environments.len() implies Environment::spec_translate(
            #[trigger] source@.environments[i],
            maps_environments,
        ) == Environment::spec_translate(source@.environments[i], maps@) by {
            lemma_environment_translation_local(source@.environments[i], maps_environments, maps@);
        }
        lemma_translations_agree::<Environment>(source@.environments, maps_environments, maps@);
        assert forall|i: int|
            0 <= i < source@.deployments.len() implies Deployment::spec_translate(
            #[trigger] source@.deployments[i],
            maps_deployments,
        ) == Deployment::spec_translate(source@.deployments[i], maps@) by {
            lemma_deployment_translation_local(source@.deployments[i], maps_deployments, maps@);
        }
        lemma_translations_agree::<Deployment>(source@.deployments, maps_deployments, maps@);
        assert forall|i: int|
            0 <= i < source@.jobs.len() implies Job::spec_translate(
            #[trigger] source@.jobs[i],
            maps_jobs,
        ) == Job::spec_translate(source@.jobs[i], maps@) by {
            lemma_job_translation_local(source@.jobs[i], maps_jobs, maps@);
        }
        lemma_translations_agree::<Job>(source@.jobs, maps_jobs, maps@);
        assert forall|i: int|
            0 <= i < source@.job_artifacts.len() implies JobArtifact::spec_translate(
            #[trigger] source@.job_artifacts[i],
            maps_job_artifacts,
        ) == JobArtifact::spec_translate(source@.job_artifacts[i], maps@) by {
            lemma_job_artifact_translation_local(
                source@.job_artifacts[i],
                maps_job_artifacts,
                maps@,
            );
        }
        lemma_translations_agree::<JobArtifact>(source@.job_artifacts, maps_job_artifacts, maps@);
        assert forall|k: usize|
            k < source@.pipelines.len() && maps@.pipelines.contains_key(k) implies (
        #[trigger] maps@.pipelines[k]) < sink@.pipelines.len() && Pipeline::spec_translate(
            source@.pipelines[k as int],
            maps@,
        ) == Ok::<PipelineView, MigrationErrorView>(sink@.pipelines[maps@.pipelines[k] as int]) by {
            lemma_pipeline_translation_local(source@.pipelines[k as int], maps_environments, maps@);
        }
    }
    proof {
        lemma_migrated_store_sound(source@, sink@, maps@);
        lemma_migrated_source_valid(source@, sink@, maps@);
    }
    Ok(maps)
}

/// Migrate an object store's objects into another store.
///
/// The sink is empty, and no two records of a type of the source have the
/// same identity key. The migration succeeds where every reference of the
/// source names a record and no pipeline is its own ancestor; else the first
/// reference without translation is the error.
pub fn migrate_object_store(
    source: &VecLookup,
    sink: &mut VecLookup,
) -> (r: Result<(), MigrationError>)
    requires
        source@.ids_unique(),
        old(sink)@ == VecLookupView::empty(),
    ensures
        r is Ok ==> exists|maps: IndexMapsView|
            #[trigger] store_migrated(source@, final(sink)@, maps),
        r is Ok ==> final(sink)@.refs_valid() && final(sink)@.ids_unique(),
        r is Ok && source@.stamps_ordered() ==> final(sink)@.stamps_ordered(),
        r matches Err(e) ==> e@ is DanglingSourceIndex,
        r is Ok <==> source@.refs_valid() && parents_end(source@.pipelines),
{
    match migrate_with_maps(source, sink) {
        Ok(maps) => {
            assert(store_migrated(source@, sink@, maps@));
            Ok(())
        },
        Err(e) => Err(e),
    }
}

} // verus!
