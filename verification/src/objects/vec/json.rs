//! Records as their files hold them, and the conversions to and from the
//! entities.

use vstd::prelude::*;
use crate::data::deployment::{Deployment, DeploymentView};
use crate::data::deployment::{lemma_deployment_status_name_round_trip, DeploymentStatus};
use crate::data::environment::{Environment, EnvironmentView};
use crate::data::environment::{lemma_environment_state_name_round_trip, EnvironmentState};
use crate::data::environment::{lemma_environment_tier_name_round_trip, EnvironmentTier};
use crate::data::instance::{Instance, InstanceView};
use crate::data::job::{Job, JobView};
use crate::data::job::{lemma_job_state_name_round_trip, JobState};
use crate::data::job_artifact::{JobArtifact, JobArtifactView};
use crate::data::job_artifact::{lemma_artifact_state_name_round_trip, ArtifactState};
use crate::data::merge_request::{MergeRequest, MergeRequestView};
use crate::data::merge_request::{lemma_merge_request_status_name_round_trip, MergeRequestStatus};
use crate::data::pipeline::{Pipeline, PipelineView};
use crate::data::pipeline::{lemma_pipeline_source_name_round_trip, PipelineSource};
use crate::data::pipeline::{lemma_pipeline_status_name_round_trip, PipelineStatus};
use crate::data::pipeline_schedule::{PipelineSchedule, PipelineScheduleView};
use crate::data::project::{Project, ProjectView};
use crate::data::runner::{Runner, RunnerView};
use crate::data::runner::{lemma_runner_protection_level_name_round_trip, RunnerProtectionLevel};
use crate::data::runner::{lemma_runner_type_name_round_trip, RunnerType};
use crate::data::runner_host::{RunnerHost, RunnerHostView};
use crate::data::user::{User, UserView};
use crate::data::blob::{
    lemma_content_hash_name_round_trip, opt_blob_view, BlobReference, BlobReferenceView,
    ContentHash,
};
use crate::data::job_artifact::{
    lemma_artifact_expiration_name_round_trip, lemma_artifact_kind_round_trip, ArtifactExpiration,
    ArtifactKind, ArtifactKindView,
};
use crate::data::number::Binary64;
use crate::data::pipeline_variables::{
    lemma_collect_distinct, lemma_pipeline_variable_type_name_round_trip, pairs_view,
    PipelineVariable, PipelineVariableType, PipelineVariableView, PipelineVariables,
    PipelineVariablesView,
};
use crate::objects::vec::persist::{VecStoreError, VecStoreErrorView};
use crate::objects::vec::VecIndex;
use crate::text::{clone_opt_string, clone_strings, opt_text, texts};
use crate::time::Timestamp;

verus! {

/// The error for a name `value` that names no value of the type `typename`.
pub open spec fn invalid_enum(typename: Seq<char>, value: Seq<char>) -> VecStoreErrorView {
    VecStoreErrorView::InvalidEnumString { typename, value }
}

/// The error for a name `value` that names no value of the type `typename`.
pub fn invalid_enum_string(typename: &'static str, value: &String) -> (r: VecStoreError)
    ensures
        r@ == invalid_enum(typename@, value@),
{
    VecStoreError::InvalidEnumString { typename, value: value.clone() }
}

/// What the outcome of reading a record says.
pub open spec fn created<T: View>(r: Result<T, VecStoreError>) -> Result<T::V, VecStoreErrorView> {
    match r {
        Ok(v) => Ok(v@),
        Err(e) => Err(e@),
    }
}

/// The position of an optional index.
pub open spec fn opt_position<T>(o: Option<VecIndex<T>>) -> Option<usize> {
    match o {
        Some(i) => Some(i.idx),
        None => None,
    }
}

/// The index at an optional position.
pub open spec fn opt_index<T>(o: Option<usize>) -> Option<VecIndex<T>> {
    match o {
        Some(i) => Some(VecIndex::at(i)),
        None => None,
    }
}

/// The positions of a sequence of indices.
pub open spec fn positions<T>(s: Seq<VecIndex<T>>) -> Seq<usize> {
    Seq::new(s.len(), |k: int| s[k].idx)
}

/// The indices at a sequence of positions.
pub open spec fn indices<T>(s: Seq<usize>) -> Seq<VecIndex<T>> {
    Seq::new(s.len(), |k: int| VecIndex::at(s[k]))
}

/// An optional index is the index at its position.
pub proof fn lemma_opt_index<T>(position: Option<usize>, index: Option<VecIndex<T>>)
    requires
        opt_position(index) == position,
    ensures
        opt_index::<T>(position) == index,
{
}

/// Indices are the indices at their positions.
pub proof fn lemma_indices<T>(at: Seq<usize>, s: Seq<VecIndex<T>>)
    requires
        positions(s) == at,
    ensures
        indices::<T>(at) == s,
{
    assert(at.len() == s.len());
    assert forall|k: int| 0 <= k < s.len() implies indices::<T>(at)[k] == s[k] by {
        assert(at[k] == positions(s)[k]);
    }
    assert(indices::<T>(at) =~= s);
}

/// The position of an optional index.
pub fn position_of<T>(o: &Option<VecIndex<T>>) -> (r: Option<usize>)
    ensures
        r == opt_position(*o),
{
    match o {
        Some(i) => Some(i.idx),
        None => None,
    }
}

/// The index at an optional position.
pub fn index_of<T>(o: &Option<usize>) -> (r: Option<VecIndex<T>>)
    ensures
        r == opt_index::<T>(*o),
{
    match o {
        Some(i) => Some(VecIndex::new(*i)),
        None => None,
    }
}

/// The positions of a list of indices.
pub fn positions_of<T>(v: &Vec<VecIndex<T>>) -> (r: Vec<usize>)
    ensures
        r@ == positions(v@),
{
    let mut r: Vec<usize> = Vec::new();
    let mut k: usize = 0;
    while k < v.len()
        invariant
            k <= v.len(),
            r@ == positions(v@.subrange(0, k as int)),
        decreases v.len() - k,
    {
        r.push(v[k].idx);
        assert(r@ =~= positions(v@.subrange(0, k + 1)));
        k += 1;
    }
    assert(v@.subrange(0, v@.len() as int) =~= v@);
    r
}

/// The indices at a list of positions.
pub fn indices_of<T>(v: &Vec<usize>) -> (r: Vec<VecIndex<T>>)
    ensures
        r@ == indices::<T>(v@),
{
    let mut r: Vec<VecIndex<T>> = Vec::new();
    let mut k: usize = 0;
    while k < v.len()
        invariant
            k <= v.len(),
            r@ == indices::<T>(v@.subrange(0, k as int)),
        decreases v.len() - k,
    {
        r.push(VecIndex::new(v[k]));
        assert(r@ =~= indices::<T>(v@.subrange(0, k + 1)));
        k += 1;
    }
    assert(v@.subrange(0, v@.len() as int) =~= v@);
    r
}

/// A blob reference as a file holds it.
#[derive(Debug)]
pub struct BlobReferenceJson {
    pub algo: String,
    pub hash: String,
}

impl BlobReferenceJson {
    /// Whether the record holds what `v` says.
    pub open spec fn describes(self, v: BlobReferenceView) -> bool {
        &&& self.algo@ == v.algo.spec_name()
        &&& self.hash@ == v.hash
    }

    /// What the record says, or the error for a name of no algorithm.
    pub open spec fn spec_create(self) -> Result<BlobReferenceView, VecStoreErrorView> {
        match ContentHash::spec_from_name(self.algo@) {
            None => Err(invalid_enum("ContentHash"@, self.algo@)),
            Some(algo) => Ok(BlobReferenceView { algo, hash: self.hash@ }),
        }
    }

    /// The record that holds what `o` says.
    pub fn convert_to_json(o: &BlobReference) -> (r: Self)
        ensures
            r.describes(o@),
    {
        BlobReferenceJson { algo: o.algo().name().to_owned(), hash: o.hash().to_owned() }
    }

    /// The blob reference that the record holds, or the error for a name of
    /// no algorithm.
    pub fn create_from_json(&self) -> (r: Result<BlobReference, VecStoreError>)
        ensures
            created(r) == self.spec_create(),
    {
        let algo = match ContentHash::from_name(self.algo.as_str()) {
            Some(v) => v,
            None => return Err(invalid_enum_string("ContentHash", &self.algo)),
        };
        Ok(BlobReference::new(algo, self.hash.clone()))
    }
}

/// Whether an optional record holds what an optional reference says.
pub open spec fn opt_blob_described(
    o: Option<BlobReferenceJson>,
    v: Option<BlobReferenceView>,
) -> bool {
    match (o, v) {
        (Some(record), Some(blob)) => record.describes(blob),
        (None, None) => true,
        _ => false,
    }
}

/// What an optional record says.
pub open spec fn opt_blob_created(o: Option<BlobReferenceJson>) -> Result<
    Option<BlobReferenceView>,
    VecStoreErrorView,
> {
    match o {
        Some(record) => match record.spec_create() {
            Ok(blob) => Ok(Some(blob)),
            Err(e) => Err(e),
        },
        None => Ok(None),
    }
}

/// The record of an optional blob reference.
pub fn blob_to_json(o: &Option<BlobReference>) -> (r: Option<BlobReferenceJson>)
    ensures
        opt_blob_described(r, opt_blob_view(*o)),
{
    match o {
        Some(blob) => Some(BlobReferenceJson::convert_to_json(blob)),
        None => None,
    }
}

/// The optional blob reference of a record.
pub fn blob_from_json(
    o: &Option<BlobReferenceJson>,
) -> (r: Result<Option<BlobReference>, VecStoreError>)
    ensures
        match r {
            Ok(v) => opt_blob_created(*o) == Ok::<Option<BlobReferenceView>, VecStoreErrorView>(
                opt_blob_view(v),
            ),
            Err(e) => opt_blob_created(*o) == Err::<Option<BlobReferenceView>, VecStoreErrorView>(
                e@,
            ),
        },
{
    match o {
        Some(record) => match record.create_from_json() {
            Ok(blob) => Ok(Some(blob)),
            Err(e) => Err(e),
        },
        None => Ok(None),
    }
}

/// An optional blob reference is read back from the record that was written
/// for it.
pub proof fn lemma_opt_blob_round_trip(o: Option<BlobReferenceJson>, v: Option<BlobReferenceView>)
    requires
        opt_blob_described(o, v),
    ensures
        opt_blob_created(o) == Ok::<Option<BlobReferenceView>, VecStoreErrorView>(v),
{
    match v {
        Some(blob) => {
            lemma_content_hash_name_round_trip(blob.algo);
        },
        None => {},
    }
}

/// When an artifact expires, as a file holds it: a name, or an instant.
#[derive(Debug)]
pub enum ArtifactExpirationJson {
    /// `unknown` or `never`.
    Name(String),
    /// An instant.
    At(Timestamp),
}

impl ArtifactExpirationJson {
    /// Whether the record holds what `v` says.
    pub open spec fn describes(self, v: ArtifactExpiration) -> bool {
        match self {
            ArtifactExpirationJson::Name(name) => v.spec_name() == Some(name@),
            ArtifactExpirationJson::At(at) => v == ArtifactExpiration::At(at),
        }
    }

    /// What the record says, or the error for a name of no expiration.
    pub open spec fn spec_create(self) -> Result<ArtifactExpiration, VecStoreErrorView> {
        match self {
            ArtifactExpirationJson::Name(name) => match ArtifactExpiration::spec_from_name(name@) {
                Some(v) => Ok(v),
                None => Err(invalid_enum("ArtifactExpiration"@, name@)),
            },
            ArtifactExpirationJson::At(at) => Ok(ArtifactExpiration::At(at)),
        }
    }

    /// The record that holds what `o` says.
    pub fn convert_to_json(o: ArtifactExpiration) -> (r: Self)
        ensures
            r.describes(o),
    {
        match o {
            ArtifactExpiration::At(at) => ArtifactExpirationJson::At(at),
            other => match other.name() {
                Some(name) => ArtifactExpirationJson::Name(name.to_owned()),
                None => {
                    assert(false);
                    ArtifactExpirationJson::At(Timestamp::new(0, 0))
                },
            },
        }
    }

    /// The expiration that the record holds, or the error for a name of no
    /// expiration.
    pub fn create_from_json(&self) -> (r: Result<ArtifactExpiration, VecStoreError>)
        ensures
            match r {
                Ok(v) => self.spec_create() == Ok::<ArtifactExpiration, VecStoreErrorView>(v),
                Err(e) => self.spec_create() == Err::<ArtifactExpiration, VecStoreErrorView>(e@),
            },
    {
        match self {
            ArtifactExpirationJson::Name(name) => match ArtifactExpiration::from_name(
                name.as_str(),
            ) {
                Some(v) => Ok(v),
                None => Err(invalid_enum_string("ArtifactExpiration", name)),
            },
            ArtifactExpirationJson::At(at) => Ok(ArtifactExpiration::At(*at)),
        }
    }
}

/// An expiration is read back from the record that was written for it.
pub proof fn lemma_artifact_expiration_json_round_trip(
    record: ArtifactExpirationJson,
    v: ArtifactExpiration,
)
    requires
        record.describes(v),
    ensures
        record.spec_create() == Ok::<ArtifactExpiration, VecStoreErrorView>(v),
{
    if !(v is At) {
        lemma_artifact_expiration_name_round_trip(v);
    }
}

/// A pipeline variable as its file holds it: references by position, enumerations by
/// name.
#[derive(Debug)]
pub struct PipelineVariableJson {
    pub value: String,
    pub type_: String,
    pub protected: bool,
    pub environment: Option<String>,
}

impl PipelineVariableJson {
    /// Whether the record holds what `v` says.
    pub open spec fn describes(self, v: PipelineVariableView) -> bool {
        &&& self.value@ == v.value
        &&& self.type_@ == v.type_.spec_name()
        &&& self.protected == v.protected
        &&& opt_text(self.environment) == v.environment
    }

    /// What the record says, or the error for the first of its names that
    /// names nothing.
    pub open spec fn spec_create(self) -> Result<PipelineVariableView, VecStoreErrorView> {
        match PipelineVariableType::spec_from_name(self.type_@) {
            None => Err(invalid_enum("PipelineVariableType"@, self.type_@)),
            Some(type_) => Ok(
                PipelineVariableView {
                    value: self.value@,
                    type_,
                    protected: self.protected,
                    environment: opt_text(self.environment),
                },
            ),
        }
    }

    /// The record that holds what `o` says.
    pub fn convert_to_json(o: &PipelineVariable) -> (r: Self)
        ensures
            r.describes(o@),
    {
        PipelineVariableJson {
            value: o.value.clone(),
            type_: o.type_.name().to_owned(),
            protected: o.protected,
            environment: clone_opt_string(&o.environment),
        }
    }

    /// The pipeline variable that the record holds, or the error for the first of its names
    /// that names nothing.
    pub fn create_from_json(&self) -> (r: Result<PipelineVariable, VecStoreError>)
        ensures
            created(r) == self.spec_create(),
    {
        let type_ = match PipelineVariableType::from_name(self.type_.as_str()) {
            Some(v) => v,
            None => return Err(invalid_enum_string("PipelineVariableType", &self.type_)),
        };
        Ok(
            PipelineVariable {
                value: self.value.clone(),
                type_,
                protected: self.protected,
                environment: clone_opt_string(&self.environment),
            },
        )
    }
}

/// A pipeline variable is read back from the record that was written for it.
pub proof fn lemma_pipeline_variable_json_round_trip(
    record: PipelineVariableJson,
    v: PipelineVariableView,
)
    requires
        record.describes(v),
    ensures
        record.spec_create() == Ok::<PipelineVariableView, VecStoreErrorView>(v),
{
    lemma_pipeline_variable_type_name_round_trip(v.type_);
}

/// A set of pipeline variables as a file holds it.
#[derive(Debug)]
pub struct PipelineVariablesJson {
    pub variables: Vec<(String, PipelineVariableJson)>,
}

/// What a sequence of keyed records says, or the error of the first record
/// that does not read.
pub open spec fn created_pairs(s: Seq<(String, PipelineVariableJson)>) -> Result<
    Seq<(Seq<char>, PipelineVariableView)>,
    VecStoreErrorView,
>
    decreases s.len(),
{
    if s.len() == 0 {
        Ok(Seq::empty())
    } else {
        match created_pairs(s.drop_last()) {
            Err(e) => Err(e),
            Ok(front) => match s.last().1.spec_create() {
                Err(e) => Err(e),
                Ok(v) => Ok(front.push((s.last().0@, v))),
            },
        }
    }
}

impl PipelineVariablesJson {
    /// Whether the record holds what `v` says.
    pub open spec fn describes(self, v: PipelineVariablesView) -> bool {
        &&& self.variables@.len() == v.entries.len()
        &&& forall|i: int|
            0 <= i < v.entries.len() ==> (#[trigger] self.variables@[i]).0@ == v.entries[i].0
                && self.variables@[i].1.describes(v.entries[i].1)
    }

    /// What the record says, or the error of the first variable that does
    /// not read. Of two variables with one key, the later stands.
    pub open spec fn spec_create(self) -> Result<PipelineVariablesView, VecStoreErrorView> {
        match created_pairs(self.variables@) {
            Err(e) => Err(e),
            Ok(pairs) => Ok(PipelineVariablesView::collect(pairs)),
        }
    }

    /// The record that holds what `o` says.
    pub fn convert_to_json(o: &PipelineVariables) -> (r: Self)
        ensures
            r.describes(o@),
    {
        let entries = o.entries();
        let mut variables: Vec<(String, PipelineVariableJson)> = Vec::new();
        let mut i: usize = 0;
        while i < entries.len()
            invariant
                i <= entries.len(),
                variables@.len() == i,
                pairs_view(entries@) == o@.entries,
                forall|j: int|
                    0 <= j < i ==> (#[trigger] variables@[j]).0@ == o@.entries[j].0
                        && variables@[j].1.describes(o@.entries[j].1),
            decreases entries.len() - i,
        {
            let pair = &entries[i];
            assert(pairs_view(entries@)[i as int] == (pair.0@, pair.1@));
            variables.push((pair.0.clone(), PipelineVariableJson::convert_to_json(&pair.1)));
            i += 1;
        }
        assert(pairs_view(entries@).len() == entries@.len());
        PipelineVariablesJson { variables }
    }

    /// The variables that the record holds, or the error of the first
    /// variable that does not read.
    pub fn create_from_json(&self) -> (r: Result<PipelineVariables, VecStoreError>)
        ensures
            created(r) == self.spec_create(),
    {
        let mut pairs: Vec<(String, PipelineVariable)> = Vec::new();
        let mut i: usize = 0;
        proof {
            assert(self.variables@.subrange(0, 0) =~= Seq::empty());
            assert(pairs_view(pairs@) =~= Seq::empty());
        }
        while i < self.variables.len()
            invariant
                i <= self.variables.len(),
                created_pairs(self.variables@.subrange(0, i as int)) == Ok::<
                    Seq<(Seq<char>, PipelineVariableView)>,
                    VecStoreErrorView,
                >(pairs_view(pairs@)),
            decreases self.variables.len() - i,
        {
            let pair = &self.variables[i];
            let ghost upto = self.variables@.subrange(0, i + 1);
            assert(upto.drop_last() =~= self.variables@.subrange(0, i as int));
            assert(upto.last() == *pair);
            match pair.1.create_from_json() {
                Ok(v) => {
                    let ghost before = pairs@;
                    pairs.push((pair.0.clone(), v));
                    assert(pairs_view(pairs@) =~= pairs_view(before).push((pair.0@, v@)));
                },
                Err(e) => {
                    proof {
                        lemma_created_pairs_fail(self.variables@, i as int);
                    }
                    return Err(e);
                },
            }
            i += 1;
        }
        assert(self.variables@.subrange(0, self.variables@.len() as int) =~= self.variables@);
        Ok(PipelineVariables::from_pairs(pairs))
    }
}

/// Where the records before `i` read and the record at `i` does not, the
/// whole sequence fails with the error of that record.
pub proof fn lemma_created_pairs_fail(s: Seq<(String, PipelineVariableJson)>, i: int)
    requires
        0 <= i < s.len(),
        created_pairs(s.subrange(0, i)) is Ok,
        s[i].1.spec_create() is Err,
    ensures
        created_pairs(s) == Err::<Seq<(Seq<char>, PipelineVariableView)>, VecStoreErrorView>(
            s[i].1.spec_create()->Err_0,
        ),
    decreases s.len() - i,
{
    let upto = s.subrange(0, i + 1);
    assert(upto.drop_last() =~= s.subrange(0, i));
    assert(upto.last() == s[i]);
    lemma_created_pairs_stays_failed(s, i + 1);
}

/// Once a prefix of the records fails, every longer prefix fails alike.
pub proof fn lemma_created_pairs_stays_failed(s: Seq<(String, PipelineVariableJson)>, n: int)
    requires
        0 <= n <= s.len(),
        created_pairs(s.subrange(0, n)) is Err,
    ensures
        created_pairs(s) == created_pairs(s.subrange(0, n)),
    decreases s.len() - n,
{
    if n == s.len() {
        assert(s.subrange(0, n) =~= s);
    } else {
        let upto = s.subrange(0, n + 1);
        assert(upto.drop_last() =~= s.subrange(0, n));
        lemma_created_pairs_stays_failed(s, n + 1);
    }
}

/// A set of pipeline variables is read back from the record that was written
/// for it.
pub proof fn lemma_pipeline_variables_json_round_trip(
    record: PipelineVariablesJson,
    v: PipelineVariablesView,
)
    requires
        record.describes(v),
        v.keys_unique(),
    ensures
        record.spec_create() == Ok::<PipelineVariablesView, VecStoreErrorView>(v),
{
    lemma_created_pairs_described(record.variables@, v.entries);
    lemma_collect_distinct(v.entries);
}

/// Records that hold what `pairs` say read as `pairs`.
pub proof fn lemma_created_pairs_described(
    s: Seq<(String, PipelineVariableJson)>,
    pairs: Seq<(Seq<char>, PipelineVariableView)>,
)
    requires
        s.len() == pairs.len(),
        forall|i: int|
            0 <= i < pairs.len() ==> (#[trigger] s[i]).0@ == pairs[i].0 && s[i].1.describes(
                pairs[i].1,
            ),
    ensures
        created_pairs(s) == Ok::<Seq<(Seq<char>, PipelineVariableView)>, VecStoreErrorView>(pairs),
    decreases s.len(),
{
    if s.len() == 0 {
        assert(pairs =~= Seq::empty());
    } else {
        let n = s.len() - 1;
        assert(s.drop_last().len() == pairs.drop_last().len());
        assert forall|i: int| 0 <= i < pairs.drop_last().len() implies (#[trigger] s.drop_last()[i]).0@
            == pairs.drop_last()[i].0 && s.drop_last()[i].1.describes(pairs.drop_last()[i].1) by {
            assert(s.drop_last()[i] == s[i]);
        }
        lemma_created_pairs_described(s.drop_last(), pairs.drop_last());
        assert(s[n].0@ == pairs[n].0);
        lemma_pipeline_variable_json_round_trip(s.last().1, pairs.last().1);
        assert(pairs.drop_last().push(pairs.last()) =~= pairs);
    }
}

/// A deployment as its file holds it: references by position, enumerations by
/// name.
#[derive(Debug)]
pub struct DeploymentJson {
    pub pipeline: usize,
    pub environment: usize,
    pub forge_id: u64,
    pub created_at: Timestamp,
    pub updated_at: Timestamp,
    pub finished_at: Option<Timestamp>,
    pub status: String,
    pub cim_fetched_at: Timestamp,
    pub cim_refreshed_at: Timestamp,
}

impl DeploymentJson {
    /// Whether the record holds what `v` says.
    pub open spec fn describes(self, v: DeploymentView) -> bool {
        &&& v.pipeline.idx == self.pipeline
        &&& v.environment.idx == self.environment
        &&& self.forge_id == v.forge_id
        &&& self.created_at == v.created_at
        &&& self.updated_at == v.updated_at
        &&& self.finished_at == v.finished_at
        &&& self.status@ == v.status.spec_name()
        &&& self.cim_fetched_at == v.cim_fetched_at
        &&& self.cim_refreshed_at == v.cim_refreshed_at
    }

    /// What the record says, or the error for the first of its names that
    /// names nothing.
    pub open spec fn spec_create(self) -> Result<DeploymentView, VecStoreErrorView> {
        match DeploymentStatus::spec_from_name(self.status@) {
            None => Err(invalid_enum("DeploymentStatus"@, self.status@)),
            Some(status) => Ok(
                DeploymentView {
                    pipeline: VecIndex::at(self.pipeline),
                    environment: VecIndex::at(self.environment),
                    forge_id: self.forge_id,
                    created_at: self.created_at,
                    updated_at: self.updated_at,
                    finished_at: self.finished_at,
                    status,
                    cim_fetched_at: self.cim_fetched_at,
                    cim_refreshed_at: self.cim_refreshed_at,
                },
            ),
        }
    }

    /// The record that holds what `o` says.
    pub fn convert_to_json(o: &Deployment) -> (r: Self)
        ensures
            r.describes(o@),
    {
        DeploymentJson {
            pipeline: o.pipeline.idx,
            environment: o.environment.idx,
            forge_id: o.forge_id,
            created_at: o.created_at,
            updated_at: o.updated_at,
            finished_at: o.finished_at,
            status: o.status.name().to_owned(),
            cim_fetched_at: o.cim_fetched_at,
            cim_refreshed_at: o.cim_refreshed_at,
        }
    }

    /// The deployment that the record holds, or the error for the first of its names
    /// that names nothing.
    pub fn create_from_json(&self) -> (r: Result<Deployment, VecStoreError>)
        ensures
            created(r) == self.spec_create(),
    {
        let status = match DeploymentStatus::from_name(self.status.as_str()) {
            Some(v) => v,
            None => return Err(invalid_enum_string("DeploymentStatus", &self.status)),
        };
        Ok(
            Deployment {
                pipeline: VecIndex::new(self.pipeline),
                environment: VecIndex::new(self.environment),
                forge_id: self.forge_id,
                created_at: self.created_at,
                updated_at: self.updated_at,
                finished_at: self.finished_at,
                status,
                cim_fetched_at: self.cim_fetched_at,
                cim_refreshed_at: self.cim_refreshed_at,
            },
        )
    }
}

/// A deployment is read back from the record that was written for it.
pub proof fn lemma_deployment_json_round_trip(record: DeploymentJson, v: DeploymentView)
    requires
        record.describes(v),
    ensures
        record.spec_create() == Ok::<DeploymentView, VecStoreErrorView>(v),
{
    lemma_deployment_status_name_round_trip(v.status);
}


/// An environment as its file holds it: references by position, enumerations by
/// name.
#[derive(Debug)]
pub struct EnvironmentJson {
    pub name: String,
    pub external_url: String,
    pub state: String,
    pub tier: String,
    pub forge_id: u64,
    pub project: usize,
    pub created_at: Timestamp,
    pub updated_at: Timestamp,
    pub auto_stop_at: Option<Timestamp>,
    pub cim_fetched_at: Timestamp,
    pub cim_refreshed_at: Timestamp,
}

impl EnvironmentJson {
    /// Whether the record holds what `v` says.
    pub open spec fn describes(self, v: EnvironmentView) -> bool {
        &&& self.name@ == v.name
        &&& self.external_url@ == v.external_url
        &&& self.state@ == v.state.spec_name()
        &&& self.tier@ == v.tier.spec_name()
        &&& self.forge_id == v.forge_id
        &&& v.project.idx == self.project
        &&& self.created_at == v.created_at
        &&& self.updated_at == v.updated_at
        &&& self.auto_stop_at == v.auto_stop_at
        &&& self.cim_fetched_at == v.cim_fetched_at
        &&& self.cim_refreshed_at == v.cim_refreshed_at
    }

    /// What the record says, or the error for the first of its names that
    /// names nothing.
    pub open spec fn spec_create(self) -> Result<EnvironmentView, VecStoreErrorView> {
        match EnvironmentState::spec_from_name(self.state@) {
            None => Err(invalid_enum("EnvironmentState"@, self.state@)),
            Some(state) => match EnvironmentTier::spec_from_name(self.tier@) {
                None => Err(invalid_enum("EnvironmentTier"@, self.tier@)),
                Some(tier) => Ok(
                    EnvironmentView {
                        name: self.name@,
                        external_url: self.external_url@,
                        state,
                        tier,
                        forge_id: self.forge_id,
                        project: VecIndex::at(self.project),
                        created_at: self.created_at,
                        updated_at: self.updated_at,
                        auto_stop_at: self.auto_stop_at,
                        cim_fetched_at: self.cim_fetched_at,
                        cim_refreshed_at: self.cim_refreshed_at,
                    },
                ),
            },
        }
    }

    /// The record that holds what `o` says.
    pub fn convert_to_json(o: &Environment) -> (r: Self)
        ensures
            r.describes(o@),
    {
        EnvironmentJson {
            name: o.name.clone(),
            external_url: o.external_url.clone(),
            state: o.state.name().to_owned(),
            tier: o.tier.name().to_owned(),
            forge_id: o.forge_id,
            project: o.project.idx,
            created_at: o.created_at,
            updated_at: o.updated_at,
            auto_stop_at: o.auto_stop_at,
            cim_fetched_at: o.cim_fetched_at,
            cim_refreshed_at: o.cim_refreshed_at,
        }
    }

    /// The environment that the record holds, or the error for the first of its names
    /// that names nothing.
    pub fn create_from_json(&self) -> (r: Result<Environment, VecStoreError>)
        ensures
            created(r) == self.spec_create(),
    {
        let state = match EnvironmentState::from_name(self.state.as_str()) {
            Some(v) => v,
            None => return Err(invalid_enum_string("EnvironmentState", &self.state)),
        };
        let tier = match EnvironmentTier::from_name(self.tier.as_str()) {
            Some(v) => v,
            None => return Err(invalid_enum_string("EnvironmentTier", &self.tier)),
        };
        Ok(
            Environment {
                name: self.name.clone(),
                external_url: self.external_url.clone(),
                state,
                tier,
                forge_id: self.forge_id,
                project: VecIndex::new(self.project),
                created_at: self.created_at,
                updated_at: self.updated_at,
                auto_stop_at: self.auto_stop_at,
                cim_fetched_at: self.cim_fetched_at,
                cim_refreshed_at: self.cim_refreshed_at,
            },
        )
    }
}

/// An environment is read back from the record that was written for it.
pub proof fn lemma_environment_json_round_trip(record: EnvironmentJson, v: EnvironmentView)
    requires
        record.describes(v),
    ensures
        record.spec_create() == Ok::<EnvironmentView, VecStoreErrorView>(v),
{
    lemma_environment_state_name_round_trip(v.state);
    lemma_environment_tier_name_round_trip(v.tier);
}


/// An instance as its file holds it: references by position, enumerations by
/// name.
#[derive(Debug)]
pub struct InstanceJson {
    pub unique_id: u64,
    pub forge: String,
    pub url: String,
}

impl InstanceJson {
    /// Whether the record holds what `v` says.
    pub open spec fn describes(self, v: InstanceView) -> bool {
        &&& self.unique_id == v.unique_id
        &&& self.forge@ == v.forge
        &&& self.url@ == v.url
    }

    /// What the record says, or the error for the first of its names that
    /// names nothing: a record of this type always reads.
    pub open spec fn spec_create(self) -> Result<InstanceView, VecStoreErrorView> {
        Ok(
            InstanceView {
                unique_id: self.unique_id,
                forge: self.forge@,
                url: self.url@,
            },
        )
    }

    /// The record that holds what `o` says.
    pub fn convert_to_json(o: &Instance) -> (r: Self)
        ensures
            r.describes(o@),
    {
        InstanceJson {
            unique_id: o.unique_id,
            forge: o.forge.clone(),
            url: o.url.clone(),
        }
    }

    /// The instance that the record holds, or the error for the first of its names
    /// that names nothing.
    pub fn create_from_json(&self) -> (r: Result<Instance, VecStoreError>)
        ensures
            created(r) == self.spec_create(),
    {
        Ok(
            Instance {
                unique_id: self.unique_id,
                forge: self.forge.clone(),
                url: self.url.clone(),
            },
        )
    }
}

/// An instance is read back from the record that was written for it.
pub proof fn lemma_instance_json_round_trip(record: InstanceJson, v: InstanceView)
    requires
        record.describes(v),
    ensures
        record.spec_create() == Ok::<InstanceView, VecStoreErrorView>(v),
{
}


/// A job as its file holds it: references by position, enumerations by
/// name.
#[derive(Debug)]
pub struct JobJson {
    pub name: String,
    pub stage: String,
    pub allow_failure: bool,
    pub user: usize,
    pub tags: Vec<String>,
    pub variables: PipelineVariablesJson,
    pub state: String,
    pub created_at: Timestamp,
    pub started_at: Option<Timestamp>,
    pub finished_at: Option<Timestamp>,
    pub erased_at: Option<Timestamp>,
    pub queued_duration: Option<Binary64>,
    pub runner: Option<usize>,
    pub deployment: Option<usize>,
    pub forge_id: u64,
    pub archived: bool,
    pub url: String,
    pub pipeline: usize,
    pub coverage: Option<Binary64>,
    pub cim_fetched_at: Timestamp,
    pub cim_refreshed_at: Timestamp,
}

impl JobJson {
    /// Whether the record holds what `v` says.
    pub open spec fn describes(self, v: JobView) -> bool {
        &&& self.name@ == v.name
        &&& self.stage@ == v.stage
        &&& self.allow_failure == v.allow_failure
        &&& v.user.idx == self.user
        &&& texts(self.tags@) == v.tags
        &&& self.variables.describes(v.variables)
        &&& self.state@ == v.state.spec_name()
        &&& self.created_at == v.created_at
        &&& self.started_at == v.started_at
        &&& self.finished_at == v.finished_at
        &&& self.erased_at == v.erased_at
        &&& self.queued_duration == v.queued_duration
        &&& opt_position(v.runner) == self.runner
        &&& opt_position(v.deployment) == self.deployment
        &&& self.forge_id == v.forge_id
        &&& self.archived == v.archived
        &&& self.url@ == v.url
        &&& v.pipeline.idx == self.pipeline
        &&& self.coverage == v.coverage
        &&& self.cim_fetched_at == v.cim_fetched_at
        &&& self.cim_refreshed_at == v.cim_refreshed_at
    }

    /// What the record says, or the error for the first of its names that
    /// names nothing.
    pub open spec fn spec_create(self) -> Result<JobView, VecStoreErrorView> {
        match JobState::spec_from_name(self.state@) {
            None => Err(invalid_enum("JobState"@, self.state@)),
            Some(state) => match self.variables.spec_create() {
                Err(e) => Err(e),
                Ok(variables) => Ok(
                    JobView {
                        name: self.name@,
                        stage: self.stage@,
                        allow_failure: self.allow_failure,
                        user: VecIndex::at(self.user),
                        tags: texts(self.tags@),
                        variables,
                        state,
                        created_at: self.created_at,
                        started_at: self.started_at,
                        finished_at: self.finished_at,
                        erased_at: self.erased_at,
                        queued_duration: self.queued_duration,
                        runner: opt_index(self.runner),
                        deployment: opt_index(self.deployment),
                        forge_id: self.forge_id,
                        archived: self.archived,
                        url: self.url@,
                        pipeline: VecIndex::at(self.pipeline),
                        coverage: self.coverage,
                        cim_fetched_at: self.cim_fetched_at,
                        cim_refreshed_at: self.cim_refreshed_at,
                    },
                ),
            },
        }
    }

    /// The record that holds what `o` says.
    pub fn convert_to_json(o: &Job) -> (r: Self)
        ensures
            r.describes(o@),
    {
        JobJson {
            name: o.name.clone(),
            stage: o.stage.clone(),
            allow_failure: o.allow_failure,
            user: o.user.idx,
            tags: clone_strings(&o.tags),
            variables: PipelineVariablesJson::convert_to_json(&o.variables),
            state: o.state.name().to_owned(),
            created_at: o.created_at,
            started_at: o.started_at,
            finished_at: o.finished_at,
            erased_at: o.erased_at,
            queued_duration: o.queued_duration,
            runner: position_of(&o.runner),
            deployment: position_of(&o.deployment),
            forge_id: o.forge_id,
            archived: o.archived,
            url: o.url.clone(),
            pipeline: o.pipeline.idx,
            coverage: o.coverage,
            cim_fetched_at: o.cim_fetched_at,
            cim_refreshed_at: o.cim_refreshed_at,
        }
    }

    /// The job that the record holds, or the error for the first of its names
    /// that names nothing.
    pub fn create_from_json(&self) -> (r: Result<Job, VecStoreError>)
        ensures
            created(r) == self.spec_create(),
    {
        let state = match JobState::from_name(self.state.as_str()) {
            Some(v) => v,
            None => return Err(invalid_enum_string("JobState", &self.state)),
        };
        let variables = match self.variables.create_from_json() {
            Ok(v) => v,
            Err(e) => return Err(e),
        };
        Ok(
            Job {
                name: self.name.clone(),
                stage: self.stage.clone(),
                allow_failure: self.allow_failure,
                user: VecIndex::new(self.user),
                tags: clone_strings(&self.tags),
                variables,
                state,
                created_at: self.created_at,
                started_at: self.started_at,
                finished_at: self.finished_at,
                erased_at: self.erased_at,
                queued_duration: self.queued_duration,
                runner: index_of(&self.runner),
                deployment: index_of(&self.deployment),
                forge_id: self.forge_id,
                archived: self.archived,
                url: self.url.clone(),
                pipeline: VecIndex::new(self.pipeline),
                coverage: self.coverage,
                cim_fetched_at: self.cim_fetched_at,
                cim_refreshed_at: self.cim_refreshed_at,
            },
        )
    }
}

/// A job is read back from the record that was written for it.
pub proof fn lemma_job_json_round_trip(record: JobJson, v: JobView)
    requires
        record.describes(v),
        v.variables.keys_unique(),
    ensures
        record.spec_create() == Ok::<JobView, VecStoreErrorView>(v),
{
    lemma_job_state_name_round_trip(v.state);
    lemma_pipeline_variables_json_round_trip(record.variables, v.variables);
    lemma_opt_index(record.runner, v.runner);
    lemma_opt_index(record.deployment, v.deployment);
}


/// A job artifact as its file holds it: references by position, enumerations by
/// name.
#[derive(Debug)]
pub struct JobArtifactJson {
    pub state: String,
    pub kind: String,
    pub expire_at: ArtifactExpirationJson,
    pub name: String,
    pub blob: Option<BlobReferenceJson>,
    pub size: u64,
    pub unique_id: u64,
    pub job: usize,
}

impl JobArtifactJson {
    /// Whether the record holds what `v` says.
    pub open spec fn describes(self, v: JobArtifactView) -> bool {
        &&& self.state@ == v.state.spec_name()
        &&& self.kind@ == v.kind.as_str()
        &&& self.expire_at.describes(v.expire_at)
        &&& self.name@ == v.name
        &&& opt_blob_described(self.blob, v.blob)
        &&& self.size == v.size
        &&& self.unique_id == v.unique_id
        &&& v.job.idx == self.job
    }

    /// What the record says, or the error for the first of its names that
    /// names nothing.
    pub open spec fn spec_create(self) -> Result<JobArtifactView, VecStoreErrorView> {
        match ArtifactKindView::parse(self.kind@) {
            None => Err(invalid_enum("ArtifactKind"@, self.kind@)),
            Some(kind) => match ArtifactState::spec_from_name(self.state@) {
                None => Err(invalid_enum("ArtifactState"@, self.state@)),
                Some(state) => match self.expire_at.spec_create() {
                    Err(e) => Err(e),
                    Ok(expire_at) => match opt_blob_created(self.blob) {
                        Err(e) => Err(e),
                        Ok(blob) => Ok(
                            JobArtifactView {
                                state,
                                kind,
                                expire_at,
                                name: self.name@,
                                blob,
                                size: self.size,
                                unique_id: self.unique_id,
                                job: VecIndex::at(self.job),
                            },
                        ),
                    },
                },
            },
        }
    }

    /// The record that holds what `o` says.
    pub fn convert_to_json(o: &JobArtifact) -> (r: Self)
        ensures
            r.describes(o@),
    {
        JobArtifactJson {
            state: o.state.name().to_owned(),
            kind: o.kind.as_str(),
            expire_at: ArtifactExpirationJson::convert_to_json(o.expire_at),
            name: o.name.clone(),
            blob: blob_to_json(&o.blob),
            size: o.size,
            unique_id: o.unique_id,
            job: o.job.idx,
        }
    }

    /// The job artifact that the record holds, or the error for the first of its names
    /// that names nothing.
    pub fn create_from_json(&self) -> (r: Result<JobArtifact, VecStoreError>)
        ensures
            created(r) == self.spec_create(),
    {
        let kind = match ArtifactKind::parse(self.kind.as_str()) {
            Some(v) => v,
            None => return Err(invalid_enum_string("ArtifactKind", &self.kind)),
        };
        let state = match ArtifactState::from_name(self.state.as_str()) {
            Some(v) => v,
            None => return Err(invalid_enum_string("ArtifactState", &self.state)),
        };
        let expire_at = match self.expire_at.create_from_json() {
            Ok(v) => v,
            Err(e) => return Err(e),
        };
        let blob = match blob_from_json(&self.blob) {
            Ok(v) => v,
            Err(e) => return Err(e),
        };
        Ok(
            JobArtifact {
                state,
                kind,
                expire_at,
                name: self.name.clone(),
                blob,
                size: self.size,
                unique_id: self.unique_id,
                job: VecIndex::new(self.job),
            },
        )
    }
}

/// A job artifact is read back from the record that was written for it.
pub proof fn lemma_job_artifact_json_round_trip(record: JobArtifactJson, v: JobArtifactView)
    requires
        record.describes(v),
    ensures
        record.spec_create() == Ok::<JobArtifactView, VecStoreErrorView>(v),
{
    lemma_artifact_kind_round_trip(v.kind);
    lemma_artifact_state_name_round_trip(v.state);
    lemma_artifact_expiration_json_round_trip(record.expire_at, v.expire_at);
    lemma_opt_blob_round_trip(record.blob, v.blob);
}


/// A merge request as its file holds it: references by position, enumerations by
/// name.
#[derive(Debug)]
pub struct MergeRequestJson {
    pub id: u64,
    pub source_project: usize,
    pub source_branch: String,
    pub sha: String,
    pub target_project: usize,
    pub target_branch: String,
    pub forge_id: u64,
    pub title: String,
    pub description: String,
    pub state: String,
    pub author: usize,
    pub url: String,
    pub cim_fetched_at: Timestamp,
    pub cim_refreshed_at: Timestamp,
}

impl MergeRequestJson {
    /// Whether the record holds what `v` says.
    pub open spec fn describes(self, v: MergeRequestView) -> bool {
        &&& self.id == v.id
        &&& v.source_project.idx == self.source_project
        &&& self.source_branch@ == v.source_branch
        &&& self.sha@ == v.sha
        &&& v.target_project.idx == self.target_project
        &&& self.target_branch@ == v.target_branch
        &&& self.forge_id == v.forge_id
        &&& self.title@ == v.title
        &&& self.description@ == v.description
        &&& self.state@ == v.state.spec_name()
        &&& v.author.idx == self.author
        &&& self.url@ == v.url
        &&& self.cim_fetched_at == v.cim_fetched_at
        &&& self.cim_refreshed_at == v.cim_refreshed_at
    }

    /// What the record says, or the error for the first of its names that
    /// names nothing.
    pub open spec fn spec_create(self) -> Result<MergeRequestView, VecStoreErrorView> {
        match MergeRequestStatus::spec_from_name(self.state@) {
            None => Err(invalid_enum("MergeRequestStatus"@, self.state@)),
            Some(state) => Ok(
                MergeRequestView {
                    id: self.id,
                    source_project: VecIndex::at(self.source_project),
                    source_branch: self.source_branch@,
                    sha: self.sha@,
                    target_project: VecIndex::at(self.target_project),
                    target_branch: self.target_branch@,
                    forge_id: self.forge_id,
                    title: self.title@,
                    description: self.description@,
                    state,
                    author: VecIndex::at(self.author),
                    url: self.url@,
                    cim_fetched_at: self.cim_fetched_at,
                    cim_refreshed_at: self.cim_refreshed_at,
                },
            ),
        }
    }

    /// The record that holds what `o` says.
    pub fn convert_to_json(o: &MergeRequest) -> (r: Self)
        ensures
            r.describes(o@),
    {
        MergeRequestJson {
            id: o.id,
            source_project: o.source_project.idx,
            source_branch: o.source_branch.clone(),
            sha: o.sha.clone(),
            target_project: o.target_project.idx,
            target_branch: o.target_branch.clone(),
            forge_id: o.forge_id,
            title: o.title.clone(),
            description: o.description.clone(),
            state: o.state.name().to_owned(),
            author: o.author.idx,
            url: o.url.clone(),
            cim_fetched_at: o.cim_fetched_at,
            cim_refreshed_at: o.cim_refreshed_at,
        }
    }

    /// The merge request that the record holds, or the error for the first of its names
    /// that names nothing.
    pub fn create_from_json(&self) -> (r: Result<MergeRequest, VecStoreError>)
        ensures
            created(r) == self.spec_create(),
    {
        let state = match MergeRequestStatus::from_name(self.state.as_str()) {
            Some(v) => v,
            None => return Err(invalid_enum_string("MergeRequestStatus", &self.state)),
        };
        Ok(
            MergeRequest {
                id: self.id,
                source_project: VecIndex::new(self.source_project),
                source_branch: self.source_branch.clone(),
                sha: self.sha.clone(),
                target_project: VecIndex::new(self.target_project),
                target_branch: self.target_branch.clone(),
                forge_id: self.forge_id,
                title: self.title.clone(),
                description: self.description.clone(),
                state,
                author: VecIndex::new(self.author),
                url: self.url.clone(),
                cim_fetched_at: self.cim_fetched_at,
                cim_refreshed_at: self.cim_refreshed_at,
            },
        )
    }
}

/// A merge request is read back from the record that was written for it.
pub proof fn lemma_merge_request_json_round_trip(record: MergeRequestJson, v: MergeRequestView)
    requires
        record.describes(v),
    ensures
        record.spec_create() == Ok::<MergeRequestView, VecStoreErrorView>(v),
{
    lemma_merge_request_status_name_round_trip(v.state);
}


/// A pipeline as its file holds it: references by position, enumerations by
/// name.
#[derive(Debug)]
pub struct PipelineJson {
    pub name: Option<String>,
    pub project: usize,
    pub sha: String,
    pub previous_sha: Option<String>,
    pub refname: Option<String>,
    pub stable_refname: Option<String>,
    pub source: String,
    pub schedule: Option<usize>,
    pub parent_pipeline: Option<usize>,
    pub merge_request: Option<usize>,
    pub variables: PipelineVariablesJson,
    pub user: Option<usize>,
    pub status: String,
    pub coverage: Option<Binary64>,
    pub forge_id: u64,
    pub url: String,
    pub archived: bool,
    pub created_at: Timestamp,
    pub updated_at: Timestamp,
    pub started_at: Option<Timestamp>,
    pub finished_at: Option<Timestamp>,
    pub cim_fetched_at: Timestamp,
    pub cim_refreshed_at: Timestamp,
}

impl PipelineJson {
    /// Whether the record holds what `v` says.
    pub open spec fn describes(self, v: PipelineView) -> bool {
        &&& opt_text(self.name) == v.name
        &&& v.project.idx == self.project
        &&& self.sha@ == v.sha
        &&& opt_text(self.previous_sha) == v.previous_sha
        &&& opt_text(self.refname) == v.refname
        &&& opt_text(self.stable_refname) == v.stable_refname
        &&& self.source@ == v.source.spec_name()
        &&& opt_position(v.schedule) == self.schedule
        &&& opt_position(v.parent_pipeline) == self.parent_pipeline
        &&& opt_position(v.merge_request) == self.merge_request
        &&& self.variables.describes(v.variables)
        &&& opt_position(v.user) == self.user
        &&& self.status@ == v.status.spec_name()
        &&& self.coverage == v.coverage
        &&& self.forge_id == v.forge_id
        &&& self.url@ == v.url
        &&& self.archived == v.archived
        &&& self.created_at == v.created_at
        &&& self.updated_at == v.updated_at
        &&& self.started_at == v.started_at
        &&& self.finished_at == v.finished_at
        &&& self.cim_fetched_at == v.cim_fetched_at
        &&& self.cim_refreshed_at == v.cim_refreshed_at
    }

    /// What the record says, or the error for the first of its names that
    /// names nothing.
    pub open spec fn spec_create(self) -> Result<PipelineView, VecStoreErrorView> {
        match PipelineSource::spec_from_name(self.source@) {
            None => Err(invalid_enum("PipelineSource"@, self.source@)),
            Some(source) => match PipelineStatus::spec_from_name(self.status@) {
                None => Err(invalid_enum("PipelineStatus"@, self.status@)),
                Some(status) => match self.variables.spec_create() {
                    Err(e) => Err(e),
                    Ok(variables) => Ok(
                        PipelineView {
                            name: opt_text(self.name),
                            project: VecIndex::at(self.project),
                            sha: self.sha@,
                            previous_sha: opt_text(self.previous_sha),
                            refname: opt_text(self.refname),
                            stable_refname: opt_text(self.stable_refname),
                            source,
                            schedule: opt_index(self.schedule),
                            parent_pipeline: opt_index(self.parent_pipeline),
                            merge_request: opt_index(self.merge_request),
                            variables,
                            user: opt_index(self.user),
                            status,
                            coverage: self.coverage,
                            forge_id: self.forge_id,
                            url: self.url@,
                            archived: self.archived,
                            created_at: self.created_at,
                            updated_at: self.updated_at,
                            started_at: self.started_at,
                            finished_at: self.finished_at,
                            cim_fetched_at: self.cim_fetched_at,
                            cim_refreshed_at: self.cim_refreshed_at,
                        },
                    ),
                },
            },
        }
    }

    /// The record that holds what `o` says.
    pub fn convert_to_json(o: &Pipeline) -> (r: Self)
        ensures
            r.describes(o@),
    {
        PipelineJson {
            name: clone_opt_string(&o.name),
            project: o.project.idx,
            sha: o.sha.clone(),
            previous_sha: clone_opt_string(&o.previous_sha),
            refname: clone_opt_string(&o.refname),
            stable_refname: clone_opt_string(&o.stable_refname),
            source: o.source.name().to_owned(),
            schedule: position_of(&o.schedule),
            parent_pipeline: position_of(&o.parent_pipeline),
            merge_request: position_of(&o.merge_request),
            variables: PipelineVariablesJson::convert_to_json(&o.variables),
            user: position_of(&o.user),
            status: o.status.name().to_owned(),
            coverage: o.coverage,
            forge_id: o.forge_id,
            url: o.url.clone(),
            archived: o.archived,
            created_at: o.created_at,
            updated_at: o.updated_at,
            started_at: o.started_at,
            finished_at: o.finished_at,
            cim_fetched_at: o.cim_fetched_at,
            cim_refreshed_at: o.cim_refreshed_at,
        }
    }

    /// The pipeline that the record holds, or the error for the first of its names
    /// that names nothing.
    pub fn create_from_json(&self) -> (r: Result<Pipeline, VecStoreError>)
        ensures
            created(r) == self.spec_create(),
    {
        let source = match PipelineSource::from_name(self.source.as_str()) {
            Some(v) => v,
            None => return Err(invalid_enum_string("PipelineSource", &self.source)),
        };
        let status = match PipelineStatus::from_name(self.status.as_str()) {
            Some(v) => v,
            None => return Err(invalid_enum_string("PipelineStatus", &self.status)),
        };
        let variables = match self.variables.create_from_json() {
            Ok(v) => v,
            Err(e) => return Err(e),
        };
        Ok(
            Pipeline {
                name: clone_opt_string(&self.name),
                project: VecIndex::new(self.project),
                sha: self.sha.clone(),
                previous_sha: clone_opt_string(&self.previous_sha),
                refname: clone_opt_string(&self.refname),
                stable_refname: clone_opt_string(&self.stable_refname),
                source,
                schedule: index_of(&self.schedule),
                parent_pipeline: index_of(&self.parent_pipeline),
                merge_request: index_of(&self.merge_request),
                variables,
                user: index_of(&self.user),
                status,
                coverage: self.coverage,
                forge_id: self.forge_id,
                url: self.url.clone(),
                archived: self.archived,
                created_at: self.created_at,
                updated_at: self.updated_at,
                started_at: self.started_at,
                finished_at: self.finished_at,
                cim_fetched_at: self.cim_fetched_at,
                cim_refreshed_at: self.cim_refreshed_at,
            },
        )
    }
}

/// A pipeline is read back from the record that was written for it.
pub proof fn lemma_pipeline_json_round_trip(record: PipelineJson, v: PipelineView)
    requires
        record.describes(v),
        v.variables.keys_unique(),
    ensures
        record.spec_create() == Ok::<PipelineView, VecStoreErrorView>(v),
{
    lemma_pipeline_source_name_round_trip(v.source);
    lemma_pipeline_status_name_round_trip(v.status);
    lemma_pipeline_variables_json_round_trip(record.variables, v.variables);
    lemma_opt_index(record.schedule, v.schedule);
    lemma_opt_index(record.parent_pipeline, v.parent_pipeline);
    lemma_opt_index(record.merge_request, v.merge_request);
    lemma_opt_index(record.user, v.user);
}


/// A pipeline schedule as its file holds it: references by position, enumerations by
/// name.
#[derive(Debug)]
pub struct PipelineScheduleJson {
    pub name: String,
    pub project: usize,
    pub ref_: String,
    pub variables: PipelineVariablesJson,
    pub forge_id: u64,
    pub created_at: Timestamp,
    pub updated_at: Timestamp,
    pub owner: usize,
    pub active: bool,
    pub next_run: Option<Timestamp>,
    pub cim_fetched_at: Timestamp,
    pub cim_refreshed_at: Timestamp,
}

impl PipelineScheduleJson {
    /// Whether the record holds what `v` says.
    pub open spec fn describes(self, v: PipelineScheduleView) -> bool {
        &&& self.name@ == v.name
        &&& v.project.idx == self.project
        &&& self.ref_@ == v.ref_
        &&& self.variables.describes(v.variables)
        &&& self.forge_id == v.forge_id
        &&& self.created_at == v.created_at
        &&& self.updated_at == v.updated_at
        &&& v.owner.idx == self.owner
        &&& self.active == v.active
        &&& self.next_run == v.next_run
        &&& self.cim_fetched_at == v.cim_fetched_at
        &&& self.cim_refreshed_at == v.cim_refreshed_at
    }

    /// What the record says, or the error for the first of its names that
    /// names nothing.
    pub open spec fn spec_create(self) -> Result<PipelineScheduleView, VecStoreErrorView> {
        match self.variables.spec_create() {
            Err(e) => Err(e),
            Ok(variables) => Ok(
                PipelineScheduleView {
                    name: self.name@,
                    project: VecIndex::at(self.project),
                    ref_: self.ref_@,
                    variables,
                    forge_id: self.forge_id,
                    created_at: self.created_at,
                    updated_at: self.updated_at,
                    owner: VecIndex::at(self.owner),
                    active: self.active,
                    next_run: self.next_run,
                    cim_fetched_at: self.cim_fetched_at,
                    cim_refreshed_at: self.cim_refreshed_at,
                },
            ),
        }
    }

    /// The record that holds what `o` says.
    pub fn convert_to_json(o: &PipelineSchedule) -> (r: Self)
        ensures
            r.describes(o@),
    {
        PipelineScheduleJson {
            name: o.name.clone(),
            project: o.project.idx,
            ref_: o.ref_.clone(),
            variables: PipelineVariablesJson::convert_to_json(&o.variables),
            forge_id: o.forge_id,
            created_at: o.created_at,
            updated_at: o.updated_at,
            owner: o.owner.idx,
            active: o.active,
            next_run: o.next_run,
            cim_fetched_at: o.cim_fetched_at,
            cim_refreshed_at: o.cim_refreshed_at,
        }
    }

    /// The pipeline schedule that the record holds, or the error for the first of its names
    /// that names nothing.
    pub fn create_from_json(&self) -> (r: Result<PipelineSchedule, VecStoreError>)
        ensures
            created(r) == self.spec_create(),
    {
        let variables = match self.variables.create_from_json() {
            Ok(v) => v,
            Err(e) => return Err(e),
        };
        Ok(
            PipelineSchedule {
                name: self.name.clone(),
                project: VecIndex::new(self.project),
                ref_: self.ref_.clone(),
                variables,
                forge_id: self.forge_id,
                created_at: self.created_at,
                updated_at: self.updated_at,
                owner: VecIndex::new(self.owner),
                active: self.active,
                next_run: self.next_run,
                cim_fetched_at: self.cim_fetched_at,
                cim_refreshed_at: self.cim_refreshed_at,
            },
        )
    }
}

/// A pipeline schedule is read back from the record that was written for it.
pub proof fn lemma_pipeline_schedule_json_round_trip(
    record: PipelineScheduleJson,
    v: PipelineScheduleView,
)
    requires
        record.describes(v),
        v.variables.keys_unique(),
    ensures
        record.spec_create() == Ok::<PipelineScheduleView, VecStoreErrorView>(v),
{
    lemma_pipeline_variables_json_round_trip(record.variables, v.variables);
}


/// A project as its file holds it: references by position, enumerations by
/// name.
#[derive(Debug)]
pub struct ProjectJson {
    pub name: String,
    pub forge_id: u64,
    pub url: String,
    pub instance: usize,
    pub instance_path: String,
    pub cim_fetched_at: Timestamp,
    pub cim_refreshed_at: Timestamp,
}

impl ProjectJson {
    /// Whether the record holds what `v` says.
    pub open spec fn describes(self, v: ProjectView) -> bool {
        &&& self.name@ == v.name
        &&& self.forge_id == v.forge_id
        &&& self.url@ == v.url
        &&& v.instance.idx == self.instance
        &&& self.instance_path@ == v.instance_path
        &&& self.cim_fetched_at == v.cim_fetched_at
        &&& self.cim_refreshed_at == v.cim_refreshed_at
    }

    /// What the record says, or the error for the first of its names that
    /// names nothing: a record of this type always reads.
    pub open spec fn spec_create(self) -> Result<ProjectView, VecStoreErrorView> {
        Ok(
            ProjectView {
                name: self.name@,
                forge_id: self.forge_id,
                url: self.url@,
                instance: VecIndex::at(self.instance),
                instance_path: self.instance_path@,
                cim_fetched_at: self.cim_fetched_at,
                cim_refreshed_at: self.cim_refreshed_at,
            },
        )
    }

    /// The record that holds what `o` says.
    pub fn convert_to_json(o: &Project) -> (r: Self)
        ensures
            r.describes(o@),
    {
        ProjectJson {
            name: o.name.clone(),
            forge_id: o.forge_id,
            url: o.url.clone(),
            instance: o.instance.idx,
            instance_path: o.instance_path.clone(),
            cim_fetched_at: o.cim_fetched_at,
            cim_refreshed_at: o.cim_refreshed_at,
        }
    }

    /// The project that the record holds, or the error for the first of its names
    /// that names nothing.
    pub fn create_from_json(&self) -> (r: Result<Project, VecStoreError>)
        ensures
            created(r) == self.spec_create(),
    {
        Ok(
            Project {
                name: self.name.clone(),
                forge_id: self.forge_id,
                url: self.url.clone(),
                instance: VecIndex::new(self.instance),
                instance_path: self.instance_path.clone(),
                cim_fetched_at: self.cim_fetched_at,
                cim_refreshed_at: self.cim_refreshed_at,
            },
        )
    }
}

/// A project is read back from the record that was written for it.
pub proof fn lemma_project_json_round_trip(record: ProjectJson, v: ProjectView)
    requires
        record.describes(v),
    ensures
        record.spec_create() == Ok::<ProjectView, VecStoreErrorView>(v),
{
}


/// A runner as its file holds it: references by position, enumerations by
/// name.
#[derive(Debug)]
pub struct RunnerJson {
    pub description: String,
    pub runner_type: String,
    pub maximum_timeout: Option<u64>,
    pub protection_level: String,
    pub implementation: String,
    pub version: String,
    pub revision: String,
    pub platform: String,
    pub architecture: String,
    pub tags: Vec<String>,
    pub run_untagged: bool,
    pub projects: Vec<usize>,
    pub forge_id: u64,
    pub paused: bool,
    pub shared: bool,
    pub online: bool,
    pub locked: bool,
    pub contacted_at: Option<Timestamp>,
    pub maintenance_note: Option<String>,
    pub instance: usize,
    pub runner_host: Option<usize>,
    pub cim_fetched_at: Timestamp,
    pub cim_refreshed_at: Timestamp,
}

impl RunnerJson {
    /// Whether the record holds what `v` says.
    pub open spec fn describes(self, v: RunnerView) -> bool {
        &&& self.description@ == v.description
        &&& self.runner_type@ == v.runner_type.spec_name()
        &&& self.maximum_timeout == v.maximum_timeout
        &&& self.protection_level@ == v.protection_level.spec_name()
        &&& self.implementation@ == v.implementation
        &&& self.version@ == v.version
        &&& self.revision@ == v.revision
        &&& self.platform@ == v.platform
        &&& self.architecture@ == v.architecture
        &&& texts(self.tags@) == v.tags
        &&& self.run_untagged == v.run_untagged
        &&& positions(v.projects) == self.projects@
        &&& self.forge_id == v.forge_id
        &&& self.paused == v.paused
        &&& self.shared == v.shared
        &&& self.online == v.online
        &&& self.locked == v.locked
        &&& self.contacted_at == v.contacted_at
        &&& opt_text(self.maintenance_note) == v.maintenance_note
        &&& v.instance.idx == self.instance
        &&& opt_position(v.runner_host) == self.runner_host
        &&& self.cim_fetched_at == v.cim_fetched_at
        &&& self.cim_refreshed_at == v.cim_refreshed_at
    }

    /// What the record says, or the error for the first of its names that
    /// names nothing.
    pub open spec fn spec_create(self) -> Result<RunnerView, VecStoreErrorView> {
        match RunnerType::spec_from_name(self.runner_type@) {
            None => Err(invalid_enum("RunnerType"@, self.runner_type@)),
            Some(runner_type) => match RunnerProtectionLevel::spec_from_name(
                self.protection_level@,
            ) {
                None => Err(invalid_enum("RunnerProtectionLevel"@, self.protection_level@)),
                Some(protection_level) => Ok(
                    RunnerView {
                        description: self.description@,
                        runner_type,
                        maximum_timeout: self.maximum_timeout,
                        protection_level,
                        implementation: self.implementation@,
                        version: self.version@,
                        revision: self.revision@,
                        platform: self.platform@,
                        architecture: self.architecture@,
                        tags: texts(self.tags@),
                        run_untagged: self.run_untagged,
                        projects: indices(self.projects@),
                        forge_id: self.forge_id,
                        paused: self.paused,
                        shared: self.shared,
                        online: self.online,
                        locked: self.locked,
                        contacted_at: self.contacted_at,
                        maintenance_note: opt_text(self.maintenance_note),
                        instance: VecIndex::at(self.instance),
                        runner_host: opt_index(self.runner_host),
                        cim_fetched_at: self.cim_fetched_at,
                        cim_refreshed_at: self.cim_refreshed_at,
                    },
                ),
            },
        }
    }

    /// The record that holds what `o` says.
    pub fn convert_to_json(o: &Runner) -> (r: Self)
        ensures
            r.describes(o@),
    {
        RunnerJson {
            description: o.description.clone(),
            runner_type: o.runner_type.name().to_owned(),
            maximum_timeout: o.maximum_timeout,
            protection_level: o.protection_level.name().to_owned(),
            implementation: o.implementation.clone(),
            version: o.version.clone(),
            revision: o.revision.clone(),
            platform: o.platform.clone(),
            architecture: o.architecture.clone(),
            tags: clone_strings(&o.tags),
            run_untagged: o.run_untagged,
            projects: positions_of(&o.projects),
            forge_id: o.forge_id,
            paused: o.paused,
            shared: o.shared,
            online: o.online,
            locked: o.locked,
            contacted_at: o.contacted_at,
            maintenance_note: clone_opt_string(&o.maintenance_note),
            instance: o.instance.idx,
            runner_host: position_of(&o.runner_host),
            cim_fetched_at: o.cim_fetched_at,
            cim_refreshed_at: o.cim_refreshed_at,
        }
    }

    /// The runner that the record holds, or the error for the first of its names
    /// that names nothing.
    pub fn create_from_json(&self) -> (r: Result<Runner, VecStoreError>)
        ensures
            created(r) == self.spec_create(),
    {
        let runner_type = match RunnerType::from_name(self.runner_type.as_str()) {
            Some(v) => v,
            None => return Err(invalid_enum_string("RunnerType", &self.runner_type)),
        };
        let protection_level = match RunnerProtectionLevel::from_name(
            self.protection_level.as_str(),
        ) {
            Some(v) => v,
            None => return Err(invalid_enum_string("RunnerProtectionLevel", &self.protection_level)),
        };
        Ok(
            Runner {
                description: self.description.clone(),
                runner_type,
                maximum_timeout: self.maximum_timeout,
                protection_level,
                implementation: self.implementation.clone(),
                version: self.version.clone(),
                revision: self.revision.clone(),
                platform: self.platform.clone(),
                architecture: self.architecture.clone(),
                tags: clone_strings(&self.tags),
                run_untagged: self.run_untagged,
                projects: indices_of(&self.projects),
                forge_id: self.forge_id,
                paused: self.paused,
                shared: self.shared,
                online: self.online,
                locked: self.locked,
                contacted_at: self.contacted_at,
                maintenance_note: clone_opt_string(&self.maintenance_note),
                instance: VecIndex::new(self.instance),
                runner_host: index_of(&self.runner_host),
                cim_fetched_at: self.cim_fetched_at,
                cim_refreshed_at: self.cim_refreshed_at,
            },
        )
    }
}

/// A runner is read back from the record that was written for it.
pub proof fn lemma_runner_json_round_trip(record: RunnerJson, v: RunnerView)
    requires
        record.describes(v),
    ensures
        record.spec_create() == Ok::<RunnerView, VecStoreErrorView>(v),
{
    lemma_runner_type_name_round_trip(v.runner_type);
    lemma_runner_protection_level_name_round_trip(v.protection_level);
    lemma_indices(record.projects@, v.projects);
    lemma_opt_index(record.runner_host, v.runner_host);
}


/// A runner host as its file holds it: references by position, enumerations by
/// name.
#[derive(Debug)]
pub struct RunnerHostJson {
    pub os: String,
    pub os_version: String,
    pub name: String,
    pub management: String,
    pub location: String,
    pub estimated_cost_per_hour: Option<Binary64>,
    pub unique_id: u64,
    pub cim_fetched_at: Timestamp,
    pub cim_refreshed_at: Timestamp,
}

impl RunnerHostJson {
    /// Whether the record holds what `v` says.
    pub open spec fn describes(self, v: RunnerHostView) -> bool {
        &&& self.os@ == v.os
        &&& self.os_version@ == v.os_version
        &&& self.name@ == v.name
        &&& self.management@ == v.management
        &&& self.location@ == v.location
        &&& self.estimated_cost_per_hour == v.estimated_cost_per_hour
        &&& self.unique_id == v.unique_id
        &&& self.cim_fetched_at == v.cim_fetched_at
        &&& self.cim_refreshed_at == v.cim_refreshed_at
    }

    /// What the record says, or the error for the first of its names that
    /// names nothing: a record of this type always reads.
    pub open spec fn spec_create(self) -> Result<RunnerHostView, VecStoreErrorView> {
        Ok(
            RunnerHostView {
                os: self.os@,
                os_version: self.os_version@,
                name: self.name@,
                management: self.management@,
                location: self.location@,
                estimated_cost_per_hour: self.estimated_cost_per_hour,
                unique_id: self.unique_id,
                cim_fetched_at: self.cim_fetched_at,
                cim_refreshed_at: self.cim_refreshed_at,
            },
        )
    }

    /// The record that holds what `o` says.
    pub fn convert_to_json(o: &RunnerHost) -> (r: Self)
        ensures
            r.describes(o@),
    {
        RunnerHostJson {
            os: o.os.clone(),
            os_version: o.os_version.clone(),
            name: o.name.clone(),
            management: o.management.clone(),
            location: o.location.clone(),
            estimated_cost_per_hour: o.estimated_cost_per_hour,
            unique_id: o.unique_id,
            cim_fetched_at: o.cim_fetched_at,
            cim_refreshed_at: o.cim_refreshed_at,
        }
    }

    /// The runner host that the record holds, or the error for the first of its names
    /// that names nothing.
    pub fn create_from_json(&self) -> (r: Result<RunnerHost, VecStoreError>)
        ensures
            created(r) == self.spec_create(),
    {
        Ok(
            RunnerHost {
                os: self.os.clone(),
                os_version: self.os_version.clone(),
                name: self.name.clone(),
                management: self.management.clone(),
                location: self.location.clone(),
                estimated_cost_per_hour: self.estimated_cost_per_hour,
                unique_id: self.unique_id,
                cim_fetched_at: self.cim_fetched_at,
                cim_refreshed_at: self.cim_refreshed_at,
            },
        )
    }
}

/// A runner host is read back from the record that was written for it.
pub proof fn lemma_runner_host_json_round_trip(record: RunnerHostJson, v: RunnerHostView)
    requires
        record.describes(v),
    ensures
        record.spec_create() == Ok::<RunnerHostView, VecStoreErrorView>(v),
{
}


/// An user as its file holds it: references by position, enumerations by
/// name.
#[derive(Debug)]
pub struct UserJson {
    pub handle: String,
    pub name: String,
    pub email: Option<String>,
    pub avatar: Option<BlobReferenceJson>,
    pub forge_id: u64,
    pub instance: usize,
    pub cim_fetched_at: Timestamp,
    pub cim_refreshed_at: Timestamp,
}

impl UserJson {
    /// Whether the record holds what `v` says.
    pub open spec fn describes(self, v: UserView) -> bool {
        &&& self.handle@ == v.handle
        &&& self.name@ == v.name
        &&& opt_text(self.email) == v.email
        &&& opt_blob_described(self.avatar, v.avatar)
        &&& self.forge_id == v.forge_id
        &&& v.instance.idx == self.instance
        &&& self.cim_fetched_at == v.cim_fetched_at
        &&& self.cim_refreshed_at == v.cim_refreshed_at
    }

    /// What the record says, or the error for the first of its names that
    /// names nothing.
    pub open spec fn spec_create(self) -> Result<UserView, VecStoreErrorView> {
        match opt_blob_created(self.avatar) {
            Err(e) => Err(e),
            Ok(avatar) => Ok(
                UserView {
                    handle: self.handle@,
                    name: self.name@,
                    email: opt_text(self.email),
                    avatar,
                    forge_id: self.forge_id,
                    instance: VecIndex::at(self.instance),
                    cim_fetched_at: self.cim_fetched_at,
                    cim_refreshed_at: self.cim_refreshed_at,
                },
            ),
        }
    }

    /// The record that holds what `o` says.
    pub fn convert_to_json(o: &User) -> (r: Self)
        ensures
            r.describes(o@),
    {
        UserJson {
            handle: o.handle.clone(),
            name: o.name.clone(),
            email: clone_opt_string(&o.email),
            avatar: blob_to_json(&o.avatar),
            forge_id: o.forge_id,
            instance: o.instance.idx,
            cim_fetched_at: o.cim_fetched_at,
            cim_refreshed_at: o.cim_refreshed_at,
        }
    }

    /// The user that the record holds, or the error for the first of its names
    /// that names nothing.
    pub fn create_from_json(&self) -> (r: Result<User, VecStoreError>)
        ensures
            created(r) == self.spec_create(),
    {
        let avatar = match blob_from_json(&self.avatar) {
            Ok(v) => v,
            Err(e) => return Err(e),
        };
        Ok(
            User {
                handle: self.handle.clone(),
                name: self.name.clone(),
                email: clone_opt_string(&self.email),
                avatar,
                forge_id: self.forge_id,
                instance: VecIndex::new(self.instance),
                cim_fetched_at: self.cim_fetched_at,
                cim_refreshed_at: self.cim_refreshed_at,
            },
        )
    }
}

/// An user is read back from the record that was written for it.
pub proof fn lemma_user_json_round_trip(record: UserJson, v: UserView)
    requires
        record.describes(v),
    ensures
        record.spec_create() == Ok::<UserView, VecStoreErrorView>(v),
{
    lemma_opt_blob_round_trip(record.avatar, v.avatar);
}

} // verus!
