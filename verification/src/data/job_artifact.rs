//! Job artifacts.

use vstd::prelude::*;
use crate::data::blob::{clone_opt_blob, opt_blob_view, BlobReference, BlobReferenceView};
use crate::data::job::Job;
use crate::objects::vec::VecIndex;
use crate::text::str_eq;
use crate::text::{joined, strip_last, strip_prefix};
use crate::time::Timestamp;

verus! {

/// The state of an artifact within the monitoring infrastructure.
#[derive(Debug, Clone, Copy, PartialEq, Eq, Structural)]
pub enum ArtifactState {
    /// The state is unknown.
    Unknown,
    /// The artifact is pending.
    Pending,
    /// The artifact has expired from the forge.
    Expired,
    /// The artifact is present on the forge.
    Present,
    /// The artifact is stored in local persistence.
    Stored,
}

impl ArtifactState {
    /// The canonical name of the value.
    pub open spec fn spec_name(self) -> Seq<char> {
        match self {
            ArtifactState::Unknown => "unknown"@,
            ArtifactState::Pending => "pending"@,
            ArtifactState::Expired => "expired"@,
            ArtifactState::Present => "present"@,
            ArtifactState::Stored => "stored"@,
        }
    }

    /// The value with a given canonical name, if there is one.
    pub open spec fn spec_from_name(name: Seq<char>) -> Option<ArtifactState> {
        if name == "unknown"@ {
            Some(ArtifactState::Unknown)
        } else if name == "pending"@ {
            Some(ArtifactState::Pending)
        } else if name == "expired"@ {
            Some(ArtifactState::Expired)
        } else if name == "present"@ {
            Some(ArtifactState::Present)
        } else if name == "stored"@ {
            Some(ArtifactState::Stored)
        } else {
            None
        }
    }

    /// The canonical name of the value.
    pub fn name(self) -> (r: &'static str)
        ensures
            r@ == self.spec_name(),
    {
        match self {
            ArtifactState::Unknown => "unknown",
            ArtifactState::Pending => "pending",
            ArtifactState::Expired => "expired",
            ArtifactState::Present => "present",
            ArtifactState::Stored => "stored",
        }
    }

    /// The value named by `name`.
    pub fn from_name(name: &str) -> (r: Option<ArtifactState>)
        ensures
            r == Self::spec_from_name(name@),
    {
        if str_eq(name, "unknown") {
            Some(ArtifactState::Unknown)
        } else if str_eq(name, "pending") {
            Some(ArtifactState::Pending)
        } else if str_eq(name, "expired") {
            Some(ArtifactState::Expired)
        } else if str_eq(name, "present") {
            Some(ArtifactState::Present)
        } else if str_eq(name, "stored") {
            Some(ArtifactState::Stored)
        } else {
            None
        }
    }
}

/// Every value is found again by its canonical name.
pub proof fn lemma_artifact_state_name_round_trip(value: ArtifactState)
    ensures
        ArtifactState::spec_from_name(value.spec_name()) == Some(value),
{
    reveal_strlit("unknown");
    reveal_strlit("pending");
    reveal_strlit("expired");
    reveal_strlit("present");
    reveal_strlit("stored");
    assert("unknown"@.len() == 7);
    assert("pending"@.len() == 7);
    assert("expired"@.len() == 7);
    assert("present"@.len() == 7);
    assert("stored"@.len() == 6);
    assert("unknown"@[0] != "pending"@[0]);
    assert("unknown"@[0] != "expired"@[0]);
    assert("pending"@[0] != "expired"@[0]);
    assert("unknown"@[0] != "present"@[0]);
    assert("pending"@[1] != "present"@[1]);
    assert("expired"@[0] != "present"@[0]);
}

/// A classification of an artifact.
#[derive(Debug, PartialEq, Eq)]
pub enum ArtifactKind {
    /// The primary log of the job.
    JobLog,
    /// An archive created by the job.
    Archive,
    /// A file from an archive created by the job.
    ArchiveFile {
        /// The path of the file within the archive.
        path: String,
    },
    /// A JUnit report.
    JUnit,
    /// A set of annotations for the job.
    Annotations,
    /// A custom artifact.
    Custom {
        /// The name of the artifact.
        name: String,
    },
}

/// What an [`ArtifactKind`] says.
pub enum ArtifactKindView {
    JobLog,
    Archive,
    ArchiveFile { path: Seq<char> },
    JUnit,
    Annotations,
    Custom { name: Seq<char> },
}

impl View for ArtifactKind {
    type V = ArtifactKindView;

    open spec fn view(&self) -> ArtifactKindView {
        match self {
            ArtifactKind::JobLog => ArtifactKindView::JobLog,
            ArtifactKind::Archive => ArtifactKindView::Archive,
            ArtifactKind::ArchiveFile { path } => ArtifactKindView::ArchiveFile { path: path@ },
            ArtifactKind::JUnit => ArtifactKindView::JUnit,
            ArtifactKind::Annotations => ArtifactKindView::Annotations,
            ArtifactKind::Custom { name } => ArtifactKindView::Custom { name: name@ },
        }
    }
}

impl Clone for ArtifactKind {
    fn clone(&self) -> (r: Self)
        ensures
            r@ == self@,
    {
        match self {
            ArtifactKind::JobLog => ArtifactKind::JobLog,
            ArtifactKind::Archive => ArtifactKind::Archive,
            ArtifactKind::ArchiveFile { path } => ArtifactKind::ArchiveFile { path: path.clone() },
            ArtifactKind::JUnit => ArtifactKind::JUnit,
            ArtifactKind::Annotations => ArtifactKind::Annotations,
            ArtifactKind::Custom { name } => ArtifactKind::Custom { name: name.clone() },
        }
    }
}

impl ArtifactKindView {
    /// The kind written as a string.
    pub open spec fn as_str(self) -> Seq<char> {
        match self {
            ArtifactKindView::JobLog => "job_log"@,
            ArtifactKindView::Archive => "archive"@,
            ArtifactKindView::ArchiveFile { path } => "archive_file("@ + path + ")"@,
            ArtifactKindView::JUnit => "junit"@,
            ArtifactKindView::Annotations => "annotations"@,
            ArtifactKindView::Custom { name } => "custom("@ + name + ")"@,
        }
    }

    /// The kind that a string names: one of the four plain names, or
    /// `archive_file(..)` or `custom(..)` with anything between the brackets.
    pub open spec fn parse(s: Seq<char>) -> Option<ArtifactKindView> {
        if s == "job_log"@ {
            Some(ArtifactKindView::JobLog)
        } else if s == "archive"@ {
            Some(ArtifactKindView::Archive)
        } else if s == "junit"@ {
            Some(ArtifactKindView::JUnit)
        } else if s == "annotations"@ {
            Some(ArtifactKindView::Annotations)
        } else if s.len() > 0 && s.last() == ')' {
            let inner = s.drop_last();
            if "archive_file("@.is_prefix_of(inner) {
                Some(ArtifactKindView::ArchiveFile { path: inner.skip("archive_file("@.len() as int) })
            } else if "custom("@.is_prefix_of(inner) {
                Some(ArtifactKindView::Custom { name: inner.skip("custom("@.len() as int) })
            } else {
                None
            }
        } else {
            None
        }
    }
}

/// What an optional kind says.
pub open spec fn opt_kind_view(o: Option<ArtifactKind>) -> Option<ArtifactKindView> {
    match o {
        Some(k) => Some(k@),
        None => None,
    }
}

impl ArtifactKind {
    /// A file at `path` within the job's archive.
    pub fn archive_file(path: &str) -> (r: Self)
        ensures
            r@ == (ArtifactKindView::ArchiveFile { path: path@ }),
    {
        ArtifactKind::ArchiveFile { path: path.to_owned() }
    }

    /// A custom artifact called `name`.
    pub fn custom(name: &str) -> (r: Self)
        ensures
            r@ == (ArtifactKindView::Custom { name: name@ }),
    {
        ArtifactKind::Custom { name: name.to_owned() }
    }

    /// The kind built as a string.
    pub fn as_str(&self) -> (r: String)
        ensures
            r@ == self@.as_str(),
    {
        match self {
            ArtifactKind::JobLog => "job_log".to_owned(),
            ArtifactKind::Archive => "archive".to_owned(),
            ArtifactKind::ArchiveFile { path } => {
                let mut r = joined("archive_file(", path.as_str());
                r.append(")");
                r
            },
            ArtifactKind::JUnit => "junit".to_owned(),
            ArtifactKind::Annotations => "annotations".to_owned(),
            ArtifactKind::Custom { name } => {
                let mut r = joined("custom(", name.as_str());
                r.append(")");
                r
            },
        }
    }

    /// Parse a kind from a string.
    pub fn parse(s: &str) -> (r: Option<Self>)
        ensures
            opt_kind_view(r) == ArtifactKindView::parse(s@),
    {
        if str_eq(s, "job_log") {
            return Some(ArtifactKind::JobLog);
        }
        if str_eq(s, "archive") {
            return Some(ArtifactKind::Archive);
        }
        if str_eq(s, "junit") {
            return Some(ArtifactKind::JUnit);
        }
        if str_eq(s, "annotations") {
            return Some(ArtifactKind::Annotations);
        }
        match strip_last(s, ')') {
            None => None,
            Some(inner) => {
                assert(inner@ == s@.drop_last());
                match strip_prefix(inner, "archive_file(") {
                    Some(path) => {
                        assert(path@ == inner@.skip("archive_file("@.len() as int));
                        Some(Self::archive_file(path))
                    },
                    None => match strip_prefix(inner, "custom(") {
                        Some(name) => {
                            assert(name@ == inner@.skip("custom("@.len() as int));
                            Some(Self::custom(name))
                        },
                        None => None,
                    },
                }
            },
        }
    }
}

/// Every kind is read back from its string.
pub proof fn lemma_artifact_kind_round_trip(kind: ArtifactKindView)
    ensures
        ArtifactKindView::parse(kind.as_str()) == Some(kind),
{
    reveal_strlit("job_log");
    reveal_strlit("archive");
    reveal_strlit("junit");
    reveal_strlit("annotations");
    reveal_strlit("archive_file(");
    reveal_strlit("custom(");
    reveal_strlit(")");
    assert("job_log"@.len() == 7);
    assert("archive"@.len() == 7);
    assert("junit"@.len() == 5);
    assert("annotations"@.len() == 11);
    let s = kind.as_str();
    match kind {
        ArtifactKindView::JobLog => {
        },
        ArtifactKindView::Archive => {
            assert("job_log"@[0] != "archive"@[0]);
        },
        ArtifactKindView::JUnit => {
        },
        ArtifactKindView::Annotations => {
        },
        ArtifactKindView::ArchiveFile { path } => {
            let head = "archive_file("@;
            assert(s == head + path + ")"@);
            assert(s.len() == head.len() + path.len() + 1);
            assert(s[0] == 'a');
            assert(s[1] == 'r');
            assert(s[7] == '_');
            assert(s.last() == ')');
            assert(s != "job_log"@);
            assert(s != "archive"@);
            assert(s != "junit"@);
            assert("annotations"@[1] == 'n');
            assert(s != "annotations"@);
            let inner = s.drop_last();
            assert(inner =~= head + path);
            assert(inner.subrange(0, head.len() as int) =~= head);
            assert(inner.skip(head.len() as int) =~= path);
        },
        ArtifactKindView::Custom { name } => {
            let head = "custom("@;
            assert(s == head + name + ")"@);
            assert(s.len() == head.len() + name.len() + 1);
            assert(s[0] == 'c');
            assert(s.last() == ')');
            assert(s != "job_log"@);
            assert(s != "archive"@);
            assert(s != "junit"@);
            assert(s != "annotations"@);
            let inner = s.drop_last();
            assert(inner =~= head + name);
            assert(inner.subrange(0, head.len() as int) =~= head);
            assert(inner.skip(head.len() as int) =~= name);
            assert(inner[0] == 'c');
            assert("archive_file("@[0] == 'a');
            assert(!"archive_file("@.is_prefix_of(inner)) by {
                if "archive_file("@.is_prefix_of(inner) {
                    assert(inner.subrange(0, "archive_file("@.len() as int)[0] == inner[0]);
                }
            }
        },
    }
}

/// When an artifact expires from the forge.
#[derive(Debug, Clone, Copy, PartialEq, Eq, Structural)]
pub enum ArtifactExpiration {
    /// An expiration is not known.
    Unknown,
    /// The artifact never expires.
    Never,
    /// The artifact expires at a given point in time.
    At(Timestamp),
}

impl ArtifactExpiration {
    /// The canonical name of an expiration that is not an instant.
    pub open spec fn spec_name(self) -> Option<Seq<char>> {
        match self {
            ArtifactExpiration::Unknown => Some("unknown"@),
            ArtifactExpiration::Never => Some("never"@),
            ArtifactExpiration::At(_) => None,
        }
    }

    /// The expiration with a given canonical name, if there is one.
    pub open spec fn spec_from_name(name: Seq<char>) -> Option<ArtifactExpiration> {
        if name == "unknown"@ {
            Some(ArtifactExpiration::Unknown)
        } else if name == "never"@ {
            Some(ArtifactExpiration::Never)
        } else {
            None
        }
    }

    /// The canonical name of the expiration; an instant has none.
    pub fn name(self) -> (r: Option<&'static str>)
        ensures
            match r {
                Some(n) => self.spec_name() == Some(n@),
                None => self.spec_name() is None,
            },
    {
        match self {
            ArtifactExpiration::Unknown => Some("unknown"),
            ArtifactExpiration::Never => Some("never"),
            ArtifactExpiration::At(_) => None,
        }
    }

    /// The expiration named by `name`; no instant is.
    pub fn from_name(name: &str) -> (r: Option<ArtifactExpiration>)
        ensures
            r == Self::spec_from_name(name@),
    {
        if str_eq(name, "unknown") {
            Some(ArtifactExpiration::Unknown)
        } else if str_eq(name, "never") {
            Some(ArtifactExpiration::Never)
        } else {
            None
        }
    }
}

/// An expiration that has a canonical name is found again by it.
pub proof fn lemma_artifact_expiration_name_round_trip(value: ArtifactExpiration)
    requires
        !(value is At),
    ensures
        ArtifactExpiration::spec_from_name(value.spec_name().unwrap()) == Some(value),
{
    reveal_strlit("unknown");
    reveal_strlit("never");
    assert("unknown"@.len() == 7);
    assert("never"@.len() == 5);
}

/// An artifact from a job.
#[derive(Debug)]
pub struct JobArtifact {
    /// The state of the job artifact.
    pub state: ArtifactState,
    /// The type of job artifact.
    pub kind: ArtifactKind,
    /// When the artifact expires from the forge.
    pub expire_at: ArtifactExpiration,
    /// The name of the artifact.
    pub name: String,
    /// The reference to the blob.
    pub blob: Option<BlobReference>,
    /// The size of the artifact.
    pub size: u64,
    /// A unique ID for the artifact.
    pub unique_id: u64,
    /// The job the artifact is for.
    pub job: VecIndex<Job>,
}

/// What a [`JobArtifact`] says.
pub struct JobArtifactView {
    pub state: ArtifactState,
    pub kind: ArtifactKindView,
    pub expire_at: ArtifactExpiration,
    pub name: Seq<char>,
    pub blob: Option<BlobReferenceView>,
    pub size: u64,
    pub unique_id: u64,
    pub job: VecIndex<Job>,
}

impl View for JobArtifact {
    type V = JobArtifactView;

    open spec fn view(&self) -> JobArtifactView {
        JobArtifactView {
            state: self.state,
            kind: self.kind@,
            expire_at: self.expire_at,
            name: self.name@,
            blob: opt_blob_view(self.blob),
            size: self.size,
            unique_id: self.unique_id,
            job: self.job,
        }
    }
}

impl Clone for JobArtifact {
    fn clone(&self) -> (r: Self)
        ensures
            r@ == self@,
    {
        JobArtifact {
            state: self.state,
            kind: self.kind.clone(),
            expire_at: self.expire_at,
            name: self.name.clone(),
            blob: clone_opt_blob(&self.blob),
            size: self.size,
            unique_id: self.unique_id,
            job: self.job,
        }
    }
}

/// Why a [`JobArtifact`] could not be built.
#[derive(Debug)]
pub enum JobArtifactBuilderError {
    /// A required field was never set.
    UninitializedField(&'static str),
    /// The fields that were set do not make a valid value.
    ValidationError(String),
}

/// Collects the fields of a [`JobArtifact`].
#[derive(Debug)]
pub struct JobArtifactBuilder {
    pub state: Option<ArtifactState>,
    pub kind: Option<ArtifactKind>,
    pub expire_at: Option<ArtifactExpiration>,
    pub name: Option<String>,
    pub blob: Option<Option<BlobReference>>,
    pub size: Option<u64>,
    pub unique_id: Option<u64>,
    pub job: Option<VecIndex<Job>>,
}

impl JobArtifact {
    /// Create a builder for the structure.
    pub fn builder() -> (r: JobArtifactBuilder)
        ensures
            r == JobArtifactBuilder::empty(),
    {
        JobArtifactBuilder {
            state: None,
            kind: None,
            expire_at: None,
            name: None,
            blob: None,
            size: None,
            unique_id: None,
            job: None,
        }
    }
}

impl JobArtifactBuilder {
    /// The builder with no field set.
    pub open spec fn empty() -> JobArtifactBuilder {
        JobArtifactBuilder {
            state: None,
            kind: None,
            expire_at: None,
            name: None,
            blob: None,
            size: None,
            unique_id: None,
            job: None,
        }
    }

    /// The first required field, in declaration order, that is not set.
    pub open spec fn missing(self) -> Option<Seq<char>> {
        if self.kind is None {
            Some("kind"@)
        } else if self.name is None {
            Some("name"@)
        } else if self.size is None {
            Some("size"@)
        } else if self.unique_id is None {
            Some("unique_id"@)
        } else if self.job is None {
            Some("job"@)
        } else {
            None
        }
    }

    /// What the builder makes once every required field is set.
    pub open spec fn record(self) -> JobArtifactView {
        JobArtifactView {
            state: match self.state {
                Some(v) => v,
                None => ArtifactState::Unknown,
            },
            kind: self.kind.unwrap()@,
            expire_at: match self.expire_at {
                Some(v) => v,
                None => ArtifactExpiration::Unknown,
            },
            name: self.name.unwrap()@,
            blob: match self.blob {
                Some(v) => opt_blob_view(v),
                None => None,
            },
            size: self.size.unwrap(),
            unique_id: self.unique_id.unwrap(),
            job: self.job.unwrap(),
        }
    }

    /// The state of the job artifact.
    pub fn state(self, value: ArtifactState) -> (r: Self)
        ensures
            r == (JobArtifactBuilder { state: Some(value), ..self }),
    {
        JobArtifactBuilder { state: Some(value), ..self }
    }

    /// The type of job artifact.
    pub fn kind(self, value: ArtifactKind) -> (r: Self)
        ensures
            r == (JobArtifactBuilder { kind: Some(value), ..self }),
    {
        JobArtifactBuilder { kind: Some(value), ..self }
    }

    /// When the artifact expires from the forge.
    pub fn expire_at(self, value: ArtifactExpiration) -> (r: Self)
        ensures
            r == (JobArtifactBuilder { expire_at: Some(value), ..self }),
    {
        JobArtifactBuilder { expire_at: Some(value), ..self }
    }

    /// The name of the artifact.
    pub fn name(self, value: &str) -> (r: Self)
        ensures
            r.name is Some,
            r.name.unwrap()@ == value@,
            r == (JobArtifactBuilder { name: r.name, ..self }),
    {
        JobArtifactBuilder { name: Some(value.to_owned()), ..self }
    }

    /// The reference to the blob.
    pub fn blob(self, value: Option<BlobReference>) -> (r: Self)
        ensures
            r == (JobArtifactBuilder { blob: Some(value), ..self }),
    {
        JobArtifactBuilder { blob: Some(value), ..self }
    }

    /// The size of the artifact.
    pub fn size(self, value: u64) -> (r: Self)
        ensures
            r == (JobArtifactBuilder { size: Some(value), ..self }),
    {
        JobArtifactBuilder { size: Some(value), ..self }
    }

    /// A unique ID for the artifact.
    pub fn unique_id(self, value: u64) -> (r: Self)
        ensures
            r == (JobArtifactBuilder { unique_id: Some(value), ..self }),
    {
        JobArtifactBuilder { unique_id: Some(value), ..self }
    }

    /// The job the artifact is for.
    pub fn job(self, value: VecIndex<Job>) -> (r: Self)
        ensures
            r == (JobArtifactBuilder { job: Some(value), ..self }),
    {
        JobArtifactBuilder { job: Some(value), ..self }
    }

    /// Build the job artifact, or name the first required field that is missing.
    pub fn build(self) -> (r: Result<JobArtifact, JobArtifactBuilderError>)
        ensures
            match r {
                Ok(v) => self.missing() is None && v@ == self.record(),
                Err(e) => e matches JobArtifactBuilderError::UninitializedField(f)
                    && self.missing() == Some(f@),
            },
    {
        let kind = match self.kind {
            Some(v) => v,
            None => return Err(JobArtifactBuilderError::UninitializedField("kind")),
        };
        let name = match self.name {
            Some(v) => v,
            None => return Err(JobArtifactBuilderError::UninitializedField("name")),
        };
        let size = match self.size {
            Some(v) => v,
            None => return Err(JobArtifactBuilderError::UninitializedField("size")),
        };
        let unique_id = match self.unique_id {
            Some(v) => v,
            None => return Err(JobArtifactBuilderError::UninitializedField("unique_id")),
        };
        let job = match self.job {
            Some(v) => v,
            None => return Err(JobArtifactBuilderError::UninitializedField("job")),
        };
        let state = match self.state {
            Some(v) => v,
            None => ArtifactState::Unknown,
        };
        let expire_at = match self.expire_at {
            Some(v) => v,
            None => ArtifactExpiration::Unknown,
        };
        let blob = match self.blob {
            Some(v) => v,
            None => None,
        };
        Ok(JobArtifact {
            state,
            kind,
            expire_at,
            name,
            blob,
            size,
            unique_id,
            job,
        })
    }
}

} // verus!
