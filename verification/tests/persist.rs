use ci_monitor::data::job_artifact::ArtifactState;
use ci_monitor::data::{
    ArtifactExpiration, ArtifactKind, Binary64, Blob, BlobReference, ContentHash, Deployment,
    DeploymentStatus, Environment, EnvironmentState, EnvironmentTier, Instance, Job, JobArtifact,
    JobState, MergeRequest, MergeRequestStatus, Pipeline, PipelineSchedule, PipelineSource,
    PipelineStatus, PipelineVariable, PipelineVariableType, PipelineVariables, Project, Runner,
    RunnerHost, RunnerProtectionLevel, RunnerType, User,
};
use ci_monitor::objects::vec::json::{ArtifactExpirationJson, ProjectJson};
use ci_monitor::objects::vec::persist::{StoreRecords, INDEX_NAME, LATEST_VERSION};
use ci_monitor::objects::vec::{VecIndex, VecLookup};
use ci_monitor::time::Timestamp;
use ci_monitor::{VecStore, VecStoreError};

fn at(secs: i64) -> Timestamp {
    Timestamp::new(secs, 500)
}

/// A store with a record of every type, and every kind of reference in use.
fn populated() -> VecLookup {
    let mut store = VecLookup::default();
    let instance = store.store_instance(
        Instance::builder().unique_id(0).forge("gitlab").url("url").build().unwrap(),
    );
    let host = store.store_runner_host(
        RunnerHost::builder().name("host").unique_id(4).os("linux").build_at(at(1)).unwrap(),
    );
    let mut user = User::builder().forge_id(5).instance(instance).build_at(at(2)).unwrap();
    user.email = Some("user@example.com".to_string());
    user.avatar = Some(BlobReference::for_blob(&Blob::new(vec![1]), ContentHash::Sha512));
    let user = store.store_user(user);
    let project = store.store_project(
        Project::builder().forge_id(13).instance(instance).name("name").build_at(at(3)).unwrap(),
    );
    let other_project = store.store_project(
        Project::builder().forge_id(14).instance(instance).build_at(at(3)).unwrap(),
    );
    let runner = store.store_runner(
        Runner::builder()
            .forge_id(3)
            .instance(instance)
            .runner_type(RunnerType::Project)
            .protection_level(RunnerProtectionLevel::Any)
            .projects(vec![other_project, project])
            .runner_host(Some(host))
            .tags(vec!["a".to_string(), "b".to_string()])
            .maximum_timeout(Some(60))
            .build_at(at(4))
            .unwrap(),
    );
    let merge_request = store.store_merge_request(
        MergeRequest::builder()
            .id(2)
            .source_project(other_project)
            .target_project(project)
            .forge_id(900)
            .state(MergeRequestStatus::Closed)
            .author(user)
            .url("mr")
            .build_at(at(5))
            .unwrap(),
    );
    let mut variables = PipelineVariables::new();
    variables.insert(
        "KEY".to_string(),
        PipelineVariable::builder()
            .value("value")
            .type_(PipelineVariableType::File)
            .protected(true)
            .environment(Some("production".to_string()))
            .build()
            .unwrap(),
    );
    variables.insert(
        "A".to_string(),
        PipelineVariable::builder().value("").type_(PipelineVariableType::String).build().unwrap(),
    );
    let schedule = store.store_pipeline_schedule(
        PipelineSchedule::builder()
            .project(project)
            .ref_("main")
            .forge_id(8)
            .created_at(at(6))
            .updated_at(at(7))
            .owner(user)
            .variables(variables.clone())
            .next_run(Some(at(8)))
            .build_at(at(9))
            .unwrap(),
    );
    // The child stands before its parent.
    let child = Pipeline::builder()
        .project(project)
        .sha("1111")
        .source(PipelineSource::ParentPipeline)
        .status(PipelineStatus::TimedOut)
        .forge_id(51)
        .url("child")
        .created_at(at(10))
        .updated_at(at(11))
        .parent_pipeline(Some(VecIndex::new(1)))
        .coverage(Some(Binary64::from_bits(87.3f64.to_bits())))
        .build_at(at(12))
        .unwrap();
    store.store_pipeline(child);
    let pipeline = store.store_pipeline(
        Pipeline::builder()
            .project(project)
            .sha("0000")
            .source(PipelineSource::Schedule)
            .status(PipelineStatus::Success)
            .forge_id(50)
            .url("pipeline")
            .created_at(at(10))
            .updated_at(at(11))
            .schedule(Some(schedule))
            .merge_request(Some(merge_request))
            .user(Some(user))
            .variables(variables)
            .name(Some("nightly".to_string()))
            .build_at(at(12))
            .unwrap(),
    );
    assert_eq!(pipeline.idx, 1);
    let environment = store.store_environment(
        Environment::builder()
            .name("production")
            .state(EnvironmentState::Stopping)
            .tier(EnvironmentTier::Production)
            .forge_id(6)
            .project(project)
            .created_at(at(13))
            .updated_at(at(14))
            .build_at(at(15))
            .unwrap(),
    );
    let deployment = store.store_deployment(
        Deployment::builder()
            .pipeline(pipeline)
            .environment(environment)
            .forge_id(7)
            .created_at(at(16))
            .updated_at(at(17))
            .status(DeploymentStatus::Blocked)
            .build_at(at(18))
            .unwrap(),
    );
    let job = store.store_job(
        Job::builder()
            .user(user)
            .state(JobState::Manual)
            .created_at(at(19))
            .forge_id(100)
            .pipeline(pipeline)
            .runner(Some(runner))
            .deployment(Some(deployment))
            .queued_duration(Some(Binary64::from_bits(1.5f64.to_bits())))
            .build_at(at(20))
            .unwrap(),
    );
    for (id, kind, expire_at) in [
        (0u64, ArtifactKind::JobLog, ArtifactExpiration::Never),
        (1, ArtifactKind::custom("report"), ArtifactExpiration::At(at(99))),
        (2, ArtifactKind::archive_file("a/b"), ArtifactExpiration::Unknown),
    ] {
        store.store_job_artifact(
            JobArtifact::builder()
                .kind(kind)
                .name("artifact")
                .size(1000)
                .unique_id(id)
                .job(job)
                .state(ArtifactState::Present)
                .expire_at(expire_at)
                .blob(Some(BlobReference::for_blob(&Blob::new(vec![2]), ContentHash::Sha256)))
                .build()
                .unwrap(),
        );
    }
    store
}

#[test]
fn store_and_index_names() {
    assert_eq!(INDEX_NAME, "vecindex.json");
    assert_eq!(LATEST_VERSION, 0);
    let store = populated();
    let index = VecStore::index(&store);
    assert_eq!(index.version, 0);
    assert_eq!(index.counts, store.counts());
    assert_eq!(index.counts.pipelines, 2);
    assert_eq!(index.counts.job_artifacts, 3);
}

#[test]
fn records_hold_names_and_positions() {
    let store = populated();
    let records = VecStore::store(&store);
    assert_eq!(records.projects.len(), 2);
    assert_eq!(records.projects[0].forge_id, 13);
    assert_eq!(records.projects[0].instance, 0);
    assert_eq!(records.projects[0].name, "name");
    assert_eq!(records.runners[0].projects, vec![1, 0]);
    assert_eq!(records.runners[0].runner_host, Some(0));
    assert_eq!(records.runners[0].runner_type, "project");
    assert_eq!(records.runners[0].protection_level, "any");
    assert_eq!(records.merge_requests[0].state, "closed");
    assert_eq!(records.merge_requests[0].source_project, 1);
    assert_eq!(records.pipelines[0].parent_pipeline, Some(1));
    assert_eq!(records.pipelines[0].status, "timed_out");
    assert_eq!(records.pipelines[0].source, "parent_pipeline");
    assert_eq!(records.pipelines[1].schedule, Some(0));
    assert_eq!(records.pipelines[1].variables.variables.len(), 2);
    assert_eq!(records.pipelines[1].variables.variables[0].0, "KEY");
    assert_eq!(records.pipelines[1].variables.variables[0].1.type_, "file");
    assert_eq!(records.environments[0].state, "stopping");
    assert_eq!(records.environments[0].tier, "production");
    assert_eq!(records.deployments[0].status, "blocked");
    assert_eq!(records.jobs[0].state, "manual");
    assert_eq!(records.job_artifacts[0].kind, "job_log");
    assert_eq!(records.job_artifacts[1].kind, "custom(report)");
    assert_eq!(records.job_artifacts[2].kind, "archive_file(a/b)");
    assert_eq!(records.job_artifacts[0].state, "present");
    assert!(matches!(&records.job_artifacts[0].expire_at, ArtifactExpirationJson::Name(n) if n == "never"));
    assert!(matches!(&records.job_artifacts[1].expire_at, ArtifactExpirationJson::At(t) if *t == at(99)));
    assert!(matches!(&records.job_artifacts[2].expire_at, ArtifactExpirationJson::Name(n) if n == "unknown"));
    assert_eq!(records.job_artifacts[0].blob.as_ref().unwrap().algo, "sha256");
    assert_eq!(records.users[0].avatar.as_ref().unwrap().algo, "sha512");
}

#[test]
fn store_round_trip() {
    let store = populated();
    let records = VecStore::store(&store);
    let loaded = VecStore::load(LATEST_VERSION, &records).unwrap();
    assert_eq!(loaded.counts(), store.counts());
    // What was loaded writes the same records again.
    assert_eq!(format!("{:?}", VecStore::store(&loaded)), format!("{:?}", records));
    assert_eq!(format!("{:?}", loaded), format!("{:?}", store));
    let project = loaded.lookup_project(&VecIndex::new(0)).unwrap();
    assert_eq!(project.cim_fetched_at, at(3));
    assert_eq!(project.cim_refreshed_at, at(3));
    let pipeline = loaded.lookup_pipeline(&VecIndex::new(0)).unwrap();
    assert_eq!(pipeline.coverage.map(|c| f64::from_bits(c.to_bits())), Some(87.3));
    assert_eq!(pipeline.parent_pipeline.map(|p| p.idx), Some(1));
    let artifact = loaded.lookup_job_artifact(&VecIndex::new(1)).unwrap();
    assert_eq!(artifact.kind, ArtifactKind::Custom { name: "report".to_string() });
    assert_eq!(artifact.expire_at, ArtifactExpiration::At(at(99)));
}

#[test]
fn load_refuses_other_versions() {
    let records = VecStore::store(&VecLookup::default());
    match VecStore::load(1, &records) {
        Err(VecStoreError::UnsupportedVersion { version }) => assert_eq!(version, 1),
        other => panic!("unexpected outcome: {:?}", other),
    }
    assert!(VecStore::check_version(0).is_ok());
    assert!(matches!(
        VecStore::check_version(7),
        Err(VecStoreError::UnsupportedVersion { version: 7 })
    ));
    assert!(VecStore::load(0, &records).unwrap().is_empty());
}

#[test]
fn load_names_the_missing_index() {
    let store = populated();
    let mut records = VecStore::store(&store);
    // The count of instances is 1: index 1 is the first that is missing.
    records.projects[1].instance = 1;
    match VecStore::load(LATEST_VERSION, &records) {
        Err(VecStoreError::MissingIndex { missing_type, missing_index, from_type, from_index }) => {
            assert_eq!(missing_type, "instance");
            assert_eq!(missing_index, 1);
            assert_eq!(from_type, "project");
            assert_eq!(from_index, 1);
        },
        other => panic!("unexpected outcome: {:?}", other),
    }

    let mut records = VecStore::store(&store);
    records.jobs[0].deployment = Some(5);
    records.job_artifacts[2].job = 9;
    match VecStore::load(LATEST_VERSION, &records) {
        Err(VecStoreError::MissingIndex { missing_type, missing_index, from_type, from_index }) => {
            assert_eq!(missing_type, "deployment");
            assert_eq!(missing_index, 5);
            assert_eq!(from_type, "job");
            assert_eq!(from_index, 0);
        },
        other => panic!("unexpected outcome: {:?}", other),
    }

    let mut records = VecStore::store(&store);
    records.runners[0].projects = vec![1, 2, 3];
    match VecStore::load(LATEST_VERSION, &records) {
        Err(VecStoreError::MissingIndex { missing_type, missing_index, from_type, from_index }) => {
            assert_eq!(missing_type, "project");
            assert_eq!(missing_index, 2);
            assert_eq!(from_type, "runner");
            assert_eq!(from_index, 0);
        },
        other => panic!("unexpected outcome: {:?}", other),
    }

    let mut records = VecStore::store(&store);
    records.pipelines[1].parent_pipeline = Some(2);
    match VecStore::load(LATEST_VERSION, &records) {
        Err(VecStoreError::MissingIndex { missing_type, missing_index, from_type, from_index }) => {
            assert_eq!(missing_type, "pipeline");
            assert_eq!(missing_index, 2);
            assert_eq!(from_type, "pipeline");
            assert_eq!(from_index, 1);
        },
        other => panic!("unexpected outcome: {:?}", other),
    }
}

#[test]
fn load_refuses_unknown_names() {
    let store = populated();
    let mut records = VecStore::store(&store);
    records.environments[0].tier = "prod".to_string();
    match VecStore::load(LATEST_VERSION, &records) {
        Err(VecStoreError::InvalidEnumString { typename, value }) => {
            assert_eq!(typename, "EnvironmentTier");
            assert_eq!(value, "prod");
        },
        other => panic!("unexpected outcome: {:?}", other),
    }
    let mut records = VecStore::store(&store);
    records.job_artifacts[1].kind = "custom(report".to_string();
    records.job_artifacts[1].state = "gone".to_string();
    match VecStore::load(LATEST_VERSION, &records) {
        Err(VecStoreError::InvalidEnumString { typename, value }) => {
            assert_eq!(typename, "ArtifactKind");
            assert_eq!(value, "custom(report");
        },
        other => panic!("unexpected outcome: {:?}", other),
    }
    let mut records = VecStore::store(&store);
    records.job_artifacts[0].expire_at = ArtifactExpirationJson::Name("soon".to_string());
    assert!(matches!(
        VecStore::load(LATEST_VERSION, &records),
        Err(VecStoreError::InvalidEnumString { typename: "ArtifactExpiration", .. })
    ));
    let mut records = VecStore::store(&store);
    records.users[0].avatar.as_mut().unwrap().algo = "md5".to_string();
    assert!(matches!(
        VecStore::load(LATEST_VERSION, &records),
        Err(VecStoreError::InvalidEnumString { typename: "ContentHash", .. })
    ));
    let mut records = VecStore::store(&store);
    records.pipelines[1].variables.variables[1].1.type_ = "env_var".to_string();
    assert!(matches!(
        VecStore::load(LATEST_VERSION, &records),
        Err(VecStoreError::InvalidEnumString { typename: "PipelineVariableType", .. })
    ));
    // A name that names nothing is found before a missing index is.
    let mut records = VecStore::store(&store);
    records.projects[0].instance = 7;
    records.users[0].avatar.as_mut().unwrap().algo = "md5".to_string();
    assert!(matches!(
        VecStore::load(LATEST_VERSION, &records),
        Err(VecStoreError::InvalidEnumString { .. })
    ));
}

#[test]
fn a_record_reads_back() {
    let record = ProjectJson {
        name: "name".to_string(),
        forge_id: 13,
        url: "url".to_string(),
        instance: 4,
        instance_path: "path".to_string(),
        cim_fetched_at: at(1),
        cim_refreshed_at: at(2),
    };
    let project = record.create_from_json().unwrap();
    assert_eq!(project.instance.idx, 4);
    assert_eq!(project.cim_refreshed_at, at(2));
    let again = ProjectJson::convert_to_json(&project);
    assert_eq!(format!("{:?}", again), format!("{:?}", record));
}

#[test]
fn empty_records() {
    let empty: StoreRecords = VecStore::store(&VecLookup::default());
    assert!(empty.instances.is_empty() && empty.jobs.is_empty() && empty.users.is_empty());
}
