use ci_monitor::data::{
    Deployment, DeploymentStatus, Environment, EnvironmentState, EnvironmentTier, Instance, Job,
    JobState, Pipeline, PipelineSource, PipelineStatus, Project, User,
};
use ci_monitor::migrate::index_map::IndexMap;
use ci_monitor::migrate::objects::{get_data, migrate_with_maps};
use ci_monitor::objects::vec::{VecIndex, VecLookup};
use ci_monitor::time::Timestamp;
use ci_monitor::{migrate_object_store, MigrationError};

fn at(secs: i64) -> Timestamp {
    Timestamp::new(secs, 0)
}

fn pipeline(id: u64, project: VecIndex<Project>, parent: Option<usize>) -> Pipeline {
    Pipeline::builder()
        .project(project)
        .sha("0000")
        .source(PipelineSource::Push)
        .status(PipelineStatus::Success)
        .forge_id(id)
        .url("url")
        .created_at(at(1))
        .updated_at(at(2))
        .parent_pipeline(parent.map(VecIndex::new))
        .build_at(at(3))
        .unwrap()
}

/// A store whose pipelines hang on each other: 0 on 2, 2 on 1, and 3 on 0.
fn source() -> VecLookup {
    let mut store = VecLookup::default();
    let instance = store.store_instance(
        Instance::builder().unique_id(0).forge("gitlab").url("url").build().unwrap(),
    );
    let user = store.store_user(
        User::builder().forge_id(5).instance(instance).name("A User").build_at(at(1)).unwrap(),
    );
    let project = store.store_project(
        Project::builder().forge_id(13).instance(instance).build_at(at(2)).unwrap(),
    );
    store.store_pipeline(pipeline(50, project, Some(2)));
    store.store_pipeline(pipeline(51, project, None));
    store.store_pipeline(pipeline(52, project, Some(1)));
    store.store_pipeline(pipeline(53, project, Some(0)));
    let environment = store.store_environment(
        Environment::builder()
            .name("production")
            .state(EnvironmentState::Available)
            .tier(EnvironmentTier::Production)
            .forge_id(6)
            .project(project)
            .created_at(at(3))
            .updated_at(at(4))
            .build_at(at(5))
            .unwrap(),
    );
    let deployment = store.store_deployment(
        Deployment::builder()
            .pipeline(VecIndex::new(0))
            .environment(environment)
            .forge_id(7)
            .created_at(at(6))
            .updated_at(at(7))
            .status(DeploymentStatus::Success)
            .build_at(at(8))
            .unwrap(),
    );
    store.store_job(
        Job::builder()
            .user(user)
            .state(JobState::Success)
            .created_at(at(9))
            .forge_id(100)
            .pipeline(VecIndex::new(3))
            .deployment(Some(deployment))
            .build_at(at(10))
            .unwrap(),
    );
    store
}

#[test]
fn migration_keeps_counts_and_references() {
    let source = source();
    let mut sink = VecLookup::default();
    assert!(source.has_unique_ids());
    assert!(sink.is_empty());
    migrate_object_store(&source, &mut sink).unwrap();
    assert_eq!(sink.counts(), source.counts());
    assert!(sink.has_unique_ids());

    // The pipelines went over parents first: 51, then 52, 50 and 53.
    let at_sink = |id: u64| sink.find_pipeline(id).unwrap();
    assert_eq!(at_sink(51).idx, 0);
    assert_eq!(at_sink(52).idx, 1);
    assert_eq!(at_sink(50).idx, 2);
    assert_eq!(at_sink(53).idx, 3);
    let parent_of = |id: u64| {
        let pipeline = sink.lookup_pipeline(&at_sink(id)).unwrap();
        pipeline.parent_pipeline.map(|parent| sink.lookup_pipeline(&parent).unwrap().forge_id)
    };
    assert_eq!(parent_of(50), Some(52));
    assert_eq!(parent_of(51), None);
    assert_eq!(parent_of(52), Some(51));
    assert_eq!(parent_of(53), Some(50));

    // What refers to a pipeline refers to the same pipeline as before.
    let deployment = sink.lookup_deployment(&VecIndex::new(0)).unwrap();
    assert_eq!(sink.lookup_pipeline(&deployment.pipeline).unwrap().forge_id, 50);
    let job = sink.lookup_job(&VecIndex::new(0)).unwrap();
    assert_eq!(sink.lookup_pipeline(&job.pipeline).unwrap().forge_id, 53);
    assert_eq!(job.deployment.map(|d| d.idx), Some(0));
    assert_eq!(job.cim_fetched_at, at(10));
    assert_eq!(job.created_at, at(9));

    // The other records stand where they stood, as they were.
    let user = sink.lookup_user(&VecIndex::new(0)).unwrap();
    assert_eq!(user.name, "A User");
    assert_eq!(user.cim_fetched_at, at(1));
    assert_eq!(format!("{:?}", sink.users()), format!("{:?}", source.users()));
    assert_eq!(format!("{:?}", sink.projects()), format!("{:?}", source.projects()));
    assert_eq!(format!("{:?}", sink.environments()), format!("{:?}", source.environments()));
}

#[test]
fn migration_without_parents_is_the_identity() {
    let mut source = VecLookup::default();
    let instance = source.store_instance(
        Instance::builder().unique_id(0).forge("gitlab").url("url").build().unwrap(),
    );
    let project = source.store_project(
        Project::builder().forge_id(13).instance(instance).build_at(at(2)).unwrap(),
    );
    for id in [3u64, 1, 2] {
        source.store_pipeline(pipeline(id, project, None));
    }
    let mut sink = VecLookup::default();
    let maps = migrate_with_maps(&source, &mut sink).unwrap();
    assert_eq!(format!("{:?}", sink), format!("{:?}", source));
    for k in 0..3 {
        assert_eq!(maps.pipelines.get(&VecIndex::new(k)).unwrap().idx, k);
    }
    assert!(!maps.pipelines.contains_key(&VecIndex::new(3)));
    assert!(maps.projects.contains_key(&VecIndex::new(0)));
    assert!(!maps.jobs.contains_key(&VecIndex::new(0)));
}

#[test]
fn migration_refuses_dangling_references() {
    let mut source = VecLookup::default();
    source.store_project(
        Project::builder().forge_id(13).instance(VecIndex::new(4)).build_at(at(2)).unwrap(),
    );
    let mut sink = VecLookup::default();
    match migrate_object_store(&source, &mut sink) {
        Err(MigrationError::DanglingSourceIndex { type_, index }) => {
            assert_eq!(type_, "instance");
            assert_eq!(index, "4");
        },
        other => panic!("unexpected outcome: {:?}", other),
    }
}

#[test]
fn migration_refuses_a_pipeline_that_is_its_own_ancestor() {
    let mut source = VecLookup::default();
    let instance = source.store_instance(
        Instance::builder().unique_id(0).forge("gitlab").url("url").build().unwrap(),
    );
    let project = source.store_project(
        Project::builder().forge_id(13).instance(instance).build_at(at(2)).unwrap(),
    );
    source.store_pipeline(pipeline(50, project, None));
    source.store_pipeline(pipeline(51, project, Some(2)));
    source.store_pipeline(pipeline(52, project, Some(1)));
    let mut sink = VecLookup::default();
    match migrate_object_store(&source, &mut sink) {
        Err(MigrationError::DanglingSourceIndex { type_, index }) => {
            assert_eq!(type_, "pipeline");
            assert_eq!(index, "2");
        },
        other => panic!("unexpected outcome: {:?}", other),
    }
}

#[test]
fn index_map_entries() {
    let mut map: IndexMap<Project> = IndexMap::new();
    let key = VecIndex::new(12);
    assert!(!map.contains_key(&key));
    assert!(map.entry(&key).is_ok());
    match map.get(&key) {
        Err(MigrationError::DanglingSourceIndex { type_, index }) => {
            assert_eq!(type_, "project");
            assert_eq!(index, "12");
        },
        other => panic!("unexpected outcome: {:?}", other),
    }
    map.insert(key, VecIndex::new(3));
    assert!(map.contains_key(&key));
    assert_eq!(map.get(&key).unwrap().idx, 3);
    match map.entry(&key) {
        Err(MigrationError::DuplicateSourceIndex { type_, index }) => {
            assert_eq!(type_, "project");
            assert_eq!(index, "12");
        },
        other => panic!("unexpected outcome: {:?}", other),
    }
    assert_eq!(map.get_opt(&None).unwrap().map(|idx| idx.idx), None);
    assert_eq!(map.get_opt(&Some(key)).unwrap().map(|idx| idx.idx), Some(3));
    assert!(map.get_all(&vec![key, VecIndex::new(1)]).is_err());
    assert_eq!(map.get_all(&vec![key, key]).unwrap().len(), 2);
}

#[test]
fn data_of_a_source_index() {
    let source = source();
    let user: &User = get_data(&source, &VecIndex::new(0)).unwrap();
    assert_eq!(user.forge_id, 5);
    match get_data::<User>(&source, &VecIndex::new(1)) {
        Err(MigrationError::MissingData { type_, index }) => {
            assert_eq!(type_, "user");
            assert_eq!(index, "1");
        },
        other => panic!("unexpected outcome: {:?}", other.map(|user| user.forge_id)),
    }
}
