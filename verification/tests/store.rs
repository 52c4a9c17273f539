use ci_monitor::data::{Instance, MergeRequestStatus, Project, User};
use ci_monitor::lookup::{DiscoverableLookup, Lookup};
use ci_monitor::objects::vec::{VecIndex, VecLookup};
use ci_monitor::{ArcIndex, ArcLookup, TestLookup};
use std::sync::Arc;

fn instance(id: u64, url: &str) -> Instance {
    Instance::builder().unique_id(id).forge("forge").url(url).build().unwrap()
}

#[test]
fn vec_lookup_stores_by_identity_key() {
    let mut lookup = VecLookup::default();
    assert!(lookup.is_empty());
    let first: VecIndex<Instance> = lookup.store(instance(7, "first"));
    let second: VecIndex<Instance> = lookup.store(instance(9, "second"));
    assert_eq!(first.idx, 0);
    assert_eq!(second.idx, 1);
    assert!(!lookup.is_empty());
    assert_eq!(Lookup::<Instance>::lookup(&lookup, &first).unwrap().url, "first");
    assert_eq!(Lookup::<Instance>::lookup(&lookup, &second).unwrap().url, "second");

    // The same identity key: the record is replaced and the index is used again.
    let again: VecIndex<Instance> = lookup.store(instance(7, "replaced"));
    assert_eq!(again.idx, 0);
    assert!(again == first && again != second);
    assert_eq!(lookup.counts().instances, 2);
    assert_eq!(Lookup::<Instance>::lookup(&lookup, &first).unwrap().url, "replaced");
    assert_eq!(Lookup::<Instance>::lookup(&lookup, &second).unwrap().url, "second");

    let beyond: VecIndex<Instance> = VecIndex::new(2);
    assert!(Lookup::<Instance>::lookup(&lookup, &beyond).is_none());
}

#[test]
fn vec_lookup_finds_and_lists() {
    let mut lookup = VecLookup::default();
    let inst: VecIndex<Instance> = lookup.store(instance(0, "url"));
    for id in [30u64, 10, 20] {
        let project = Project::builder().forge_id(id).instance(inst).build().unwrap();
        lookup.store(project);
    }
    let all: Vec<VecIndex<Project>> = DiscoverableLookup::<Project>::all_indices(&lookup);
    assert_eq!(all.iter().map(|idx| idx.idx).collect::<Vec<_>>(), vec![0, 1, 2]);
    let found: Option<VecIndex<Project>> = DiscoverableLookup::<Project>::find(&lookup, 10);
    assert_eq!(found.map(|idx| idx.idx), Some(1));
    let found: Option<VecIndex<Project>> = DiscoverableLookup::<Project>::find(&lookup, 11);
    assert!(found.is_none());
    let found: Option<VecIndex<User>> = DiscoverableLookup::<User>::find(&lookup, 10);
    assert!(found.is_none());
    assert_eq!(lookup.find_project(20).map(|idx| idx.idx), Some(2));
    assert_eq!(lookup.find_instance(0).map(|idx| idx.idx), Some(0));
    assert_eq!(lookup.all_project_indices().len(), 3);
    assert_eq!(lookup.all_user_indices().len(), 0);
    assert!(lookup.has_unique_ids());
    assert_eq!(lookup.counts().projects, 3);
    assert_eq!(lookup.counts().instances, 1);
}

#[test]
fn a_store_assembled_from_parts_may_hold_a_key_twice() {
    let lookup = VecLookup::from_parts(
        Vec::new(),
        Vec::new(),
        vec![instance(1, "a"), instance(2, "b"), instance(1, "c")],
        Vec::new(),
        Vec::new(),
        Vec::new(),
        Vec::new(),
        Vec::new(),
        Vec::new(),
        Vec::new(),
        Vec::new(),
        Vec::new(),
    );
    assert!(!lookup.has_unique_ids());
    // The first record with the key is the one that is found.
    assert_eq!(lookup.find_instance(1).map(|idx| idx.idx), Some(0));
    assert_eq!(lookup.instances().len(), 3);
}

#[test]
fn arc_lookup_hands_the_record_back() {
    let mut lookup = ArcLookup;
    let idx = lookup.store(instance(3, "url"));
    assert_eq!(lookup.lookup(&idx).unwrap().unique_id, 3);
    let copy = idx.clone();
    assert_eq!(lookup.lookup(&copy).unwrap().url, "url");
    let arc: Arc<Instance> = idx.into_inner();
    assert_eq!(arc.unique_id, 3);
    let wrapped = ArcIndex::from(Arc::new(MergeRequestStatus::Merged));
    assert_eq!(lookup.lookup(&wrapped), Some(&MergeRequestStatus::Merged));
}

#[test]
fn test_lookup_hands_the_record_back() {
    let mut lookup = TestLookup::default();
    let idx = lookup.store(17u64);
    assert_eq!(lookup.lookup(&idx), Some(&17));
    assert_eq!(lookup.lookup(&idx.clone()), Some(&17));
}
