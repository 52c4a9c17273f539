use ci_monitor::blob::filesystem::{FilesystemConfig, CONFIG_NAME};
use ci_monitor::data::{BlobReference, ContentHash};
use ci_monitor::{Filesystem, FilesystemError, Sharding, ShardingError};

#[test]
fn test_sharding_once() {
    let sharding = Sharding::once(2);
    assert_eq!(sharding.breaks(), [2, 0, 0]);
    assert_eq!(sharding.shard_str("aabbccdd"), ["aa", "bbccdd", "", ""]);
}

#[test]
fn test_sharding_twice() {
    let sharding = Sharding::twice(2, 2);
    assert_eq!(sharding.breaks(), [2, 2, 0]);
    assert_eq!(sharding.shard_str("aabbccdd"), ["aa", "bb", "ccdd", ""]);
}

#[test]
fn test_sharding_thrice() {
    let sharding = Sharding::thrice(2, 2, 2);
    assert_eq!(sharding.breaks(), [2, 2, 2]);
    assert_eq!(sharding.shard_str("aabbccdd"), ["aa", "bb", "cc", "dd"]);
}

#[test]
fn test_sharding_default() {
    let sharding = Sharding::default();
    assert_eq!(sharding.breaks(), [2, 2, 0]);
}

#[test]
fn test_sharding_too_big() {
    let sharding = Sharding::once(2);
    assert_eq!(sharding.breaks(), [2, 0, 0]);
    assert_eq!(sharding.shard_str("a"), ["a", "", "", ""]);
}

#[test]
fn test_sharding_to_vec() {
    let sharding = Sharding::once(2);
    assert_eq!(sharding.to_vec(), [2]);

    let sharding = Sharding::twice(2, 2);
    assert_eq!(sharding.to_vec(), [2, 2]);

    let sharding = Sharding::thrice(2, 2, 2);
    assert_eq!(sharding.to_vec(), [2, 2, 2]);
}

#[test]
fn test_sharding_from_slice_too_long() {
    let err = Sharding::from_slice(&[2, 2, 2, 2]).unwrap_err();
    if let ShardingError::TooLong = err {
        println!("expected error: {:?}", err);
    } else {
        panic!("unexpected error: {:?}", err);
    }
}

#[test]
fn test_sharding_from_slice_zero_lengths() {
    let err = Sharding::from_slice(&[2, 0]).unwrap_err();
    if let ShardingError::ZeroBreaks = err {
        println!("expected error: {:?}", err);
    } else {
        panic!("unexpected error: {:?}", err);
    }
}

#[test]
fn test_sharding_from_slice() {
    let sharding = Sharding::from_slice(&[2, 2]).unwrap();
    assert_eq!(sharding.to_vec(), [2, 2]);
}

#[test]
fn test_invalid_content_algorithm() {
    let conf = FilesystemConfig {
        algorithm: "__not_an_algo__".into(),
        sharding: Sharding::default().to_vec(),
    };
    let err = Filesystem::open("store", conf).unwrap_err();
    if let FilesystemError::InvalidContentAlgorithm {
        ref algo, ..
    } = err
    {
        assert_eq!(algo, "__not_an_algo__");
        println!("expected error: {:?}", err);
    } else {
        panic!("unexpected error: {:?}", err);
    }
}

#[test]
fn test_invalid_sharding() {
    let conf = FilesystemConfig {
        algorithm: ContentHash::Sha256.name().into(),
        sharding: vec![0],
    };
    let err = Filesystem::open("store", conf).unwrap_err();
    if let FilesystemError::InvalidSharding {
        ..
    } = err
    {
        println!("expected error: {:?}", err);
    } else {
        panic!("unexpected error: {:?}", err);
    }
}

#[test]
fn sharding_from_empty_slice_is_refused() {
    let err = Sharding::from_slice(&[]).unwrap_err();
    assert_eq!(err, ShardingError::ZeroBreaks);
}

#[test]
fn sharding_exactly_as_long_as_the_breaks() {
    let sharding = Sharding::twice(2, 2);
    assert_eq!(sharding.shard_str("aabb"), ["aa", "bb", "", ""]);
    assert_eq!(sharding.shard_str("aab"), ["aab", "", "", ""]);
    assert_eq!(sharding.shard_str(""), ["", "", "", ""]);
}

#[test]
fn sharded_parts_make_up_the_hash() {
    let hash = "e3b0c44298fc1c149afbf4c8996fb92427ae41e4649b934ca495991b7852b855";
    for breaks in [vec![1], vec![2, 2], vec![3, 1, 2], vec![64], vec![60, 3, 1]] {
        let sharding = Sharding::from_slice(&breaks).unwrap();
        let parts = sharding.shard_str(hash);
        assert_eq!(parts.concat(), hash);
    }
    let sharding = Sharding::from_slice(&[40, 20, 5]).unwrap();
    assert_eq!(sharding.shard_str(hash), [hash, "", "", ""]);
}

#[test]
fn config_of_a_created_store_opens_it_again() {
    let fs = Filesystem::create("root", ContentHash::Sha512, Sharding::thrice(1, 2, 3));
    let conf = fs.config();
    assert_eq!(conf.algorithm, "sha512");
    assert_eq!(conf.sharding, vec![1, 2, 3]);
    let again = Filesystem::open("root", conf).unwrap();
    assert_eq!(again.root(), "root");
    assert_eq!(again.algo(), ContentHash::Sha512);
    assert_eq!(again.shard_hash("abcdefgh"), ["a", "bc", "def", "gh"]);
    assert_eq!(CONFIG_NAME, "cim_persistence.toml");
}

#[test]
fn path_of_the_empty_blob() {
    let fs = Filesystem::create("root", ContentHash::Sha256, Sharding::default());
    let blob = ci_monitor::data::Blob::new(Vec::new());
    let reference = BlobReference::for_blob(&blob, ContentHash::Sha256);
    assert_eq!(reference.algo(), ContentHash::Sha256);
    assert_eq!(
        reference.hash(),
        "e3b0c44298fc1c149afbf4c8996fb92427ae41e4649b934ca495991b7852b855"
    );
    assert!(ci_monitor::blob::check_blob(&blob, &reference).is_ok());
    assert_eq!(
        fs.path_for(&reference),
        vec![
            "sha256".to_string(),
            "e3".to_string(),
            "b0".to_string(),
            "c44298fc1c149afbf4c8996fb92427ae41e4649b934ca495991b7852b855".to_string(),
        ]
    );
}
