use ci_monitor::data::job_artifact::ArtifactExpiration;
use ci_monitor::data::ArtifactKind;
use ci_monitor::time::Timestamp;

#[test]
fn artifact_kind_strings() {
    assert_eq!(ArtifactKind::JobLog.as_str(), "job_log");
    assert_eq!(ArtifactKind::Archive.as_str(), "archive");
    assert_eq!(ArtifactKind::JUnit.as_str(), "junit");
    assert_eq!(ArtifactKind::Annotations.as_str(), "annotations");
    assert_eq!(ArtifactKind::archive_file("a/b").as_str(), "archive_file(a/b)");
    assert_eq!(ArtifactKind::custom("foo").as_str(), "custom(foo)");
}

#[test]
fn artifact_kind_round_trip() {
    let kinds = vec![
        ArtifactKind::JobLog,
        ArtifactKind::Archive,
        ArtifactKind::ArchiveFile { path: "dir/file.txt".to_string() },
        ArtifactKind::JUnit,
        ArtifactKind::Annotations,
        ArtifactKind::Custom { name: "coverage".to_string() },
        ArtifactKind::Custom { name: "".to_string() },
        ArtifactKind::Custom { name: "a)b(c".to_string() },
        ArtifactKind::ArchiveFile { path: "custom(x)".to_string() },
    ];
    for kind in kinds {
        assert_eq!(ArtifactKind::parse(&kind.as_str()), Some(kind));
    }
}

#[test]
fn artifact_kind_parse_bracketed_forms() {
    assert_eq!(
        ArtifactKind::parse("custom(foo)"),
        Some(ArtifactKind::Custom { name: "foo".to_string() })
    );
    assert_eq!(
        ArtifactKind::parse("archive_file(a/b)"),
        Some(ArtifactKind::ArchiveFile { path: "a/b".to_string() })
    );
}

#[test]
fn artifact_kind_parse_refuses_other_strings() {
    assert_eq!(ArtifactKind::parse(""), None);
    assert_eq!(ArtifactKind::parse(")"), None);
    assert_eq!(ArtifactKind::parse("custom(foo"), None);
    assert_eq!(ArtifactKind::parse("archive_file(a/b"), None);
    assert_eq!(ArtifactKind::parse("job_log)"), None);
    assert_eq!(ArtifactKind::parse("JOB_LOG"), None);
    assert_eq!(ArtifactKind::parse("custom"), None);
    assert_eq!(ArtifactKind::parse("other(x)"), None);
}

#[test]
fn artifact_expiration_names() {
    assert_eq!(ArtifactExpiration::Unknown.name(), Some("unknown"));
    assert_eq!(ArtifactExpiration::Never.name(), Some("never"));
    assert_eq!(ArtifactExpiration::At(Timestamp::new(5, 0)).name(), None);
    assert_eq!(ArtifactExpiration::from_name("unknown"), Some(ArtifactExpiration::Unknown));
    assert_eq!(ArtifactExpiration::from_name("never"), Some(ArtifactExpiration::Never));
    assert_eq!(ArtifactExpiration::from_name("2024-01-01T00:00:00Z"), None);
}
