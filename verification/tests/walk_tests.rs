use maven_downloader::CacheModel;
use maven_downloader::Dependencies;
use maven_downloader::Dependency;
use maven_downloader::DependencyManagement;
use maven_downloader::FetchOutcome;
use maven_downloader::ManagedVersions;
use maven_downloader::Project;
use maven_downloader::RemoteAnswer;
use maven_downloader::VisitedSet;
use maven_downloader::fetch::fetch_outcome;
use maven_downloader::fetch::should_recurse;
use maven_downloader::plan::plan_artifact;
use maven_downloader::policy::absorb_dependency_management;
use maven_downloader::props_to_map;

fn dep(group: &str, artifact: &str, version: Option<&str>) -> Dependency {
    Dependency {
        group_id: group.to_string(),
        artifact_id: artifact.to_string(),
        version: version.map(|v| maven_downloader::TextOrNode::Text(v.to_string())),
    }
}

#[test]
fn managed_entry_drives_versionless_dependency_end_to_end() {
    let project = Project {
        group_id: Some("com.example".to_string()),
        artifact_id: "root".to_string(),
        version: Some("1.0".to_string()),
        parent: None,
        dependencies: Some(Dependencies {
            dependency: vec![dep("com.example", "widget", None)],
        }),
        dependency_management: Some(DependencyManagement {
            dependencies: Some(Dependencies {
                dependency: vec![dep("com.example", "widget", Some("1.0"))],
            }),
        }),
        properties: None,
    };
    let props = props_to_map(None);
    let mut managed = ManagedVersions::new();
    absorb_dependency_management(&project, &props, &mut managed);

    let local_root = "/cache".to_string();
    let remote_base = "https://repo.example/maven2".to_string();
    let action = plan_artifact(
        &project,
        &project.dependencies.as_ref().unwrap().dependency[0],
        &props,
        &managed,
        &local_root,
        &remote_base,
    )
    .expect("the managed entry must resolve the dependency");

    assert_eq!(action.version, "1.0");
    assert_eq!(action.local_jar, "/cache/com/example/widget/1.0/widget-1.0.jar");
    assert_eq!(
        action.jar_url,
        "https://repo.example/maven2/com/example/widget/1.0/widget-1.0.jar"
    );
    assert_eq!(action.local_pom, "/cache/com/example/widget/1.0/widget-1.0.pom");
    assert_eq!(
        action.pom_url,
        "https://repo.example/maven2/com/example/widget/1.0/widget-1.0.pom"
    );

    let mut cache = CacheModel::new();
    let pom = cache.fetch_file(&action.local_pom, RemoteAnswer::Found);
    assert_eq!(pom, FetchOutcome::Downloaded);
    assert!(should_recurse(pom));
}

#[test]
fn jar_not_found_does_not_block_descriptor_recursion() {
    let mut cache = CacheModel::new();
    let jar = cache.fetch_file(
        &"/cache/g/a/1/a-1.jar".to_string(),
        RemoteAnswer::Missing,
    );
    assert_eq!(jar, FetchOutcome::NotFound);
    let pom = cache.fetch_file(&"/cache/g/a/1/a-1.pom".to_string(), RemoteAnswer::Found);
    assert_eq!(pom, FetchOutcome::Downloaded);
    assert!(should_recurse(pom));
    assert!(!should_recurse(jar));
}

#[test]
fn second_walk_over_the_same_cache_downloads_nothing() {
    let jar_path = "/cache/com/example/widget/1.0/widget-1.0.jar".to_string();
    let pom_path = "/cache/com/example/widget/1.0/widget-1.0.pom".to_string();
    let gone_path = "/cache/com/example/gone/2.0/gone-2.0.jar".to_string();
    let mut cache = CacheModel::new();

    let first = vec![
        cache.fetch_file(&jar_path, RemoteAnswer::Found),
        cache.fetch_file(&pom_path, RemoteAnswer::Found),
        cache.fetch_file(&gone_path, RemoteAnswer::Missing),
    ];
    assert_eq!(
        first,
        vec![
            FetchOutcome::Downloaded,
            FetchOutcome::Downloaded,
            FetchOutcome::NotFound
        ]
    );

    let second = vec![
        cache.fetch_file(&jar_path, RemoteAnswer::Found),
        cache.fetch_file(&pom_path, RemoteAnswer::Found),
        cache.fetch_file(&gone_path, RemoteAnswer::Missing),
    ];
    for outcome in &second {
        assert_ne!(*outcome, FetchOutcome::Downloaded);
    }
    assert_eq!(
        second,
        vec![
            FetchOutcome::AlreadyPresent,
            FetchOutcome::AlreadyPresent,
            FetchOutcome::NotFound
        ]
    );
}

#[test]
fn unresolved_dependency_is_skipped_not_fatal() {
    let project = Project {
        group_id: Some("com.example".to_string()),
        artifact_id: "root".to_string(),
        version: None,
        parent: None,
        dependencies: Some(Dependencies {
            dependency: vec![
                dep("com.example", "mystery", None),
                dep("com.example", "known", Some("2.0")),
            ],
        }),
        dependency_management: None,
        properties: None,
    };
    let props = props_to_map(None);
    let managed = ManagedVersions::new();
    let local_root = "/cache".to_string();
    let remote_base = "https://repo.example/maven2".to_string();

    let deps = &project.dependencies.as_ref().unwrap().dependency;
    assert!(plan_artifact(&project, &deps[0], &props, &managed, &local_root, &remote_base)
        .is_none());
    let action = plan_artifact(&project, &deps[1], &props, &managed, &local_root, &remote_base)
        .expect("the explicit version must resolve");
    assert_eq!(action.version, "2.0");
}

#[test]
fn parent_reference_is_planned_like_a_dependency() {
    let project = Project {
        group_id: None,
        artifact_id: "child".to_string(),
        version: None,
        parent: Some(dep("org.parents", "mother", Some("7"))),
        dependencies: None,
        dependency_management: None,
        properties: None,
    };
    let props = props_to_map(None);
    let managed = ManagedVersions::new();
    let action = plan_artifact(
        &project,
        project.parent.as_ref().unwrap(),
        &props,
        &managed,
        &"/cache".to_string(),
        &"https://repo.example/maven2".to_string(),
    )
    .expect("an explicit parent version must resolve");
    assert_eq!(action.local_pom, "/cache/org/parents/mother/7/mother-7.pom");
}

#[test]
fn fetch_outcome_classification() {
    assert_eq!(
        fetch_outcome(true, RemoteAnswer::Found),
        FetchOutcome::AlreadyPresent
    );
    assert_eq!(
        fetch_outcome(true, RemoteAnswer::Failed),
        FetchOutcome::AlreadyPresent
    );
    assert_eq!(
        fetch_outcome(false, RemoteAnswer::Found),
        FetchOutcome::Downloaded
    );
    assert_eq!(
        fetch_outcome(false, RemoteAnswer::Missing),
        FetchOutcome::NotFound
    );
    assert_eq!(
        fetch_outcome(false, RemoteAnswer::Failed),
        FetchOutcome::TransportError
    );
}

#[test]
fn a_coordinate_is_entered_at_most_once() {
    let mut v = VisitedSet::new();
    assert!(v.first_visit(&"g".to_string(), &"a".to_string(), &"1".to_string()));
    assert!(!v.first_visit(&"g".to_string(), &"a".to_string(), &"1".to_string()));
    assert!(v.first_visit(&"g".to_string(), &"a".to_string(), &"2".to_string()));
    assert!(v.first_visit(&"h".to_string(), &"a".to_string(), &"1".to_string()));
    assert!(!v.first_visit(&"g".to_string(), &"a".to_string(), &"2".to_string()));
}
