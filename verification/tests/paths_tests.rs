use maven_downloader::paths::default_remote_base;
use maven_downloader::paths::join_path;
use maven_downloader::paths::local_repository_root;
use maven_downloader::paths::relative_artifact_path;

#[test]
fn coordinate_maps_to_canonical_jar_path() {
    let r = relative_artifact_path(
        &"com.example".to_string(),
        &"widget".to_string(),
        &"1.0".to_string(),
        &"jar".to_string(),
    );
    assert_eq!(r, "com/example/widget/1.0/widget-1.0.jar");
}

#[test]
fn coordinate_maps_to_canonical_pom_path() {
    let r = relative_artifact_path(
        &"com.example".to_string(),
        &"widget".to_string(),
        &"1.0".to_string(),
        &"pom".to_string(),
    );
    assert_eq!(r, "com/example/widget/1.0/widget-1.0.pom");
}

#[test]
fn every_group_dot_becomes_a_separator() {
    let r = relative_artifact_path(
        &"a.b.c".to_string(),
        &"x".to_string(),
        &"2".to_string(),
        &"jar".to_string(),
    );
    assert_eq!(r, "a/b/c/x/2/x-2.jar");
}

#[test]
fn dotless_group_is_kept_as_it_is() {
    let r = relative_artifact_path(
        &"plain".to_string(),
        &"y".to_string(),
        &"3.4".to_string(),
        &"pom".to_string(),
    );
    assert_eq!(r, "plain/y/3.4/y-3.4.pom");
}

#[test]
fn join_uses_a_single_separator() {
    let r = join_path(&"/cache/root".to_string(), &"a/b-1.jar".to_string());
    assert_eq!(r, "/cache/root/a/b-1.jar");
}

#[test]
fn local_root_lives_under_the_home_directory() {
    let r = local_repository_root(&"/home/user".to_string());
    assert_eq!(r, "/home/user/.m2/repository");
}

#[test]
fn remote_base_is_the_central_repository() {
    assert_eq!(
        default_remote_base(),
        "https://repo.maven.apache.org/maven2"
    );
}
