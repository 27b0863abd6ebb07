use launcher_core::launcher::{
    assets_dir, fabric_loaders_cache_file, libraries_dir, natives_dir, version_dir, version_jar,
    versions_cache_file, download_target, find_instance, get_base_dir, get_java_path, get_mc_dir, greet,
    launcher_kind, LauncherKind, PackageInfo,
};
use launcher_core::profile::{profile_status, ProfileError};

#[test]
fn fixed_paths() {
    assert_eq!(get_base_dir(), "/home/aapelix/launcher/");
    assert_eq!(get_mc_dir("survival"), "/home/aapelix/launcher/instances/survival");
    assert_eq!(get_java_path(), "/usr/lib/jvm/java-21-openjdk/bin/java");
}

#[test]
fn greeting() {
    assert_eq!(greet("Alex"), "Hello, Alex! You've been greeted from Rust!");
}

#[test]
fn loader_names() {
    assert_eq!(launcher_kind(&Some("fabric".to_string())), LauncherKind::Fabric);
    assert_eq!(launcher_kind(&Some("forge".to_string())), LauncherKind::Forge);
    assert_eq!(launcher_kind(&Some("Fabric".to_string())), LauncherKind::Vanilla);
    assert_eq!(launcher_kind(&None), LauncherKind::Vanilla);
}

#[test]
fn download_defaults() {
    assert_eq!(
        download_target(None, None),
        ("./.minecraft".to_string(), "1.19.4".to_string())
    );
    assert_eq!(
        download_target(Some("/tmp/mc".to_string()), Some("1.20.1".to_string())),
        ("/tmp/mc".to_string(), "1.20.1".to_string())
    );
}

fn info(name: &str, uuid: u128) -> PackageInfo {
    PackageInfo {
        name: name.to_string(),
        version: "1.20.1".to_string(),
        version_type: "release".to_string(),
        uuid,
        path: get_mc_dir(name),
    }
}

#[test]
fn instance_lookup_by_id() {
    let infos = vec![info("a", 7), info("b", 9), info("c", 9)];
    assert_eq!(find_instance(&infos, 9), Some(1));
    assert_eq!(find_instance(&infos, 7), Some(0));
    assert_eq!(find_instance(&infos, 8), None);
    assert_eq!(find_instance(&Vec::new(), 8), None);
}

#[test]
fn profile_status_classes() {
    assert_eq!(profile_status(200), Ok(()));
    assert_eq!(profile_status(401), Err(ProfileError::Unauthorized));
    assert_eq!(profile_status(404), Err(ProfileError::FetchFailed));
    assert_eq!(profile_status(500), Err(ProfileError::FetchFailed));
}

#[test]
fn launch_and_cache_paths() {
    assert_eq!(assets_dir(), "/home/aapelix/launcher/assets");
    assert_eq!(libraries_dir(), "/home/aapelix/launcher/libraries");
    assert_eq!(version_dir("1.20.1"), "/home/aapelix/launcher/versions/1.20.1");
    assert_eq!(natives_dir("1.20.1"), "/home/aapelix/launcher/versions/1.20.1/natives");
    assert_eq!(version_jar("1.20.1"), "/home/aapelix/launcher/versions/1.20.1/1.20.1.jar");
    assert_eq!(versions_cache_file(), "/home/aapelix/launcher/jsons/minecraft_versions.json");
    assert_eq!(
        fabric_loaders_cache_file("1.20.1"),
        "/home/aapelix/launcher/jsons/fabric/loader_versions_1.20.1.json"
    );
}
