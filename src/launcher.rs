//! Launcher bookkeeping: where instances, the game and Java live, how a
//! download request names its loader, and finding an instance by id.

use vstd::prelude::*;

verus! {

/// Root directory of the launcher's files.
pub const BASE_DIR: &'static str = "/home/aapelix/launcher/";

/// Java executable that runs the game.
pub const JAVA_PATH: &'static str = "/usr/lib/jvm/java-21-openjdk/bin/java";

/// Game directory used where a download names none.
pub const DEFAULT_GAME_DIR: &'static str = "./.minecraft";

/// Game version used where a download names none.
pub const DEFAULT_VERSION: &'static str = "1.19.4";

pub fn get_base_dir() -> (r: String)
    ensures
        r@ == BASE_DIR@,
{
    BASE_DIR.to_owned()
}

/// Directory of the instance called `name`.
pub open spec fn mc_dir_of(name: Seq<char>) -> Seq<char> {
    BASE_DIR@ + "instances/"@ + name
}

pub fn get_mc_dir(name: &str) -> (r: String)
    ensures
        r@ == mc_dir_of(name@),
{
    let mut dir = BASE_DIR.to_owned();
    dir.append("instances/");
    dir.append(name);
    dir
}

pub fn get_java_path() -> (r: String)
    ensures
        r@ == JAVA_PATH@,
{
    JAVA_PATH.to_owned()
}

/// Where the game's assets live.
pub fn assets_dir() -> (r: String)
    ensures
        r@ == BASE_DIR@ + "assets"@,
{
    let mut d = BASE_DIR.to_owned();
    d.append("assets");
    d
}

/// Where the game's libraries live.
pub fn libraries_dir() -> (r: String)
    ensures
        r@ == BASE_DIR@ + "libraries"@,
{
    let mut d = BASE_DIR.to_owned();
    d.append("libraries");
    d
}

/// Directory of one installed game version.
pub open spec fn version_dir_of(version: Seq<char>) -> Seq<char> {
    BASE_DIR@ + "versions/"@ + version
}

pub fn version_dir(version: &str) -> (r: String)
    ensures
        r@ == version_dir_of(version@),
{
    let mut d = BASE_DIR.to_owned();
    d.append("versions/");
    d.append(version);
    d
}

/// Native libraries of a game version.
pub fn natives_dir(version: &str) -> (r: String)
    ensures
        r@ == version_dir_of(version@) + "/natives"@,
{
    let mut d = version_dir(version);
    d.append("/natives");
    d
}

/// The game jar of a version: `<version dir>/<version>.jar`.
pub fn version_jar(version: &str) -> (r: String)
    ensures
        r@ == version_dir_of(version@) + "/"@ + version@ + ".jar"@,
{
    let mut d = version_dir(version);
    d.append("/");
    d.append(version);
    d.append(".jar");
    d
}

/// Cached list of game versions.
pub fn versions_cache_file() -> (r: String)
    ensures
        r@ == BASE_DIR@ + "jsons/minecraft_versions.json"@,
{
    let mut d = BASE_DIR.to_owned();
    d.append("jsons/minecraft_versions.json");
    d
}

/// Cached list of Fabric loader versions for one game version.
pub fn fabric_loaders_cache_file(version: &str) -> (r: String)
    ensures
        r@ == BASE_DIR@ + "jsons/fabric/loader_versions_"@ + version@ + ".json"@,
{
    let mut d = BASE_DIR.to_owned();
    d.append("jsons/fabric/loader_versions_");
    d.append(version);
    d.append(".json");
    d
}

pub fn greet(name: &str) -> (r: String)
    ensures
        r@ == "Hello, "@ + name@ + "! You've been greeted from Rust!"@,
{
    let mut s = "Hello, ".to_owned();
    s.append(name);
    s.append("! You've been greeted from Rust!");
    s
}

/// Which loader a download installs.
#[derive(Debug, Clone, Copy, PartialEq, Eq, Structural)]
pub enum LauncherKind {
    Vanilla,
    Fabric,
    Forge,
}

/// `"fabric"` and `"forge"` name their loaders; anything else, or nothing,
/// is vanilla.
pub open spec fn launcher_kind_of(name: Option<Seq<char>>) -> LauncherKind {
    match name {
        Some(n) => if n == "fabric"@ {
            LauncherKind::Fabric
        } else if n == "forge"@ {
            LauncherKind::Forge
        } else {
            LauncherKind::Vanilla
        },
        None => LauncherKind::Vanilla,
    }
}

pub open spec fn opt_view(o: Option<String>) -> Option<Seq<char>> {
    match o {
        Some(s) => Some(s@),
        None => None,
    }
}

pub fn launcher_kind(name: &Option<String>) -> (r: LauncherKind)
    ensures
        r == launcher_kind_of(opt_view(*name)),
{
    match name {
        Some(n) => {
            if *n == "fabric".to_owned() {
                LauncherKind::Fabric
            } else if *n == "forge".to_owned() {
                LauncherKind::Forge
            } else {
                LauncherKind::Vanilla
            }
        },
        None => LauncherKind::Vanilla,
    }
}

fn or_default(o: Option<String>, default: &str) -> (r: String)
    ensures
        r@ == match o {
            Some(s) => s@,
            None => default@,
        },
{
    match o {
        Some(s) => s,
        None => default.to_owned(),
    }
}

/// Game directory and version of a download, with the defaults filled in.
pub fn download_target(path: Option<String>, version: Option<String>) -> (r: (String, String))
    ensures
        r.0@ == match path {
            Some(p) => p@,
            None => DEFAULT_GAME_DIR@,
        },
        r.1@ == match version {
            Some(v) => v@,
            None => DEFAULT_VERSION@,
        },
{
    (or_default(path, DEFAULT_GAME_DIR), or_default(version, DEFAULT_VERSION))
}

/// The record an instance keeps about itself; its id is the UUID as a
/// 128-bit number.
#[derive(Debug, Clone, PartialEq, Eq)]
pub struct PackageInfo {
    pub name: String,
    pub version: String,
    pub version_type: String,
    pub uuid: u128,
    pub path: String,
}

/// Position of the first record with the given id.
pub fn find_instance(infos: &Vec<PackageInfo>, target: u128) -> (r: Option<usize>)
    ensures
        match r {
            Some(i) => i < infos@.len() && infos@[i as int].uuid == target && forall|j: int|
                0 <= j < i ==> infos@[j].uuid != target,
            None => forall|j: int| 0 <= j < infos@.len() ==> infos@[j].uuid != target,
        },
{
    let mut i: usize = 0;
    while i < infos.len()
        invariant
            0 <= i <= infos@.len(),
            forall|j: int| 0 <= j < i ==> infos@[j].uuid != target,
        decreases infos@.len() - i,
    {
        if infos[i].uuid == target {
            return Some(i);
        }
        i = i + 1;
    }
    None
}

} // verus!
