use vstd::prelude::*;
use vstd::string::*;

verus! {

/// Directory of this application under the per-user data directory.
pub const APP_DIR_NAME: &'static str = "sophos-dashboard";

/// File name of the endpoint snapshot cache.
pub const CACHE_FILE: &'static str = "sophos_cache.json";

/// File name of the stored credentials.
pub const SECRETS_FILE: &'static str = "sophos_secrets.json";

/// Where a store file lives: `root`, then the directory `app_dir`, then `file`.
#[derive(Debug)]
pub struct StorePath {
    pub root: String,
    pub app_dir: String,
    pub file: String,
}

/// The root that the store files live under: the per-user data directory
/// when there is one, else the current directory.
pub open spec fn data_root(found: Option<Seq<char>>) -> Seq<char> {
    match found {
        Some(dir) => dir,
        None => "."@,
    }
}

fn store_path(data_dir: Option<String>, file: &str) -> (r: StorePath)
    ensures
        r.root@ == data_root(
            match data_dir {
                Some(d) => Some(d@),
                None => None,
            },
        ),
        r.app_dir@ == APP_DIR_NAME@,
        r.file@ == file@,
{
    let root = match data_dir {
        Some(dir) => dir,
        None => String::from_str("."),
    };
    StorePath { root, app_dir: String::from_str(APP_DIR_NAME), file: String::from_str(file) }
}

/// Location of the snapshot cache, given the per-user data directory if any.
pub fn get_cache_path(data_dir: Option<String>) -> (r: StorePath)
    ensures
        r.root@ == data_root(
            match data_dir {
                Some(d) => Some(d@),
                None => None,
            },
        ),
        r.app_dir@ == APP_DIR_NAME@,
        r.file@ == CACHE_FILE@,
{
    store_path(data_dir, CACHE_FILE)
}

/// Location of the stored credentials, given the per-user data directory if any.
pub fn get_secrets_path(data_dir: Option<String>) -> (r: StorePath)
    ensures
        r.root@ == data_root(
            match data_dir {
                Some(d) => Some(d@),
                None => None,
            },
        ),
        r.app_dir@ == APP_DIR_NAME@,
        r.file@ == SECRETS_FILE@,
{
    store_path(data_dir, SECRETS_FILE)
}

} // verus!
