//! Where the application keeps its data, what its first start has to set
//! up, and the configuration it starts with.

use crate::error::BridgeError;
use crate::text::join_text;
use vstd::prelude::*;

verus! {

/// The user's data directory as `dirs::data_dir` reports it, which
/// depends on the platform and the environment. Nothing is claimed of
/// it. A directory whose name is not valid Unicode is reported as
/// absent.
#[verifier::external_body]
fn user_data_dir() -> (dir: Option<String>) {
    dirs::data_dir().and_then(|path| path.into_os_string().into_string().ok())
}

/// The application's directory below the user's data directory.
pub open spec fn app_data_dir_in(data_dir: Seq<char>) -> Seq<char> {
    data_dir + "/real-estate-tracker"@
}

/// The database file below the user's data directory.
pub open spec fn database_path_in(data_dir: Seq<char>) -> Seq<char> {
    app_data_dir_in(data_dir) + "/tracker.db"@
}

/// The directory for exports below the user's data directory.
pub open spec fn exports_dir_in(data_dir: Seq<char>) -> Seq<char> {
    app_data_dir_in(data_dir) + "/exports"@
}

/// The configuration file below the user's data directory.
pub open spec fn config_path_in(data_dir: Seq<char>) -> Seq<char> {
    app_data_dir_in(data_dir) + "/config.json"@
}

/// The directory for temporary files below the user's data directory.
pub open spec fn temp_dir_in(data_dir: Seq<char>) -> Seq<char> {
    app_data_dir_in(data_dir) + "/temp"@
}

/// The application's paths below the user's data directory.
#[derive(Debug, Clone, PartialEq, Eq)]
pub struct AppPaths {
    pub app_dir: String,
    pub database: String,
    pub exports_dir: String,
    pub config_file: String,
    pub temp_dir: String,
}

/// True when `paths` are the application's paths below `data_dir`.
pub open spec fn paths_below(paths: AppPaths, data_dir: Seq<char>) -> bool {
    &&& paths.app_dir@ == app_data_dir_in(data_dir)
    &&& paths.database@ == database_path_in(data_dir)
    &&& paths.exports_dir@ == exports_dir_in(data_dir)
    &&& paths.config_file@ == config_path_in(data_dir)
    &&& paths.temp_dir@ == temp_dir_in(data_dir)
}

/// The application's paths for a known or unknown data directory.
pub fn app_paths(data_dir: Option<String>) -> (r: Result<AppPaths, BridgeError>)
    ensures
        data_dir is None ==> (r matches Err(e) && e == BridgeError::DataDirectoryUnavailable),
        data_dir matches Some(dir) ==> (r matches Ok(paths) && paths_below(paths, dir@)),
{
    match data_dir {
        None => Err(BridgeError::DataDirectoryUnavailable),
        Some(dir) => {
            let app_dir = join_text(dir.as_str(), "/real-estate-tracker");
            let database = join_text(app_dir.as_str(), "/tracker.db");
            let exports_dir = join_text(app_dir.as_str(), "/exports");
            let config_file = join_text(app_dir.as_str(), "/config.json");
            let temp_dir = join_text(app_dir.as_str(), "/temp");
            Ok(AppPaths { app_dir, database, exports_dir, config_file, temp_dir })
        },
    }
}

/// The application's paths below the user's data directory. Fails when
/// no data directory is known.
pub fn get_app_paths() -> (r: Result<AppPaths, BridgeError>)
    ensures
        r matches Ok(paths) ==> exists|data_dir: Seq<char>| #[trigger] paths_below(paths, data_dir),
        r matches Err(e) ==> e == BridgeError::DataDirectoryUnavailable,
{
    let data_dir = user_data_dir();
    let r = app_paths(data_dir);
    proof {
        if r is Ok {
            assert(paths_below(r->Ok_0, data_dir->Some_0@));
        }
    }
    r
}

/// The application's data directory: `real-estate-tracker` below the
/// user's data directory. Fails when no data directory is known.
pub fn get_app_data_dir() -> (r: Result<String, BridgeError>)
    ensures
        r matches Ok(path) ==> exists|data_dir: Seq<char>|
            path@ == #[trigger] app_data_dir_in(data_dir),
        r matches Err(e) ==> e == BridgeError::DataDirectoryUnavailable,
{
    match get_app_paths() {
        Ok(paths) => {
            proof {
                let data_dir = choose|data_dir: Seq<char>| paths_below(paths, data_dir);
                assert(paths.app_dir@ == app_data_dir_in(data_dir));
            }
            Ok(paths.app_dir)
        },
        Err(e) => Err(e),
    }
}

/// The database file: `tracker.db` in the application's data directory.
pub fn get_database_path() -> (r: Result<String, BridgeError>)
    ensures
        r matches Ok(path) ==> exists|data_dir: Seq<char>|
            path@ == #[trigger] database_path_in(data_dir),
        r matches Err(e) ==> e == BridgeError::DataDirectoryUnavailable,
{
    match get_app_paths() {
        Ok(paths) => {
            proof {
                let data_dir = choose|data_dir: Seq<char>| paths_below(paths, data_dir);
                assert(paths.database@ == database_path_in(data_dir));
            }
            Ok(paths.database)
        },
        Err(e) => Err(e),
    }
}

/// The directory for exports: `exports` in the application's data
/// directory.
pub fn get_exports_dir() -> (r: Result<String, BridgeError>)
    ensures
        r matches Ok(path) ==> exists|data_dir: Seq<char>|
            path@ == #[trigger] exports_dir_in(data_dir),
        r matches Err(e) ==> e == BridgeError::DataDirectoryUnavailable,
{
    match get_app_paths() {
        Ok(paths) => {
            proof {
                let data_dir = choose|data_dir: Seq<char>| paths_below(paths, data_dir);
                assert(paths.exports_dir@ == exports_dir_in(data_dir));
            }
            Ok(paths.exports_dir)
        },
        Err(e) => Err(e),
    }
}

/// The application's configuration.
#[derive(Debug, Clone, PartialEq, Eq)]
pub struct AppConfig {
    pub version: String,
    pub first_run: bool,
    pub theme: String,
    pub auto_backup: bool,
    pub backup_frequency: String,
}

/// The configuration of a fresh installation.
pub fn default_config() -> (config: AppConfig)
    ensures
        config.version@ == "0.2.0"@,
        config.first_run,
        config.theme@ == "auto"@,
        !config.auto_backup,
        config.backup_frequency@ == "weekly"@,
{
    AppConfig {
        version: "0.2.0".to_owned(),
        first_run: true,
        theme: "auto".to_owned(),
        auto_backup: false,
        backup_frequency: "weekly".to_owned(),
    }
}

/// One thing to set up before the application can keep data.
#[derive(Clone, Copy, Debug, PartialEq, Eq, Structural)]
pub enum SetupStep {
    CreateAppDir,
    CreateExportsDir,
    WriteDefaultConfig,
}

/// What is missing, in the order in which it is set up.
pub open spec fn setup_steps(
    app_dir_exists: bool,
    exports_dir_exists: bool,
    config_exists: bool,
) -> Seq<SetupStep> {
    let a = if app_dir_exists {
        Seq::<SetupStep>::empty()
    } else {
        seq![SetupStep::CreateAppDir]
    };
    let b = if exports_dir_exists {
        Seq::<SetupStep>::empty()
    } else {
        seq![SetupStep::CreateExportsDir]
    };
    let c = if config_exists {
        Seq::<SetupStep>::empty()
    } else {
        seq![SetupStep::WriteDefaultConfig]
    };
    a + b + c
}

/// Decides what the first start has to set up: each directory that does
/// not exist yet, then the default configuration if there is none.
pub fn initialize_app_data(app_dir_exists: bool, exports_dir_exists: bool, config_exists: bool) -> (steps:
    Vec<SetupStep>)
    ensures
        steps@ == setup_steps(app_dir_exists, exports_dir_exists, config_exists),
{
    let mut steps: Vec<SetupStep> = Vec::new();
    if !app_dir_exists {
        steps.push(SetupStep::CreateAppDir);
    }
    if !exports_dir_exists {
        steps.push(SetupStep::CreateExportsDir);
    }
    if !config_exists {
        steps.push(SetupStep::WriteDefaultConfig);
    }
    assert(steps@ == setup_steps(app_dir_exists, exports_dir_exists, config_exists));
    steps
}

/// Tells whether the application starts for the first time, from the
/// first-run mark of its configuration. A configuration that cannot be
/// read, or that has no such mark, counts as a first start.
pub fn is_first_run(first_run_mark: Option<bool>) -> (first: bool)
    ensures
        first == match first_run_mark {
            Some(mark) => mark,
            None => true,
        },
{
    match first_run_mark {
        Some(mark) => mark,
        None => true,
    }
}

} // verus!
