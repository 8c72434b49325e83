use real_estate_tracker::database::{
    app_paths, default_config, get_app_data_dir, get_app_paths, get_database_path,
    get_exports_dir, initialize_app_data, is_first_run, AppConfig, SetupStep,
};
use real_estate_tracker::error::BridgeError;

#[test]
fn test_app_data_dir() {
    let dir = get_app_data_dir();
    assert!(dir.is_ok());
    println!("App data dir: {:?}", dir.unwrap());
}

#[test]
fn data_paths_lie_below_the_data_directory() {
    let expected = dirs::data_dir().and_then(|p| p.to_str().map(|s| s.to_string()));
    let base = expected.expect("a data directory");
    assert_eq!(get_app_data_dir(), Ok(format!("{}/real-estate-tracker", base)));
    assert_eq!(get_database_path(), Ok(format!("{}/real-estate-tracker/tracker.db", base)));
    assert_eq!(get_exports_dir(), Ok(format!("{}/real-estate-tracker/exports", base)));
    let paths = get_app_paths().expect("a data directory");
    assert_eq!(paths, app_paths(Some(base)).expect("known directory"));
}

#[test]
fn app_paths_are_fixed_below_a_given_directory() {
    let paths = app_paths(Some("/home/alice/.local/share".to_string())).expect("known directory");
    assert_eq!(paths.app_dir, "/home/alice/.local/share/real-estate-tracker");
    assert_eq!(paths.database, "/home/alice/.local/share/real-estate-tracker/tracker.db");
    assert_eq!(paths.exports_dir, "/home/alice/.local/share/real-estate-tracker/exports");
    assert_eq!(paths.config_file, "/home/alice/.local/share/real-estate-tracker/config.json");
    assert_eq!(paths.temp_dir, "/home/alice/.local/share/real-estate-tracker/temp");
}

#[test]
fn unknown_data_directory_is_an_error() {
    let error = app_paths(None).expect_err("no directory");
    assert_eq!(error, BridgeError::DataDirectoryUnavailable);
    assert_eq!(error.message(), "Could not determine data directory");
}

#[test]
fn first_start_sets_up_what_is_missing() {
    assert_eq!(
        initialize_app_data(false, false, false),
        vec![SetupStep::CreateAppDir, SetupStep::CreateExportsDir, SetupStep::WriteDefaultConfig]
    );
    assert_eq!(initialize_app_data(true, false, true), vec![SetupStep::CreateExportsDir]);
    assert_eq!(initialize_app_data(true, true, false), vec![SetupStep::WriteDefaultConfig]);
    assert!(initialize_app_data(true, true, true).is_empty());
}

#[test]
fn default_config_and_first_run_mark() {
    let config = default_config();
    assert_eq!(
        config,
        AppConfig {
            version: "0.2.0".to_string(),
            first_run: true,
            theme: "auto".to_string(),
            auto_backup: false,
            backup_frequency: "weekly".to_string(),
        }
    );
    assert!(is_first_run(Some(config.first_run)));
    assert!(is_first_run(None));
    assert!(!is_first_run(Some(false)));
}
