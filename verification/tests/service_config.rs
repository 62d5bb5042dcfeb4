use tttb_backend::config::{
    backup_directory_from_result, service_config, AssetPolicy, BackupDirectory, ConfigEnv,
    EnvLookup, LocationError, LogFile, Mode, ServiceConfig, BACKUP_DIR_ENV,
    DATABASE_URL_ENV, DEFAULT_STATIC_ASSETS_DIR, LOCAL_APP_DATA_ENV, LOG_FILE_ENV,
    LOG_MAX_BYTES_ENV, MODE_ENV, ONE_DRIVE_ENV,
};

/// Windows path equality: the same components, whichever separators.
fn same_path(actual: Option<&str>, expected: &str) -> bool {
    fn parts(p: &str) -> Vec<&str> {
        p.split(|c| c == '/' || c == '\\').filter(|part| !part.is_empty()).collect()
    }
    match actual {
        Some(a) => parts(a) == parts(expected),
        None => false,
    }
}

fn location_error(env: ConfigEnv) -> (LocationError, String) {
    let error = service_config(env).expect_err("the ledger location should be refused");
    assert_eq!(error.variable, DATABASE_URL_ENV);
    let text = error.to_text();
    (error.into_location().expect("a location error"), text)
}

fn unset() -> ConfigEnv {
    ConfigEnv {
        port: EnvLookup::NotPresent,
        hosting_port: EnvLookup::NotPresent,
        mode: EnvLookup::NotPresent,
        database_url: EnvLookup::NotPresent,
        create_ledger_if_missing: EnvLookup::NotPresent,
        backup_enabled: EnvLookup::NotPresent,
        backup_dir: EnvLookup::NotPresent,
        one_drive: EnvLookup::NotPresent,
        local_app_data: EnvLookup::NotPresent,
        log_file: EnvLookup::NotPresent,
        log_max_bytes: EnvLookup::NotPresent,
        market_data_refresh_enabled: EnvLookup::NotPresent,
        launch_refresh_enabled: EnvLookup::NotPresent,
        static_assets_dir: EnvLookup::NotPresent,
    }
}

fn set(value: &str) -> EnvLookup {
    EnvLookup::Value(value.to_owned())
}

fn demo() -> ConfigEnv {
    ConfigEnv { mode: set("demo"), ..unset() }
}

fn load(env: ConfigEnv) -> ServiceConfig {
    service_config(env).expect("config should load")
}

#[test]
fn mode_defaults_and_asset_policy() {
    let config = load(ConfigEnv { local_app_data: set("C:/temp/appdata"), ..unset() });

    assert_eq!(config.port, 8480);
    assert_eq!(config.mode, Mode::Production);
    assert_eq!(config.mode.asset_policy(), AssetPolicy::Required);
    assert_eq!(Mode::Development.asset_policy(), AssetPolicy::Optional);
    assert_eq!(Mode::Demo.asset_policy(), AssetPolicy::Optional);
    assert_eq!(config.static_assets_dir, DEFAULT_STATIC_ASSETS_DIR);
    assert!(!config.create_ledger_if_missing);
    assert!(config.market_data_refresh_enabled);
    assert!(config.launch_refresh_enabled);
    assert!(same_path(
        config.log_file.path(),
        "C:/temp/appdata/TickerTapeTallyBoard/logs/engine.log"
    ));
    assert_eq!(config.log_max_bytes, None);
}

#[test]
fn modes_have_expected_defaults_and_demo_ignores_url_without_touching_it() {
    for (mode, file) in [("production", "portfolio.sqlite"), ("development", "portfolio-dev.sqlite")] {
        let config = load(ConfigEnv {
            mode: set(mode),
            local_app_data: set("C:/temp/appdata"),
            ..unset()
        });
        assert!(config.ledger.url.ends_with(file));
    }

    let database_url = "sqlite://C:/ledgers/ignored-demo-ledger.sqlite";
    let config = load(ConfigEnv { database_url: set(database_url), ..demo() });
    assert!(config.ledger.path.is_none());
    assert_ne!(config.ledger.url, database_url);
}

#[test]
fn default_ledger_url_uses_forward_slashes_and_one_separator() {
    let config = load(ConfigEnv { local_app_data: set("C:\\x\\"), ..unset() });
    assert_eq!(config.ledger.url, "sqlite://C:/x/TickerTapeTallyBoard/portfolio.sqlite");
    assert_eq!(config.ledger.path.as_deref(), Some("C:/x/TickerTapeTallyBoard/portfolio.sqlite"));
}

#[test]
fn from_env_uses_tttb_port_before_hosting_port() {
    let config = load(ConfigEnv { port: set("9090"), hosting_port: set("3000"), ..demo() });
    assert_eq!(config.port, 9090);
}

#[test]
fn from_env_uses_hosting_port_when_tttb_port_is_missing() {
    let config = load(ConfigEnv { hosting_port: set("3000"), ..demo() });
    assert_eq!(config.port, 3000);
}

#[test]
fn from_env_uses_static_assets_dir_override() {
    let config = load(ConfigEnv { static_assets_dir: set("C:/tttb/static"), ..demo() });
    assert_eq!(config.static_assets_dir, "C:/tttb/static");
}

#[test]
fn from_env_uses_database_url_override() {
    let url = "sqlite://C:/ledgers/database-override.sqlite";
    let config = load(ConfigEnv { database_url: set(url), ..unset() });
    assert_eq!(config.ledger.url, url);
}

#[test]
fn relative_database_url_becomes_typed_startup_error() {
    let (error, text) = location_error(ConfigEnv { database_url: set("sqlite://ledger.sqlite"), ..unset() });
    assert!(matches!(error, LocationError::NotAbsolute { .. }));
    assert!(text.contains("must be absolute"));
}

#[test]
fn demo_ignores_an_absolute_nonexistent_database_url_and_starts_in_memory() {
    let config = load(ConfigEnv {
        database_url: set("sqlite://C:/ledgers/absolute-demo-ledger.sqlite"),
        ..demo()
    });
    assert!(config.ledger.path.is_none());
    assert_eq!(config.ledger.url, "sqlite::memory:");
}

#[test]
fn root_relative_database_url_is_not_absolute_on_windows() {
    let (error, text) = location_error(ConfigEnv { database_url: set("sqlite:///ledger.sqlite"), ..unset() });
    assert!(matches!(error, LocationError::NotAbsolute { .. }));
    assert!(text.contains("must be absolute"));
}

#[test]
fn relative_local_app_data_makes_default_database_url_not_absolute() {
    let (error, text) = location_error(ConfigEnv { local_app_data: set("relative-appdata"), ..unset() });
    assert!(matches!(error, LocationError::NotAbsolute { .. }));
    assert!(text.contains("must be absolute"));
}

#[test]
fn in_memory_production_url_becomes_typed_startup_error() {
    let (error, _) = location_error(ConfigEnv { database_url: set("sqlite::memory:"), ..unset() });
    assert_eq!(error, LocationError::MustBeFileBacked { mode: Mode::Production });
}

#[test]
fn unsupported_url_becomes_typed_startup_error() {
    let (error, _) = location_error(ConfigEnv { database_url: set("postgres://ledger"), ..unset() });
    assert!(matches!(error, LocationError::UnsupportedUrl { .. }));
}

#[test]
fn network_share_ledger_is_absolute() {
    let config = load(ConfigEnv { database_url: set("sqlite:////server/share/ledger.sqlite"), ..unset() });
    assert_eq!(config.ledger.path.as_deref(), Some("//server/share/ledger.sqlite"));
    let (error, _) = location_error(ConfigEnv { database_url: set("sqlite:////server"), ..unset() });
    assert!(matches!(error, LocationError::NotAbsolute { .. }));
}

#[test]
fn from_env_uses_create_ledger_flag() {
    let config = load(ConfigEnv { create_ledger_if_missing: set("1"), ..demo() });
    assert!(config.create_ledger_if_missing);
}

#[test]
fn invalid_backup_path_variables_become_unresolved_instead_of_config_errors() {
    let url = set("sqlite://C:/ledgers/backup-config.sqlite");
    let cases: [(&str, &str); 3] = [
        (BACKUP_DIR_ENV, "production"),
        (ONE_DRIVE_ENV, "production"),
        (LOCAL_APP_DATA_ENV, "development"),
    ];
    for (variable, mode) in cases {
        let mut env = ConfigEnv { mode: set(mode), database_url: url.clone(), ..unset() };
        match variable {
            BACKUP_DIR_ENV => env.backup_dir = set("   "),
            ONE_DRIVE_ENV => env.one_drive = set("   "),
            _ => env.local_app_data = set("   "),
        }
        let config = load(env);
        assert!(matches!(config.backup_dir, BackupDirectory::Unresolved(_)));
    }

    for variable in [BACKUP_DIR_ENV, ONE_DRIVE_ENV, LOCAL_APP_DATA_ENV] {
        let directory = backup_directory_from_result(
            variable,
            &[],
            EnvLookup::NotUnicode("not-unicode".to_owned()),
        )
        .expect("invalid variable should produce an unresolved directory");
        assert!(matches!(directory, BackupDirectory::Unresolved(_)));
    }
}

#[test]
fn log_file_uses_mode_specific_app_data_defaults_and_allows_an_override() {
    for (mode, file) in [
        ("production", "engine.log"),
        ("development", "engine-development.log"),
        ("demo", "engine-demo.log"),
    ] {
        let config = load(ConfigEnv {
            mode: set(mode),
            database_url: set("sqlite://C:/ledgers/log-config.sqlite"),
            local_app_data: set("C:/temp/appdata"),
            ..unset()
        });
        let expected = format!("C:/temp/appdata/TickerTapeTallyBoard/logs/{file}");
        assert!(same_path(config.log_file.path(), &expected));
    }

    let config = load(ConfigEnv { log_file: set("C:/logs/override.log"), ..demo() });
    assert!(same_path(config.log_file.path(), "C:/logs/override.log"));
}

#[test]
fn log_max_bytes_defaults_and_rejects_zero_or_unparseable_values() {
    let config = load(ConfigEnv { log_max_bytes: set("4096"), ..demo() });
    assert_eq!(config.log_max_bytes, Some(4096));

    for invalid in ["0", "many"] {
        let error = service_config(ConfigEnv { log_max_bytes: set(invalid), ..demo() })
            .expect_err("invalid limit should be rejected");
        assert_eq!(error.variable, LOG_MAX_BYTES_ENV);
        assert_eq!(error.value, invalid);
    }
}

#[test]
fn relative_log_file_override_becomes_unresolved() {
    let config = load(ConfigEnv { log_file: set("engine.log"), ..demo() });
    assert!(matches!(
        config.log_file,
        LogFile::Unresolved(reason) if reason.contains("absolute")
    ));
}

#[test]
fn relative_backup_directory_override_becomes_unresolved() {
    let config = load(ConfigEnv {
        mode: set("production"),
        database_url: set("sqlite://C:/ledgers/backup-relative.sqlite"),
        backup_dir: set("backups"),
        ..unset()
    });
    assert!(matches!(
        config.backup_dir,
        BackupDirectory::Unresolved(reason) if reason.contains("absolute")
    ));
}

#[test]
fn absolute_backup_directory_override_is_resolved_unchanged() {
    let config = load(ConfigEnv {
        mode: set("production"),
        database_url: set("sqlite://C:/ledgers/backup-absolute.sqlite"),
        backup_dir: set("C:/backups"),
        ..unset()
    });
    assert!(same_path(config.backup_dir.path(), "C:/backups"));
}

#[test]
fn demo_ignores_relative_backup_directory_override() {
    let config = load(ConfigEnv { backup_dir: set("backups"), ..demo() });
    assert!(matches!(
        config.backup_dir,
        BackupDirectory::Unresolved(reason) if reason == "demo mode does not use backups"
    ));
    assert!(!config.backup_enabled);
}

#[test]
fn unresolved_default_log_path_degrades_instead_of_rejecting_config() {
    let config = load(ConfigEnv {
        database_url: set("sqlite://C:/ledgers/log-unresolved.sqlite"),
        local_app_data: set("   "),
        ..unset()
    });
    assert!(matches!(config.log_file, LogFile::Unresolved(_)));
}

#[test]
fn blank_log_file_override_degrades_instead_of_rejecting_config() {
    let config = load(ConfigEnv { log_file: set("   "), ..demo() });
    assert!(matches!(
        config.log_file,
        LogFile::Unresolved(reason) if reason.contains(LOG_FILE_ENV)
    ));
}

#[test]
fn unknown_mode_is_rejected() {
    let error = service_config(ConfigEnv { mode: set("staging"), ..unset() })
        .expect_err("unknown mode should fail");
    assert_eq!(error.variable, MODE_ENV);
    assert_eq!(error.value, "staging");
    assert_eq!(error.message, "must be production, development, or demo");
}

#[test]
fn from_env_uses_refresh_flags() {
    let config = load(ConfigEnv {
        market_data_refresh_enabled: set("false"),
        launch_refresh_enabled: set("1"),
        ..demo()
    });
    assert!(!config.market_data_refresh_enabled);
    assert!(config.launch_refresh_enabled);
}

#[test]
fn local_app_data_is_required_outside_demo_without_override() {
    let error = service_config(unset()).expect_err("missing app data should fail");
    let message = error.to_text();
    assert!(message.contains("LOCALAPPDATA"));
    assert!(message.contains("TTTB_DATABASE_URL"));
}

#[test]
fn the_first_rejected_setting_is_reported() {
    let error = service_config(ConfigEnv {
        port: set("http"),
        mode: set("staging"),
        ..unset()
    })
    .expect_err("port is read first");
    assert_eq!(error.value, "http");
    assert_eq!(error.message, "must be a TCP port number");
}

#[test]
fn relative_overrides_are_quoted_in_the_unresolved_reason() {
    let config = load(ConfigEnv {
        mode: set("development"),
        database_url: set("sqlite://C:/ledgers/dev.sqlite"),
        backup_dir: set("backups"),
        log_file: set("logs/engine.log"),
        ..unset()
    });
    assert!(matches!(
        config.backup_dir,
        BackupDirectory::Unresolved(ref reason)
            if reason == "TTTB_BACKUP_DIR value \"backups\" must be an absolute path"
    ));
    assert!(matches!(
        config.log_file,
        LogFile::Unresolved(ref reason)
            if reason == "TTTB_LOG_FILE value \"logs/engine.log\" must be an absolute path"
    ));
}
