use tttb_backend::config::{startup_banner, BackupDirectory, LogInitOutcome};
use tttb_backend::config::{
    log_file_from_result, parse_bool, parse_port, read_optional_result, AppShell, EnvLookup, Mode,
    HOST_ENV, MARKET_DATA_REFRESH_ENABLED_ENV, PORT_ENV,
};

#[test]
fn parse_port_rejects_non_port_values() {
    let error = parse_port(PORT_ENV, "70000").expect_err("port must fit in u16");

    assert_eq!(error.variable, PORT_ENV);
    assert_eq!(error.value, "70000");
    assert_eq!(error.message, "must be a TCP port number");
}

#[test]
fn parse_bool_rejects_invalid_values() {
    let error = parse_bool(MARKET_DATA_REFRESH_ENABLED_ENV, "sometimes")
        .expect_err("invalid boolean value should fail");

    assert_eq!(error.variable, MARKET_DATA_REFRESH_ENABLED_ENV);
    assert_eq!(error.value, "sometimes");
    assert_eq!(error.message, "must be a boolean value");
}

#[test]
fn read_optional_rejects_empty_values() {
    let error = read_optional_result(HOST_ENV, EnvLookup::Value("  ".to_owned()))
        .expect_err("empty value should fail");

    assert_eq!(error.variable, HOST_ENV);
    assert_eq!(error.message, "must not be empty");
}

#[test]
fn read_optional_rejects_non_unicode_values() {
    let error = read_optional_result(HOST_ENV, EnvLookup::NotUnicode("not-unicode".to_owned()))
        .expect_err("non-Unicode value should fail");

    assert_eq!(error.variable, HOST_ENV);
    assert_eq!(error.value, "not-unicode");
    assert_eq!(error.message, "must be valid Unicode");
}

#[test]
fn log_file_defaults_cover_every_shell_and_mode() {
    for (shell, mode, file) in [
        (AppShell::Server, Mode::Production, "engine.log"),
        (AppShell::Server, Mode::Development, "engine-development.log"),
        (AppShell::Server, Mode::Demo, "engine-demo.log"),
        (AppShell::Desktop, Mode::Production, "engine-desktop.log"),
        (AppShell::Desktop, Mode::Development, "engine-desktop-development.log"),
        (AppShell::Desktop, Mode::Demo, "engine-desktop-demo.log"),
    ] {
        let log_file = log_file_from_result(EnvLookup::Value("C:/app-data".to_owned()), mode, shell);
        let expected = format!("C:/app-data/TickerTapeTallyBoard/logs/{file}");
        let parts = |p: &str| -> Vec<String> {
            p.split(|c| c == '/' || c == '\\')
                .filter(|part| !part.is_empty())
                .map(|part| part.to_owned())
                .collect()
        };
        assert_eq!(log_file.path().map(parts), Some(parts(&expected)));
    }
}

#[test]
fn port_and_bool_accept_their_forms() {
    assert_eq!(parse_port(PORT_ENV, "8480").expect("port"), 8480);
    assert_eq!(parse_port(PORT_ENV, "+65535").expect("port"), 65535);
    assert!(parse_port(PORT_ENV, "").is_err());
    assert!(parse_bool(MARKET_DATA_REFRESH_ENABLED_ENV, "1").expect("bool"));
    assert!(!parse_bool(MARKET_DATA_REFRESH_ENABLED_ENV, "false").expect("bool"));
}

#[test]
fn startup_banner_names_in_memory_demo_ledger_on_one_line() {
    let log_outcome = LogInitOutcome {
        file_path: Some("C:/logs/engine-demo.log".to_owned()),
        file_error: None,
    };
    let banner = startup_banner(
        Mode::Demo,
        &None,
        &BackupDirectory::Unresolved("demo mode does not use backups".to_owned()),
        "../frontend/dist",
        &log_outcome,
        "127.0.0.1:8480",
    );
    assert!(banner.contains("mode=demo ledger=in-memory (demo)"));
    assert!(!banner.contains("ledger= backup_dir="));
    assert!(!banner.contains(['\r', '\n']));
    assert_eq!(
        banner,
        "startup: mode=demo ledger=in-memory (demo) backup_dir=unresolved: demo mode does not use backups static_assets_dir=../frontend/dist log=C:/logs/engine-demo.log listen=127.0.0.1:8480"
    );
}

#[test]
fn startup_banner_reports_unavailable_file_logging_on_one_line() {
    let log_outcome = LogInitOutcome {
        file_path: None,
        file_error: Some("invalid TTTB_LOG_FILE value".to_owned()),
    };
    let banner = startup_banner(
        Mode::Production,
        &None,
        &BackupDirectory::Resolved("C:/backups".to_owned()),
        "../frontend/dist",
        &log_outcome,
        "127.0.0.1:8480",
    );
    assert!(banner.contains("log=unavailable (invalid TTTB_LOG_FILE value)"));
    assert!(!banner.contains(['\r', '\n']));
    let unknown = startup_banner(
        Mode::Production,
        &Some("C:/ledgers/portfolio.sqlite".to_owned()),
        &BackupDirectory::Resolved("C:/backups".to_owned()),
        "dist",
        &LogInitOutcome { file_path: None, file_error: None },
        "127.0.0.1:8480",
    );
    assert!(unknown.contains("ledger=C:/ledgers/portfolio.sqlite backup_dir=C:/backups"));
    assert!(unknown.contains("log=unavailable (unknown error)"));
}
