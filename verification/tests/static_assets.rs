use tttb_backend::static_assets::{accepts_html, index_path};

#[test]
fn navigation_requires_an_accepted_html_media_type() {
    assert!(accepts_html(Some("text/html")));
    assert!(accepts_html(Some(
        "text/html,application/xhtml+xml,application/xml;q=0.9"
    )));
    assert!(!accepts_html(Some("application/json")));
    assert!(!accepts_html(Some("*/*")));
    assert!(!accepts_html(Some("text/html;q=0")));
    assert!(!accepts_html(None));
}

#[test]
fn quality_zero_follows_single_precision_parsing() {
    let values = [
        "0", "0.0", "-0", "+0.000", ".0", "0.", "0e5", "0E-3", "1", "0.5", "1e-45", "1e-46",
        "7e-46", "8e-46", "7.00649232162408535461864791644958065640130970938257885878534141944895541342930300743319094181060791015625e-46",
        "7.006492321624085354618647916449580656401309709382578858785341419448955413429303007433190941810607910156251e-46",
        "0.000000000000000000000000000000000000000000000700649232162408535461864791644958065640130970938257885878534141944895541342930300743319094181060791015625",
        "1e-99999999999999999999999", "1e99999999999999999999999", "nan", "inf", "-inf", "",
        ".", "e5", "1e", "1e+", "1.2.3", "0x0", "00000000000000000000000000000001e-47",
        "1e-50", "-1e-50", "1E-50", "0e5", ".0", "-0", "-.0", "+.0e+0", "00.00", "0.0e-0",
        "-0e-999", "1e-38", "1.4e-45", "1.5e-45", "0.7e-45", "infinity", "NaN", "0_0", "+", "-", "0e", ".e1", "1.e-50", "0.000000000000000000000000000000000000000000001",
    ];
    for value in values {
        let header = format!("text/html;q={value}");
        let expected_zero = value.parse::<f32>().map(|q| q == 0.0).unwrap_or(false);
        assert_eq!(accepts_html(Some(&header)), !expected_zero, "q={value:?}");
    }
}

#[test]
fn quality_parameters_are_trimmed_and_case_insensitive() {
    assert!(!accepts_html(Some("TEXT/HTML ; Q = 0.0 ")));
    assert!(accepts_html(Some("text/html; level=1")));
    assert!(accepts_html(Some("application/json, text/html;q=0.1")));
    assert!(!accepts_html(Some("text/html;q=0, application/json")));
}

#[test]
fn shell_lives_in_the_assets_directory() {
    assert_eq!(index_path("dist"), "dist\\index.html");
    assert_eq!(index_path("dist/"), "dist/index.html");
    assert_eq!(index_path("C:"), "C:index.html");
}
