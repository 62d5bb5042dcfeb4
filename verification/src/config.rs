//! Startup configuration: run modes, environment value validation, and the
//! resolution of log and backup destinations.
//!
//! Reading the process environment happens at the edge; this module receives
//! each variable's lookup result as an [`EnvLookup`] and decides everything else.
use vstd::prelude::*;

use crate::text::{
    append_str, chars_eq, chars_of, lower, lower_chars, push_char, str_eq, string_of_range, trim,
    trim_string,
};

verus! {

pub const MODE_ENV: &'static str = "TTTB_MODE";
pub const DATABASE_URL_ENV: &'static str = "TTTB_DATABASE_URL";
pub const CREATE_LEDGER_IF_MISSING_ENV: &'static str = "TTTB_CREATE_LEDGER_IF_MISSING";
pub const HOST_ENV: &'static str = "TTTB_HOST";
pub const LOCAL_APP_DATA_ENV: &'static str = "LOCALAPPDATA";
pub const MARKET_DATA_REFRESH_ENABLED_ENV: &'static str = "TTTB_MARKET_DATA_REFRESH_ENABLED";
pub const MARKET_DATA_LAUNCH_REFRESH_ENABLED_ENV: &'static str = "TTTB_MARKET_DATA_LAUNCH_REFRESH_ENABLED";
pub const PORT_ENV: &'static str = "TTTB_PORT";
pub const HOSTING_PORT_ENV: &'static str = "PORT";
pub const STATIC_ASSETS_DIR_ENV: &'static str = "TTTB_STATIC_DIR";
pub const BACKUP_ENABLED_ENV: &'static str = "TTTB_BACKUP_ENABLED";
pub const BACKUP_DIR_ENV: &'static str = "TTTB_BACKUP_DIR";
pub const LOG_FILE_ENV: &'static str = "TTTB_LOG_FILE";
pub const LOG_MAX_BYTES_ENV: &'static str = "TTTB_LOG_MAX_BYTES";
pub const ONE_DRIVE_ENV: &'static str = "OneDrive";
pub const DEFAULT_PORT: u16 = 8480;
pub const DEFAULT_STATIC_ASSETS_DIR: &'static str = "../frontend/dist";
pub const APP_DIR_NAME: &'static str = "TickerTapeTallyBoard";

/// The three run modes of the engine.
#[derive(Clone, Copy, Debug, PartialEq, Eq, Structural)]
pub enum Mode {
    Production,
    Development,
    Demo,
}

/// Whether the built frontend must exist for the server to start.
#[derive(Clone, Copy, Debug, PartialEq, Eq, Structural)]
pub enum AssetPolicy {
    Required,
    Optional,
}

/// Which shell hosts the engine: the plain server or the native desktop shell.
#[derive(Clone, Copy, Debug, PartialEq, Eq, Structural)]
pub enum AppShell {
    Server,
    Desktop,
}

impl Mode {
    pub open spec fn spec_asset_policy(self) -> AssetPolicy {
        match self {
            Mode::Production => AssetPolicy::Required,
            _ => AssetPolicy::Optional,
        }
    }

    /// Production requires the frontend; development and demo treat it as optional.
    pub fn asset_policy(self) -> (p: AssetPolicy)
        ensures
            p == self.spec_asset_policy(),
    {
        match self {
            Mode::Production => AssetPolicy::Required,
            Mode::Development | Mode::Demo => AssetPolicy::Optional,
        }
    }

    pub fn is_demo(self) -> (b: bool)
        ensures
            b == (self == Mode::Demo),
    {
        match self {
            Mode::Demo => true,
            _ => false,
        }
    }

    /// The lower-case name that [`parse_mode`] accepts for this mode.
    pub fn as_str(self) -> (s: &'static str)
        ensures
            s@ == mode_name(self),
    {
        match self {
            Mode::Production => "production",
            Mode::Development => "development",
            Mode::Demo => "demo",
        }
    }
}

pub open spec fn mode_name(mode: Mode) -> Seq<char> {
    match mode {
        Mode::Production => "production"@,
        Mode::Development => "development"@,
        Mode::Demo => "demo"@,
    }
}

/// Name for what `format!("{:?}", s)` renders for a string: the quoted,
/// escaped debug form.
pub uninterp spec fn debug_text(s: Seq<char>) -> Seq<char>;

/// `format!("{:?}", s)` on a string slice (std's `Debug` for `str`). The result
/// is named by [`debug_text`]; its escaping rules are not restated here.
#[verifier::external_body]
pub(crate) fn debug_string(s: &str) -> (r: String)
    ensures
        r@ == debug_text(s@),
{
    format!("{:?}", s)
}

/// Why a ledger location is refused.
#[derive(Clone, Debug, PartialEq, Eq)]
pub enum LocationError {
    /// The URL is not an SQLite URL.
    UnsupportedUrl { url: String },
    /// The mode keeps its ledger in a file, but the URL names an in-memory
    /// database.
    MustBeFileBacked { mode: Mode },
    /// The file path of the URL is not absolute.
    NotAbsolute { path: String },
    /// The path exists but is not a file (found when the path is inspected).
    NotAFile { path: String },
}

/// The text a refused location reports.
pub open spec fn location_text(e: LocationError) -> Seq<char> {
    match e {
        LocationError::UnsupportedUrl { url } => "ledger URL "@ + debug_text(url@)
            + " is not a supported sqlite:// location"@,
        LocationError::MustBeFileBacked { mode } => mode_name(mode)
            + " mode requires a file-backed ledger, not an in-memory database"@,
        LocationError::NotAbsolute { path } => "ledger path "@ + debug_text(path@)
            + " must be absolute"@,
        LocationError::NotAFile { path } => "ledger path "@ + debug_text(path@) + " is not a file"@,
    }
}

impl LocationError {
    /// The text the refusal reports.
    pub fn to_text(&self) -> (s: String)
        ensures
            s@ == location_text(*self),
    {
        match self {
            LocationError::UnsupportedUrl { url } => {
                let mut s = "ledger URL ".to_owned();
                let q = debug_string(url.as_str());
                append_str(&mut s, q.as_str());
                append_str(&mut s, " is not a supported sqlite:// location");
                s
            },
            LocationError::MustBeFileBacked { mode } => {
                let mut s = mode.as_str().to_owned();
                append_str(&mut s, " mode requires a file-backed ledger, not an in-memory database");
                s
            },
            LocationError::NotAbsolute { path } => {
                let mut s = "ledger path ".to_owned();
                let q = debug_string(path.as_str());
                append_str(&mut s, q.as_str());
                append_str(&mut s, " must be absolute");
                s
            },
            LocationError::NotAFile { path } => {
                let mut s = "ledger path ".to_owned();
                let q = debug_string(path.as_str());
                append_str(&mut s, q.as_str());
                append_str(&mut s, " is not a file");
                s
            },
        }
    }
}

/// Where the ledger lives: its URL and, for a file, the file's path.
#[derive(Clone, Debug, PartialEq, Eq)]
pub struct LedgerLocation {
    pub url: String,
    pub path: Option<String>,
}

/// The URL of the in-memory ledger.
pub const IN_MEMORY_URL: &'static str = "sqlite::memory:";

/// The scheme of a file-backed ledger URL.
pub const SQLITE_FILE_SCHEME: &'static str = "sqlite://";

/// `r` is the outcome of resolving the ledger `url` in `mode`: demo always
/// uses an in-memory ledger; elsewhere an in-memory URL is refused, a
/// `sqlite://` URL is accepted when its path is absolute, and any other URL is
/// unsupported.
pub open spec fn ledger_resolution(
    url: Seq<char>,
    mode: Mode,
    r: Result<LedgerLocation, LocationError>,
) -> bool {
    if mode == Mode::Demo {
        r matches Ok(l) && l.url@ == IN_MEMORY_URL@ && l.path is None
    } else if url == IN_MEMORY_URL@ {
        r matches Err(LocationError::MustBeFileBacked { mode: m }) && m == mode
    } else if SQLITE_FILE_SCHEME@.len() <= url.len() && url.take(SQLITE_FILE_SCHEME@.len() as int)
        == SQLITE_FILE_SCHEME@ {
        let path = url.skip(SQLITE_FILE_SCHEME@.len() as int);
        if is_absolute_path(path) {
            r matches Ok(l) && l.url@ == url && (l.path matches Some(p) && p@ == path)
        } else {
            r matches Err(LocationError::NotAbsolute { path: p }) && p@ == path
        }
    } else {
        r matches Err(LocationError::UnsupportedUrl { url: u }) && u@ == url
    }
}

/// Whether resolving `url` in `mode` refuses it.
pub open spec fn ledger_refused(url: Seq<char>, mode: Mode) -> bool {
    mode != Mode::Demo && (url == IN_MEMORY_URL@ || !(SQLITE_FILE_SCHEME@.len() <= url.len()
        && url.take(SQLITE_FILE_SCHEME@.len() as int) == SQLITE_FILE_SCHEME@ && is_absolute_path(
        url.skip(SQLITE_FILE_SCHEME@.len() as int),
    )))
}

/// The ledger location of `url` in `mode`, as [`ledger_resolution`] states.
/// Whether an accepted path names a file is left to whoever opens it.
pub fn resolve_ledger(url: &str, mode: Mode) -> (r: Result<LedgerLocation, LocationError>)
    ensures
        ledger_resolution(url@, mode, r),
        r is Err <==> ledger_refused(url@, mode),
{
    if mode.is_demo() {
        return Ok(LedgerLocation { url: IN_MEMORY_URL.to_owned(), path: None });
    }
    if str_eq(url, IN_MEMORY_URL) {
        return Err(LocationError::MustBeFileBacked { mode });
    }
    let v = chars_of(url);
    let scheme = chars_of(SQLITE_FILE_SCHEME);
    let n = scheme.len();
    let mut matches = n <= v.len();
    let mut i: usize = 0;
    while matches && i < n
        invariant
            n == scheme@.len() == SQLITE_FILE_SCHEME@.len(),
            v@ == url@,
            scheme@ == SQLITE_FILE_SCHEME@,
            i <= n,
            matches ==> n <= v@.len() && v@.take(i as int) == scheme@.take(i as int),
            !matches ==> !(n <= v@.len() && v@.take(n as int) == scheme@),
        decreases n - i + (if matches { 1int } else { 0int }),
    {
        if v[i] != scheme[i] {
            assert(v@.take(n as int)[i as int] != scheme@[i as int]);
            matches = false;
        } else {
            assert(v@.take(i + 1) =~= v@.take(i as int).push(v@[i as int]));
            assert(scheme@.take(i + 1) =~= scheme@.take(i as int).push(scheme@[i as int]));
            i = i + 1;
        }
    }
    if !matches {
        return Err(LocationError::UnsupportedUrl { url: url.to_owned() });
    }
    assert(scheme@.take(n as int) =~= scheme@);
    let path = string_of_range(&v, n, v.len());
    assert(path@ =~= url@.skip(n as int));
    if is_absolute(path.as_str()) {
        Ok(LedgerLocation { url: url.to_owned(), path: Some(path) })
    } else {
        Err(LocationError::NotAbsolute { path })
    }
}

/// An invalid configuration value.
#[derive(Clone, Debug)]
pub struct ConfigError {
    pub variable: &'static str,
    pub value: String,
    pub message: &'static str,
    pub location: Option<LocationError>,
}

pub open spec fn config_error_text(e: ConfigError) -> Seq<char> {
    match e.location {
        Some(l) => location_text(l),
        None => "invalid "@ + e.variable@ + " value "@ + debug_text(e.value@) + ": "@ + e.message@,
    }
}

impl ConfigError {
    /// A plain value error naming the variable, its rejected value and why.
    pub fn value(variable: &'static str, value: String, message: &'static str) -> (e: Self)
        ensures
            e.variable == variable,
            e.value == value,
            e.message == message,
            e.location is None,
    {
        ConfigError { variable, value, message, location: None }
    }

    /// Wraps a ledger-location error; attributed to the database URL variable.
    pub fn from_location(error: LocationError) -> (e: Self)
        ensures
            e.variable@ == DATABASE_URL_ENV@,
            e.value@ == Seq::<char>::empty(),
            e.message@ == "must be a supported ledger location for the selected mode"@,
            e.location == Some(error),
    {
        ConfigError {
            variable: DATABASE_URL_ENV,
            value: String::new(),
            message: "must be a supported ledger location for the selected mode",
            location: Some(error),
        }
    }

    /// The wrapped ledger-location error, or the error itself when it wraps none.
    pub fn into_location(self) -> (r: Result<LocationError, ConfigError>)
        ensures
            match self.location {
                Some(l) => r == Ok::<LocationError, ConfigError>(l),
                None => r matches Err(e) && e.variable == self.variable && e.value == self.value
                    && e.message == self.message && e.location is None,
            },
    {
        let ConfigError { variable, value, message, location } = self;
        match location {
            Some(error) => Ok(error),
            None => Err(ConfigError { variable, value, message, location: None }),
        }
    }

    /// The error's display text.
    pub fn to_text(&self) -> (s: String)
        ensures
            s@ == config_error_text(*self),
    {
        match &self.location {
            Some(l) => l.to_text(),
            None => {
                let mut s = String::new();
                append_str(&mut s, "invalid ");
                append_str(&mut s, self.variable);
                append_str(&mut s, " value ");
                let q = debug_string(self.value.as_str());
                append_str(&mut s, q.as_str());
                append_str(&mut s, ": ");
                append_str(&mut s, self.message);
                s
            },
        }
    }
}

/// The outcome of looking one variable up in the process environment.
#[derive(Clone, Debug)]
pub enum EnvLookup {
    /// Set, with valid Unicode.
    Value(String),
    /// Not set.
    NotPresent,
    /// Set, but not valid Unicode; carries its lossy rendering.
    NotUnicode(String),
}

pub open spec fn spec_read_optional(variable: &'static str, result: EnvLookup) -> Result<Option<Seq<char>>, (Seq<char>, Seq<char>)> {
    match result {
        EnvLookup::Value(v) => if trim(v@).len() == 0 {
            Err((v@, "must not be empty"@))
        } else {
            Ok(Some(v@))
        },
        EnvLookup::NotPresent => Ok(None),
        EnvLookup::NotUnicode(lossy) => Err((lossy@, "must be valid Unicode"@)),
    }
}

/// Classifies a lookup: unset is absent, blank or non-Unicode is an error
/// naming the variable, anything else is the value.
pub fn read_optional_result(variable: &'static str, result: EnvLookup) -> (r: Result<
    Option<String>,
    ConfigError,
>)
    ensures
        match spec_read_optional(variable, result) {
            Ok(None) => r matches Ok(None),
            Ok(Some(v)) => r matches Ok(Some(s)) && s@ == v,
            Err((value, message)) => r matches Err(e) && e.variable == variable && e.value@ == value
                && e.message@ == message && e.location is None,
        },
{
    match result {
        EnvLookup::Value(value) => {
            let t = trim_string(value.as_str());
            if t.unicode_len() == 0 {
                Err(ConfigError::value(variable, value, "must not be empty"))
            } else {
                Ok(Some(value))
            }
        },
        EnvLookup::NotPresent => Ok(None),
        EnvLookup::NotUnicode(lossy) => Err(
            ConfigError::value(variable, lossy, "must be valid Unicode"),
        ),
    }
}

/// The value of a string of decimal digits.
pub open spec fn digits_value(s: Seq<char>) -> nat
    decreases s.len(),
{
    if s.len() == 0 {
        0
    } else {
        digits_value(s.drop_last()) * 10 + ((s.last() as u32) - 48) as nat
    }
}

pub open spec fn is_digit(c: char) -> bool {
    '0' <= c && c <= '9'
}

pub open spec fn all_digits(s: Seq<char>) -> bool {
    forall|i: int| 0 <= i < s.len() ==> is_digit(#[trigger] s[i])
}

/// The text after an optional leading `+`.
pub open spec fn strip_plus(s: Seq<char>) -> Seq<char> {
    if s.len() > 0 && s[0] == '+' {
        s.drop_first()
    } else {
        s
    }
}

/// What `str::parse` yields for an unsigned integer, before the range check:
/// an optional `+`, then one or more decimal digits and nothing else.
pub open spec fn unsigned_literal(s: Seq<char>) -> Option<nat> {
    if strip_plus(s).len() > 0 && all_digits(strip_plus(s)) {
        Some(digits_value(strip_plus(s)))
    } else {
        None
    }
}

/// `str::parse::<uN>` for a type whose largest value is `max`.
pub open spec fn parse_unsigned_spec(s: Seq<char>, max: nat) -> Option<nat> {
    match unsigned_literal(s) {
        Some(n) => if n <= max {
            Some(n)
        } else {
            None
        },
        None => None,
    }
}

pub proof fn lemma_digits_value_monotone(s: Seq<char>, k: int)
    requires
        0 <= k <= s.len(),
        forall|j: int| 0 <= j < s.len() ==> is_digit(#[trigger] s[j]),
    ensures
        digits_value(s.subrange(0, k)) <= digits_value(s),
    decreases s.len() - k,
{
    if k < s.len() {
        let t = s.drop_last();
        assert(t.subrange(0, k) =~= s.subrange(0, k));
        assert forall|j: int| 0 <= j < t.len() implies is_digit(#[trigger] t[j]) by {
            assert(t[j] == s[j]);
        }
        lemma_digits_value_monotone(t, k);
    } else {
        assert(s.subrange(0, k) =~= s);
    }
}

/// Parses an unsigned integer no larger than `max`, as `str::parse` does for
/// unsigned types: optional `+`, decimal digits, no white space.
pub fn parse_unsigned(s: &str, max: u64) -> (r: Option<u64>)
    ensures
        match parse_unsigned_spec(s@, max as nat) {
            Some(n) => r == Some(n as u64),
            None => r is None,
        },
{
    let v = chars_of(s);
    let ghost sv = s@;
    let start: usize = if v.len() > 0 && v[0] == '+' {
        1
    } else {
        0
    };
    let ghost body = strip_plus(sv);
    assert(body =~= sv.subrange(start as int, sv.len() as int));
    if start >= v.len() {
        return None;
    }
    let mut acc: u64 = 0;
    let mut i: usize = start;
    while i < v.len()
        invariant
            start <= i <= v.len(),
            v@ == sv,
            sv == s@,
            start < v.len(),
            body == sv.subrange(start as int, sv.len() as int),
            body == strip_plus(sv),
            acc as nat == digits_value(sv.subrange(start as int, i as int)),
            acc <= max,
            forall|j: int| start <= j < i ==> is_digit(#[trigger] sv[j]),
        decreases v.len() - i,
    {
        let c = v[i];
        let ghost pre = sv.subrange(start as int, i as int);
        let ghost next = sv.subrange(start as int, i + 1);
        assert(next.drop_last() =~= pre);
        if !('0' <= c && c <= '9') {
            assert(body[i - start] == c);
            assert(!is_digit(body[i - start]));
            proof {
                let k = (i - start) as int;
                assert(0 <= k < body.len());
                assert(!all_digits(body));
            }
            assert(unsigned_literal(sv) is None);
            return None;
        }
        let d = ((c as u32) - 48) as u64;
        let nv: u128 = (acc as u128) * 10 + (d as u128);
        assert(digits_value(next) == nv);
        if nv > max as u128 {
            proof {
                if all_digits(body) {
                    lemma_digits_value_monotone(body, (i + 1 - start) as int);
                    assert(body.subrange(0, (i + 1 - start) as int) =~= next);
                    assert(digits_value(body) > max);
                }
                assert(parse_unsigned_spec(sv, max as nat) is None);
            }
            return None;
        }
        acc = nv as u64;
        i = i + 1;
    }
    assert(sv.subrange(start as int, i as int) =~= body);
    assert forall|j: int| 0 <= j < body.len() implies is_digit(#[trigger] body[j]) by {
        assert(body[j] == sv[start + j]);
    }
    assert(all_digits(body));
    Some(acc)
}

/// `value.parse::<u16>()` with the error a port variable reports.
pub fn parse_port(variable: &'static str, value: &str) -> (r: Result<u16, ConfigError>)
    ensures
        match parse_unsigned_spec(value@, 65535) {
            Some(n) => r == Ok::<u16, ConfigError>(n as u16),
            None => r matches Err(e) && e.variable == variable && e.value@ == value@
                && e.message@ == "must be a TCP port number"@ && e.location is None,
        },
{
    match parse_unsigned(value, 65535) {
        Some(n) => Ok(n as u16),
        None => Err(ConfigError::value(variable, value.to_owned(), "must be a TCP port number")),
    }
}

/// A `u64` greater than zero, or an error naming the variable.
pub fn parse_positive_u64(variable: &'static str, value: &str) -> (r: Result<u64, ConfigError>)
    ensures
        match parse_unsigned_spec(value@, u64::MAX as nat) {
            Some(n) => if n > 0 {
                r == Ok::<u64, ConfigError>(n as u64)
            } else {
                r matches Err(e) && e.variable == variable && e.value@ == value@
                    && e.message@ == "must be a positive integer"@ && e.location is None
            },
            None => r matches Err(e) && e.variable == variable && e.value@ == value@
                && e.message@ == "must be a positive integer"@ && e.location is None,
        },
{
    match parse_unsigned(value, u64::MAX) {
        Some(n) if n > 0 => Ok(n),
        _ => Err(ConfigError::value(variable, value.to_owned(), "must be a positive integer")),
    }
}

/// Whether `v` holds exactly the characters of `lit`.
pub fn chars_are(v: &Vec<char>, lit: &str) -> (r: bool)
    ensures
        r == (v@ == lit@),
{
    let l = chars_of(lit);
    chars_eq(v, &l)
}

/// The normalised token a boolean or mode value is matched on.
pub open spec fn token(value: Seq<char>) -> Seq<char> {
    lower(trim(value))
}

pub open spec fn spec_parse_bool(value: Seq<char>) -> Option<bool> {
    let t = token(value);
    if t == "1"@ || t == "true"@ || t == "yes"@ || t == "on"@ {
        Some(true)
    } else if t == "0"@ || t == "false"@ || t == "no"@ || t == "off"@ {
        Some(false)
    } else {
        None
    }
}

/// A boolean flag: `1/true/yes/on` or `0/false/no/off`, ignoring case and
/// surrounding white space.
pub fn parse_bool(variable: &'static str, value: &str) -> (r: Result<bool, ConfigError>)
    ensures
        match spec_parse_bool(value@) {
            Some(b) => r == Ok::<bool, ConfigError>(b),
            None => r matches Err(e) && e.variable == variable && e.value@ == value@
                && e.message@ == "must be a boolean value"@ && e.location is None,
        },
{
    let t = trim_string(value);
    let tok = lower_chars(&chars_of(t.as_str()));
    if chars_are(&tok, "1") || chars_are(&tok, "true") || chars_are(&tok, "yes") || chars_are(
        &tok,
        "on",
    ) {
        Ok(true)
    } else if chars_are(&tok, "0") || chars_are(&tok, "false") || chars_are(&tok, "no")
        || chars_are(&tok, "off") {
        Ok(false)
    } else {
        Err(ConfigError::value(variable, value.to_owned(), "must be a boolean value"))
    }
}

pub open spec fn spec_parse_mode(value: Seq<char>) -> Option<Mode> {
    let t = token(value);
    if t == "production"@ {
        Some(Mode::Production)
    } else if t == "development"@ {
        Some(Mode::Development)
    } else if t == "demo"@ {
        Some(Mode::Demo)
    } else {
        None
    }
}

/// A run mode name, ignoring case and surrounding white space.
pub fn parse_mode(variable: &'static str, value: &str) -> (r: Result<Mode, ConfigError>)
    ensures
        match spec_parse_mode(value@) {
            Some(m) => r == Ok::<Mode, ConfigError>(m),
            None => r matches Err(e) && e.variable == variable && e.value@ == value@
                && e.message@ == "must be production, development, or demo"@ && e.location is None,
        },
{
    let t = trim_string(value);
    let tok = lower_chars(&chars_of(t.as_str()));
    if chars_are(&tok, "production") {
        Ok(Mode::Production)
    } else if chars_are(&tok, "development") {
        Ok(Mode::Development)
    } else if chars_are(&tok, "demo") {
        Ok(Mode::Demo)
    } else {
        Err(
            ConfigError::value(
                variable,
                value.to_owned(),
                "must be production, development, or demo",
            ),
        )
    }
}

/// Name for what `format!("{:?}", Path::new(p))` renders: the quoted debug
/// form of a path.
pub uninterp spec fn path_debug_text(p: Seq<char>) -> Seq<char>;

/// `format!("{:?}", Path::new(p))` (std's `Debug` for `Path`). The result is
/// named by [`path_debug_text`]; its escaping rules are not restated here.
#[verifier::external_body]
pub(crate) fn path_debug_string(p: &str) -> (r: String)
    ensures
        r@ == path_debug_text(p@),
{
    format!("{:?}", std::path::Path::new(p))
}

/// A Windows path separator: a backslash or `/`.
pub open spec fn is_separator(c: char) -> bool {
    c == '/' || c == '\\'
}

/// An ASCII letter, as a drive letter.
pub open spec fn is_drive_letter(c: char) -> bool {
    ('a' <= c && c <= 'z') || ('A' <= c && c <= 'Z')
}

/// A drive and its root, as `C:/` or `C:` and a backslash.
pub open spec fn drive_rooted(p: Seq<char>) -> bool {
    p.len() >= 3 && is_drive_letter(p[0]) && p[1] == ':' && is_separator(p[2])
}

/// A drive alone, as `C:`.
pub open spec fn bare_drive(p: Seq<char>) -> bool {
    p.len() == 2 && is_drive_letter(p[0]) && p[1] == ':'
}

/// A verbatim prefix (two backslashes, `?`, a backslash) or a device prefix
/// (two separators, `.`, a separator).
pub open spec fn verbatim_or_device(p: Seq<char>) -> bool {
    ||| p.len() >= 4 && p[0] == '\\' && p[1] == '\\' && p[2] == '?' && p[3] == '\\'
    ||| p.len() >= 4 && is_separator(p[0]) && is_separator(p[1]) && p[2] == '.' && is_separator(
        p[3],
    )
}

/// A network share: two separators, a server name,
/// a separator, and a share name that is not empty.
pub open spec fn unc_rooted(p: Seq<char>) -> bool {
    &&& p.len() >= 2 && is_separator(p[0]) && is_separator(p[1])
    &&& exists|i: int|
        #![trigger p[i]]
        2 < i && i + 1 < p.len() && is_separator(p[i]) && !is_separator(p[i + 1]) && (forall|j: int|
            2 <= j < i ==> !is_separator(#[trigger] p[j]))
}

/// A path is absolute, as Windows reads it, when it starts with a drive and
/// its root, with a verbatim or device prefix, or with a network share.
pub open spec fn is_absolute_path(p: Seq<char>) -> bool {
    drive_rooted(p) || verbatim_or_device(p) || unc_rooted(p)
}

/// One plain path component: not empty, without separators or drive colons.
pub open spec fn plain_name(s: Seq<char>) -> bool {
    s.len() > 0 && forall|i: int| 0 <= i < s.len() ==> !is_separator(#[trigger] s[i]) && s[i] != ':'
}

/// `PathBuf::push` of a plain component on Windows: a backslash is inserted unless
/// the path is empty, already ends in a separator, or is a bare drive.
pub open spec fn path_push(base: Seq<char>, part: Seq<char>) -> Seq<char> {
    if base.len() > 0 && !is_separator(base.last()) && !bare_drive(base) {
        base + seq!['\\'] + part
    } else {
        base + part
    }
}

/// The names this crate pushes onto configured roots are plain components.
pub proof fn lemma_pushed_names_are_plain()
    ensures
        plain_name(APP_DIR_NAME@),
        plain_name("logs"@),
        plain_name("Backups"@),
        plain_name("backups-dev"@),
        plain_name("portfolio.sqlite"@),
        plain_name("portfolio-dev.sqlite"@),
        forall|shell: AppShell, mode: Mode| plain_name(#[trigger] log_file_name(shell, mode)),
{
    reveal_strlit("TickerTapeTallyBoard");
    reveal_strlit("logs");
    reveal_strlit("Backups");
    reveal_strlit("backups-dev");
    reveal_strlit("portfolio.sqlite");
    reveal_strlit("portfolio-dev.sqlite");
    reveal_strlit("engine-desktop.log");
    reveal_strlit("engine-desktop-development.log");
    reveal_strlit("engine-desktop-demo.log");
    reveal_strlit("engine.log");
    reveal_strlit("engine-development.log");
    reveal_strlit("engine-demo.log");
}

/// Pushes each part in turn.
pub open spec fn path_push_all(base: Seq<char>, parts: Seq<Seq<char>>) -> Seq<char>
    decreases parts.len(),
{
    if parts.len() == 0 {
        base
    } else {
        path_push(path_push_all(base, parts.drop_last()), parts.last())
    }
}

fn separator_char(c: char) -> (b: bool)
    ensures
        b == is_separator(c),
{
    c == '/' || c == '\\'
}

fn drive_letter_char(c: char) -> (b: bool)
    ensures
        b == is_drive_letter(c),
{
    ('a' <= c && c <= 'z') || ('A' <= c && c <= 'Z')
}

/// `PathBuf::push` of a plain component, on a path held as text.
pub fn push_path(base: &mut String, part: &str)
    requires
        plain_name(part@),
    ensures
        final(base)@ == path_push(old(base)@, part@),
{
    let bv = chars_of(base.as_str());
    let n = bv.len();
    if n > 0 && !separator_char(bv[n - 1]) && !(n == 2 && drive_letter_char(bv[0]) && bv[1] == ':') {
        push_char(base, '\\');
    }
    append_str(base, part);
}

/// Whether `p` is absolute as Windows reads it.
pub fn is_absolute(p: &str) -> (b: bool)
    ensures
        b == is_absolute_path(p@),
{
    let v = chars_of(p);
    let n = v.len();
    if n >= 3 && drive_letter_char(v[0]) && v[1] == ':' && separator_char(v[2]) {
        return true;
    }
    if n >= 4 && v[0] == '\\' && v[1] == '\\' && v[2] == '?' && v[3] == '\\' {
        return true;
    }
    if n >= 4 && separator_char(v[0]) && separator_char(v[1]) && v[2] == '.' && separator_char(
        v[3],
    ) {
        return true;
    }
    if n < 2 || !separator_char(v[0]) || !separator_char(v[1]) {
        return false;
    }
    let mut k: usize = 2;
    while k < n && !separator_char(v[k])
        invariant
            2 <= k <= n,
            n == v@.len(),
            v@ == p@,
            forall|j: int| 2 <= j < k ==> !is_separator(#[trigger] v@[j]),
        decreases n - k,
    {
        k = k + 1;
    }
    let found = k > 2 && k < n && n - k > 1 && !separator_char(v[k + 1]);
    proof {
        if found {
            assert(is_separator(p@[k as int]));
            assert(unc_rooted(p@));
        } else {
            assert forall|i: int|
                2 < i && i + 1 < p@.len() && is_separator(#[trigger] p@[i]) && !is_separator(
                    p@[i + 1],
                ) implies !(forall|j: int| 2 <= j < i ==> !is_separator(#[trigger] p@[j])) by {
                if i < k {
                } else if i > k {
                    assert(k < n);
                    assert(is_separator(p@[k as int]));
                } else {
                }
            }
        }
    }
    found
}

/// The text `ConfigError`'s display gives a plain value error.
pub open spec fn value_error_text(variable: Seq<char>, value: Seq<char>, message: Seq<char>) -> Seq<
    char,
> {
    "invalid "@ + variable + " value "@ + debug_text(value) + ": "@ + message
}

/// A log destination which may intentionally remain unresolved until startup.
/// Logging failures degrade to terminal output instead of rejecting a launch.
#[derive(Clone, Debug)]
pub enum LogFile {
    Resolved(String),
    Unresolved(String),
}

impl LogFile {
    /// The resolved path, if there is one.
    pub fn path(&self) -> (p: Option<&str>)
        ensures
            match self {
                LogFile::Resolved(path) => p matches Some(q) && q@ == path@,
                LogFile::Unresolved(_) => p is None,
            },
    {
        match self {
            LogFile::Resolved(path) => Some(path.as_str()),
            LogFile::Unresolved(_) => None,
        }
    }
}

/// A backup destination which may intentionally remain unresolved until startup.
/// Missing OneDrive is a backup failure, not a configuration parsing failure.
#[derive(Clone, Debug)]
pub enum BackupDirectory {
    Resolved(String),
    Unresolved(String),
}

pub open spec fn backup_display(d: BackupDirectory) -> Seq<char> {
    match d {
        BackupDirectory::Resolved(path) => path@,
        BackupDirectory::Unresolved(reason) => "unresolved: "@ + reason@,
    }
}

impl BackupDirectory {
    /// The resolved path, if there is one.
    pub fn path(&self) -> (p: Option<&str>)
        ensures
            match self {
                BackupDirectory::Resolved(path) => p matches Some(q) && q@ == path@,
                BackupDirectory::Unresolved(_) => p is None,
            },
    {
        match self {
            BackupDirectory::Resolved(path) => Some(path.as_str()),
            BackupDirectory::Unresolved(_) => None,
        }
    }

    /// The path itself, or `unresolved: ` and the reason.
    pub fn display(&self) -> (s: String)
        ensures
            s@ == backup_display(*self),
    {
        match self {
            BackupDirectory::Resolved(path) => path.clone(),
            BackupDirectory::Unresolved(reason) => {
                let mut s = "unresolved: ".to_owned();
                append_str(&mut s, reason.as_str());
                s
            },
        }
    }
}

/// The log file name for each shell and mode.
pub open spec fn log_file_name(shell: AppShell, mode: Mode) -> Seq<char> {
    match (shell, mode) {
        (AppShell::Desktop, Mode::Production) => "engine-desktop.log"@,
        (AppShell::Desktop, Mode::Development) => "engine-desktop-development.log"@,
        (AppShell::Desktop, Mode::Demo) => "engine-desktop-demo.log"@,
        (AppShell::Server, Mode::Production) => "engine.log"@,
        (AppShell::Server, Mode::Development) => "engine-development.log"@,
        (AppShell::Server, Mode::Demo) => "engine-demo.log"@,
    }
}

fn log_file_name_exec(shell: AppShell, mode: Mode) -> (s: &'static str)
    ensures
        s@ == log_file_name(shell, mode),
{
    match (shell, mode) {
        (AppShell::Desktop, Mode::Production) => "engine-desktop.log",
        (AppShell::Desktop, Mode::Development) => "engine-desktop-development.log",
        (AppShell::Desktop, Mode::Demo) => "engine-desktop-demo.log",
        (AppShell::Server, Mode::Production) => "engine.log",
        (AppShell::Server, Mode::Development) => "engine-development.log",
        (AppShell::Server, Mode::Demo) => "engine-demo.log",
    }
}

/// The per-mode log path under the local app-data root.
pub open spec fn default_log_path(root: Seq<char>, shell: AppShell, mode: Mode) -> Seq<char> {
    path_push(path_push(path_push(root, APP_DIR_NAME@), "logs"@), log_file_name(shell, mode))
}

/// The log file the app-data lookup leads to: the mode's file under
/// `TickerTapeTallyBoard/logs`, or unresolved with the reason.
pub fn log_file_from_result(result: EnvLookup, mode: Mode, shell: AppShell) -> (f: LogFile)
    ensures
        match spec_read_optional(LOCAL_APP_DATA_ENV, result) {
            Ok(Some(root)) => f matches LogFile::Resolved(p) && p@ == default_log_path(
                root,
                shell,
                mode,
            ),
            Ok(None) => f matches LogFile::Unresolved(r) && r@ == LOCAL_APP_DATA_ENV@
                + " is not set"@,
            Err((value, message)) => f matches LogFile::Unresolved(r) && r@ == value_error_text(
                LOCAL_APP_DATA_ENV@,
                value,
                message,
            ),
        },
{
    match read_optional_result(LOCAL_APP_DATA_ENV, result) {
        Ok(Some(root)) => {
            let mut path = root;
            proof {
                lemma_pushed_names_are_plain();
                assert(plain_name(log_file_name(shell, mode)));
            }
            push_path(&mut path, APP_DIR_NAME);
            push_path(&mut path, "logs");
            push_path(&mut path, log_file_name_exec(shell, mode));
            LogFile::Resolved(path)
        },
        Ok(None) => {
            let mut s = LOCAL_APP_DATA_ENV.to_owned();
            append_str(&mut s, " is not set");
            LogFile::Unresolved(s)
        },
        Err(error) => LogFile::Unresolved(error.to_text()),
    }
}

/// The unresolved reason for a relative path override.
pub open spec fn not_absolute_text(variable: Seq<char>, quoted: Seq<char>) -> Seq<char> {
    variable + " value "@ + quoted + " must be an absolute path"@
}

/// `f` is the log destination for `mode` and these lookups.
pub open spec fn log_file_is(mode: Mode, log_file: EnvLookup, local_app_data: EnvLookup, f: LogFile) -> bool {
        match spec_read_optional(LOG_FILE_ENV, log_file) {
            Ok(Some(path)) => if is_absolute_path(path) {
                f matches LogFile::Resolved(p) && p@ == path
            } else {
                f matches LogFile::Unresolved(r) && r@ == not_absolute_text(
                    LOG_FILE_ENV@,
                    debug_text(path),
                )
            },
            Ok(None) => match spec_read_optional(LOCAL_APP_DATA_ENV, local_app_data) {
                Ok(Some(root)) => f matches LogFile::Resolved(p) && p@ == default_log_path(
                    root,
                    AppShell::Server,
                    mode,
                ),
                Ok(None) => f matches LogFile::Unresolved(r) && r@ == LOCAL_APP_DATA_ENV@
                    + " is not set"@,
                Err((value, message)) => f matches LogFile::Unresolved(r) && r@
                    == value_error_text(LOCAL_APP_DATA_ENV@, value, message),
            },
            Err((value, message)) => f matches LogFile::Unresolved(r) && r@ == value_error_text(
                LOG_FILE_ENV@,
                value,
                message,
            ),
        }
}

/// The log destination for `mode`: an absolute `TTTB_LOG_FILE` override wins,
/// a relative one is unresolved, and without one the app-data default applies.
pub fn resolve_log_file_from(mode: Mode, log_file: EnvLookup, local_app_data: EnvLookup) -> (f:
    LogFile)
    ensures
        log_file_is(mode, log_file, local_app_data, f),
{
    match read_optional_result(LOG_FILE_ENV, log_file) {
        Ok(Some(path)) => {
            if is_absolute(path.as_str()) {
                LogFile::Resolved(path)
            } else {
                let mut s = LOG_FILE_ENV.to_owned();
                append_str(&mut s, " value ");
                let q = debug_string(path.as_str());
                append_str(&mut s, q.as_str());
                append_str(&mut s, " must be an absolute path");
                LogFile::Unresolved(s)
            }
        },
        Ok(None) => log_file_from_result(local_app_data, mode, AppShell::Server),
        Err(error) => LogFile::Unresolved(error.to_text()),
    }
}

/// A backup directory from one variable: the root with `suffix` pushed, absent
/// when unset, unresolved with the reason when blank or not Unicode.
pub fn backup_directory_from_result(
    variable: &'static str,
    suffix: &[&str],
    result: EnvLookup,
) -> (d: Option<BackupDirectory>)
    requires
        forall|i: int| 0 <= i < suffix@.len() ==> plain_name(#[trigger] suffix@[i]@),
    ensures
        match spec_read_optional(variable, result) {
            Ok(Some(root)) => d matches Some(BackupDirectory::Resolved(p)) && p@ == path_push_all(
                root,
                suffix@.map_values(|x: &str| x@),
            ),
            Ok(None) => d is None,
            Err((value, message)) => d matches Some(BackupDirectory::Unresolved(r)) && r@
                == value_error_text(variable@, value, message),
        },
{
    match read_optional_result(variable, result) {
        Ok(Some(root)) => {
            let mut path = root;
            let ghost start = path@;
            let mut i: usize = 0;
            while i < suffix.len()
                invariant
                    i <= suffix.len(),
                    forall|j: int| 0 <= j < suffix@.len() ==> plain_name(#[trigger] suffix@[j]@),
                    path@ == path_push_all(
                        start,
                        suffix@.map_values(|x: &str| x@).subrange(0, i as int),
                    ),
                decreases suffix.len() - i,
            {
                let ghost parts = suffix@.map_values(|x: &str| x@);
                assert(parts.subrange(0, i + 1).drop_last() =~= parts.subrange(0, i as int));
                push_path(&mut path, suffix[i]);
                i = i + 1;
            }
            assert(suffix@.map_values(|x: &str| x@).subrange(0, i as int) =~= suffix@.map_values(
                |x: &str| x@,
            ));
            Some(BackupDirectory::Resolved(path))
        },
        Ok(None) => None,
        Err(error) => Some(BackupDirectory::Unresolved(error.to_text())),
    }
}

/// The `TTTB_BACKUP_DIR` override: used as given when absolute, unresolved when relative.
pub fn backup_directory_override(variable: &'static str, result: EnvLookup) -> (d: Option<
    BackupDirectory,
>)
    ensures
        match spec_read_optional(variable, result) {
            Ok(Some(path)) => if is_absolute_path(path) {
                d matches Some(BackupDirectory::Resolved(p)) && p@ == path
            } else {
                d matches Some(BackupDirectory::Unresolved(r)) && r@ == not_absolute_text(
                    variable@,
                    path_debug_text(path),
                )
            },
            Ok(None) => d is None,
            Err((value, message)) => d matches Some(BackupDirectory::Unresolved(r)) && r@
                == value_error_text(variable@, value, message),
        },
{
    let empty: [&str; 0] = [];
    let found = backup_directory_from_result(variable, &empty, result);
    proof {
        assert(empty@.map_values(|x: &str| x@) =~= Seq::<Seq<char>>::empty());
    }
    match found {
        Some(BackupDirectory::Resolved(path)) => {
            if is_absolute(path.as_str()) {
                Some(BackupDirectory::Resolved(path))
            } else {
                let mut s = variable.to_owned();
                append_str(&mut s, " value ");
                let q = path_debug_string(path.as_str());
                append_str(&mut s, q.as_str());
                append_str(&mut s, " must be an absolute path");
                Some(BackupDirectory::Unresolved(s))
            }
        },
        other => other,
    }
}

/// `d` is the backup destination for `mode` and these lookups.
pub open spec fn backup_dir_is(
    mode: Mode,
    backup_dir: EnvLookup,
    one_drive: EnvLookup,
    local_app_data: EnvLookup,
    d: BackupDirectory,
) -> bool {
    &&& mode == Mode::Demo ==> (d matches BackupDirectory::Unresolved(r) && r@
            == "demo mode does not use backups"@)
    &&& mode != Mode::Demo ==> (match spec_read_optional(BACKUP_DIR_ENV, backup_dir) {
            Ok(Some(path)) => if is_absolute_path(path) {
                d matches BackupDirectory::Resolved(p) && p@ == path
            } else {
                d matches BackupDirectory::Unresolved(r) && r@ == not_absolute_text(
                    BACKUP_DIR_ENV@,
                    path_debug_text(path),
                )
            },
            Err((value, message)) => d matches BackupDirectory::Unresolved(r) && r@
                == value_error_text(BACKUP_DIR_ENV@, value, message),
            Ok(None) => {
                let (variable, lookup, leaf) = if mode == Mode::Production {
                    (ONE_DRIVE_ENV@, one_drive, "Backups"@)
                } else {
                    (LOCAL_APP_DATA_ENV@, local_app_data, "backups-dev"@)
                };
                match spec_read_optional(LOCAL_APP_DATA_ENV, lookup) {
                    Ok(Some(root)) => d matches BackupDirectory::Resolved(p) && p@ == path_push(
                        path_push(root, APP_DIR_NAME@),
                        leaf,
                    ),
                    Ok(None) => d matches BackupDirectory::Unresolved(r) && r@ == variable
                        + " is not set"@,
                    Err((value, message)) => d matches BackupDirectory::Unresolved(r) && r@
                        == value_error_text(variable, value, message),
                }
            },
        })
}

/// The backup destination for `mode`. Demo never backs up; otherwise the
/// `TTTB_BACKUP_DIR` override wins, then production uses
/// `OneDrive/TickerTapeTallyBoard/Backups` and development
/// `LOCALAPPDATA/TickerTapeTallyBoard/backups-dev`.
pub fn resolve_backup_dir_from(
    mode: Mode,
    backup_dir: EnvLookup,
    one_drive: EnvLookup,
    local_app_data: EnvLookup,
) -> (d: BackupDirectory)
    ensures
        backup_dir_is(mode, backup_dir, one_drive, local_app_data, d),
{
    if mode.is_demo() {
        return BackupDirectory::Unresolved("demo mode does not use backups".to_owned());
    }
    if let Some(directory) = backup_directory_override(BACKUP_DIR_ENV, backup_dir) {
        return directory;
    }
    let (variable, lookup, leaf): (&'static str, EnvLookup, &'static str) = match mode {
        Mode::Production => (ONE_DRIVE_ENV, one_drive, "Backups"),
        _ => (LOCAL_APP_DATA_ENV, local_app_data, "backups-dev"),
    };
    let suffix: [&str; 2] = [APP_DIR_NAME, leaf];
    proof {
        lemma_pushed_names_are_plain();
        assert(forall|i: int| 0 <= i < suffix@.len() ==> plain_name(#[trigger] suffix@[i]@));
    }
    let found = backup_directory_from_result(variable, &suffix, lookup);
    proof {
        let parts = suffix@.map_values(|x: &str| x@);
        assert(parts.drop_last() =~= seq![APP_DIR_NAME@]);
        assert(parts.drop_last().drop_last() =~= Seq::<Seq<char>>::empty());
        reveal_with_fuel(path_push_all, 3);
    }
    match found {
        Some(directory) => directory,
        None => {
            let mut s = variable.to_owned();
            append_str(&mut s, " is not set");
            BackupDirectory::Unresolved(s)
        },
    }
}

/// Turns every backslash into a forward slash.
pub open spec fn forward_slashes(s: Seq<char>) -> Seq<char> {
    s.map_values(|c: char| if c == '\\' { '/' } else { c })
}

pub open spec fn database_file_name(mode: Mode) -> Seq<char> {
    if mode == Mode::Production {
        "portfolio.sqlite"@
    } else {
        "portfolio-dev.sqlite"@
    }
}

/// The default ledger URL outside demo mode:
/// `sqlite://LOCALAPPDATA/TickerTapeTallyBoard/<file>` with forward slashes.
pub fn default_database_url(mode: Mode, local_app_data: EnvLookup) -> (r: Result<String, ConfigError>)
    requires
        mode != Mode::Demo,
    ensures
        match spec_read_optional(LOCAL_APP_DATA_ENV, local_app_data) {
            Ok(Some(root)) => r matches Ok(url) && url@ == "sqlite://"@ + forward_slashes(
                path_push(path_push(root, APP_DIR_NAME@), database_file_name(mode)),
            ),
            Ok(None) => r matches Err(e) && e.variable@ == LOCAL_APP_DATA_ENV@ && e.value@
                == Seq::<char>::empty() && e.message@
                == "must be set when TTTB_DATABASE_URL is not provided outside demo mode"@
                && e.location is None,
            Err((value, message)) => r matches Err(e) && e.variable@ == LOCAL_APP_DATA_ENV@
                && e.value@ == value && e.message@ == message && e.location is None,
        },
{
    let root = match read_optional_result(LOCAL_APP_DATA_ENV, local_app_data) {
        Ok(Some(root)) => root,
        Ok(None) => {
            return Err(
                ConfigError::value(
                    LOCAL_APP_DATA_ENV,
                    String::new(),
                    "must be set when TTTB_DATABASE_URL is not provided outside demo mode",
                ),
            );
        },
        Err(e) => {
            return Err(e);
        },
    };
    let file: &'static str = match mode {
        Mode::Production => "portfolio.sqlite",
        _ => "portfolio-dev.sqlite",
    };
    let mut path = root;
    proof {
        lemma_pushed_names_are_plain();
    }
    push_path(&mut path, APP_DIR_NAME);
    push_path(&mut path, file);
    let pv = chars_of(path.as_str());
    let mut url = "sqlite://".to_owned();
    let ghost u0 = url@;
    let mut i: usize = 0;
    while i < pv.len()
        invariant
            i <= pv.len(),
            u0 == "sqlite://"@,
            url@ == u0 + forward_slashes(pv@.subrange(0, i as int)),
        decreases pv.len() - i,
    {
        let c = if pv[i] == '\\' {
            '/'
        } else {
            pv[i]
        };
        push_char(&mut url, c);
        i = i + 1;
        assert(forward_slashes(pv@.subrange(0, i as int)) =~= forward_slashes(
            pv@.subrange(0, i - 1),
        ).push(c));
    }
    assert(pv@.subrange(0, i as int) =~= pv@);
    Ok(url)
}

/// A variable as read: its value when set, absent when unset, or the failure
/// as plain values (the variable, its rejected value and why).
pub open spec fn read_step(variable: &'static str, lookup: EnvLookup) -> Result<
    Option<Seq<char>>,
    (Seq<char>, Seq<char>, Seq<char>),
> {
    match spec_read_optional(variable, lookup) {
        Ok(o) => Ok(o),
        Err((value, message)) => Err((variable@, value, message)),
    }
}

/// A port setting: the variable's port, else `fallback` when it is unset.
pub open spec fn port_step(
    variable: &'static str,
    lookup: EnvLookup,
    fallback: Result<nat, (Seq<char>, Seq<char>, Seq<char>)>,
) -> Result<nat, (Seq<char>, Seq<char>, Seq<char>)> {
    match read_step(variable, lookup) {
        Err(e) => Err(e),
        Ok(Some(s)) => match parse_unsigned_spec(s, 65535) {
            Some(n) => Ok(n),
            None => Err((variable@, s, "must be a TCP port number"@)),
        },
        Ok(None) => fallback,
    }
}

/// A boolean setting, `default` when unset.
pub open spec fn bool_step(variable: &'static str, lookup: EnvLookup, default: bool) -> Result<
    bool,
    (Seq<char>, Seq<char>, Seq<char>),
> {
    match read_step(variable, lookup) {
        Err(e) => Err(e),
        Ok(Some(s)) => match spec_parse_bool(s) {
            Some(b) => Ok(b),
            None => Err((variable@, s, "must be a boolean value"@)),
        },
        Ok(None) => Ok(default),
    }
}

/// The mode setting, production when unset.
pub open spec fn mode_step(lookup: EnvLookup) -> Result<Mode, (Seq<char>, Seq<char>, Seq<char>)> {
    match read_step(MODE_ENV, lookup) {
        Err(e) => Err(e),
        Ok(Some(s)) => match spec_parse_mode(s) {
            Some(m) => Ok(m),
            None => Err((MODE_ENV@, s, "must be production, development, or demo"@)),
        },
        Ok(None) => Ok(Mode::Production),
    }
}

/// The ledger URL: the override, else in-memory for demo, else the mode's
/// file under the local app data.
pub open spec fn database_url_step(
    mode: Mode,
    database_url: EnvLookup,
    local_app_data: EnvLookup,
) -> Result<Seq<char>, (Seq<char>, Seq<char>, Seq<char>)> {
    match read_step(DATABASE_URL_ENV, database_url) {
        Err(e) => Err(e),
        Ok(Some(url)) => Ok(url),
        Ok(None) => if mode == Mode::Demo {
            Ok("sqlite::memory:"@)
        } else {
            match spec_read_optional(LOCAL_APP_DATA_ENV, local_app_data) {
                Ok(Some(root)) => Ok(
                    "sqlite://"@ + forward_slashes(
                        path_push(path_push(root, APP_DIR_NAME@), database_file_name(mode)),
                    ),
                ),
                Ok(None) => Err(
                    (
                        LOCAL_APP_DATA_ENV@,
                        Seq::<char>::empty(),
                        "must be set when TTTB_DATABASE_URL is not provided outside demo mode"@,
                    ),
                ),
                Err((value, message)) => Err((LOCAL_APP_DATA_ENV@, value, message)),
            }
        },
    }
}

/// The log rotation limit: a positive integer, absent when unset.
pub open spec fn limit_step(lookup: EnvLookup) -> Result<
    Option<nat>,
    (Seq<char>, Seq<char>, Seq<char>),
> {
    match read_step(LOG_MAX_BYTES_ENV, lookup) {
        Err(e) => Err(e),
        Ok(Some(s)) => match parse_unsigned_spec(s, u64::MAX as nat) {
            Some(n) => if n > 0 {
                Ok(Some(n))
            } else {
                Err((LOG_MAX_BYTES_ENV@, s, "must be a positive integer"@))
            },
            None => Err((LOG_MAX_BYTES_ENV@, s, "must be a positive integer"@)),
        },
        Ok(None) => Ok(None),
    }
}

/// The static assets directory: the override, else the default.
pub open spec fn assets_step(lookup: EnvLookup) -> Result<
    Seq<char>,
    (Seq<char>, Seq<char>, Seq<char>),
> {
    match read_step(STATIC_ASSETS_DIR_ENV, lookup) {
        Err(e) => Err(e),
        Ok(Some(s)) => Ok(s),
        Ok(None) => Ok(DEFAULT_STATIC_ASSETS_DIR@),
    }
}

/// The environment as the service configuration reads it: one lookup per
/// variable (the host is read and checked apart).
#[derive(Clone, Debug)]
pub struct ConfigEnv {
    pub port: EnvLookup,
    pub hosting_port: EnvLookup,
    pub mode: EnvLookup,
    pub database_url: EnvLookup,
    pub create_ledger_if_missing: EnvLookup,
    pub backup_enabled: EnvLookup,
    pub backup_dir: EnvLookup,
    pub one_drive: EnvLookup,
    pub local_app_data: EnvLookup,
    pub log_file: EnvLookup,
    pub log_max_bytes: EnvLookup,
    pub market_data_refresh_enabled: EnvLookup,
    pub launch_refresh_enabled: EnvLookup,
    pub static_assets_dir: EnvLookup,
}

impl ConfigEnv {
    pub open spec fn port_step(&self) -> Result<nat, (Seq<char>, Seq<char>, Seq<char>)> {
        port_step(PORT_ENV, self.port, port_step(HOSTING_PORT_ENV, self.hosting_port, Ok(DEFAULT_PORT as nat)))
    }

    /// The first rejected setting among those read before the ledger is
    /// resolved: the ports, the mode and the ledger URL.
    pub open spec fn url_failure(&self) -> Option<(Seq<char>, Seq<char>, Seq<char>)> {
        let mode = mode_step(self.mode);
        if self.port_step() is Err {
            Some(self.port_step()->Err_0)
        } else if mode is Err {
            Some(mode->Err_0)
        } else if database_url_step(mode->Ok_0, self.database_url, self.local_app_data) is Err {
            Some(database_url_step(mode->Ok_0, self.database_url, self.local_app_data)->Err_0)
        } else {
            None
        }
    }

    /// The ledger URL, once the settings before it are accepted.
    pub open spec fn ledger_url(&self) -> Seq<char> {
        database_url_step(mode_step(self.mode)->Ok_0, self.database_url, self.local_app_data)->Ok_0
    }

    /// The first rejected setting among those read after the ledger is
    /// resolved, in the order they are read.
    pub open spec fn settings_failure(&self) -> Option<(Seq<char>, Seq<char>, Seq<char>)> {
        let mode = mode_step(self.mode);
        if bool_step(CREATE_LEDGER_IF_MISSING_ENV, self.create_ledger_if_missing, false) is Err {
            Some(bool_step(CREATE_LEDGER_IF_MISSING_ENV, self.create_ledger_if_missing, false)->Err_0)
        } else if bool_step(BACKUP_ENABLED_ENV, self.backup_enabled, mode->Ok_0 != Mode::Demo) is Err {
            Some(bool_step(BACKUP_ENABLED_ENV, self.backup_enabled, mode->Ok_0 != Mode::Demo)->Err_0)
        } else if limit_step(self.log_max_bytes) is Err {
            Some(limit_step(self.log_max_bytes)->Err_0)
        } else if bool_step(MARKET_DATA_REFRESH_ENABLED_ENV, self.market_data_refresh_enabled, true) is Err {
            Some(bool_step(MARKET_DATA_REFRESH_ENABLED_ENV, self.market_data_refresh_enabled, true)->Err_0)
        } else if bool_step(MARKET_DATA_LAUNCH_REFRESH_ENABLED_ENV, self.launch_refresh_enabled, true) is Err {
            Some(bool_step(MARKET_DATA_LAUNCH_REFRESH_ENABLED_ENV, self.launch_refresh_enabled, true)->Err_0)
        } else if assets_step(self.static_assets_dir) is Err {
            Some(assets_step(self.static_assets_dir)->Err_0)
        } else {
            None
        }
    }
}

/// The log file and backup destinations never reject a configuration: which
/// setting is rejected, and which ledger URL is resolved, do not depend on
/// `TTTB_LOG_FILE`, `TTTB_BACKUP_DIR` or `OneDrive`.
pub proof fn lemma_destinations_never_reject_config(
    env: ConfigEnv,
    log_file: EnvLookup,
    backup_dir: EnvLookup,
    one_drive: EnvLookup,
)
    ensures
        (ConfigEnv { log_file, backup_dir, one_drive, ..env }).url_failure() == env.url_failure(),
        (ConfigEnv { log_file, backup_dir, one_drive, ..env }).ledger_url() == env.ledger_url(),
        (ConfigEnv { log_file, backup_dir, one_drive, ..env }).settings_failure()
            == env.settings_failure(),
{
}

/// `TTTB_PORT`, when set, decides the port whatever `PORT` holds.
pub proof fn lemma_tttb_port_wins(env: ConfigEnv, hosting_port: EnvLookup)
    requires
        read_step(PORT_ENV, env.port) matches Ok(Some(_)),
    ensures
        (ConfigEnv { hosting_port, ..env }).port_step() == env.port_step(),
{
}

/// The service configuration, but for its host.
#[derive(Clone, Debug)]
pub struct ServiceConfig {
    pub port: u16,
    pub mode: Mode,
    pub ledger: LedgerLocation,
    pub create_ledger_if_missing: bool,
    pub backup_enabled: bool,
    pub backup_dir: BackupDirectory,
    pub log_file: LogFile,
    /// The log rotation limit; absent means the logger's own default.
    pub log_max_bytes: Option<u64>,
    pub market_data_refresh_enabled: bool,
    pub launch_refresh_enabled: bool,
    pub static_assets_dir: String,
}

/// A copy of a lookup.
fn copy_lookup(lookup: &EnvLookup) -> (r: EnvLookup)
    ensures
        r == *lookup,
{
    match lookup {
        EnvLookup::Value(v) => EnvLookup::Value(v.clone()),
        EnvLookup::NotPresent => EnvLookup::NotPresent,
        EnvLookup::NotUnicode(v) => EnvLookup::NotUnicode(v.clone()),
    }
}

/// An optional boolean setting, `default` when unset.
fn bool_setting(variable: &'static str, lookup: EnvLookup, default: bool) -> (r: Result<bool, ConfigError>)
    ensures
        match bool_step(variable, lookup, default) {
            Ok(b) => r == Ok::<bool, ConfigError>(b),
            Err(e) => r matches Err(x) && x.variable@ == e.0 && x.value@ == e.1 && x.message@ == e.2
                && x.location is None,
        },
{
    match read_optional_result(variable, lookup) {
        Ok(Some(v)) => parse_bool(variable, v.as_str()),
        Ok(None) => Ok(default),
        Err(e) => Err(e),
    }
}

/// An optional port setting, `fallback` when unset.
fn port_setting(variable: &'static str, lookup: EnvLookup) -> (r: Result<Option<u16>, ConfigError>)
    ensures
        match read_step(variable, lookup) {
            Err(e) => r matches Err(x) && x.variable@ == e.0 && x.value@ == e.1 && x.message@ == e.2
                && x.location is None,
            Ok(None) => r == Ok::<Option<u16>, ConfigError>(None),
            Ok(Some(s)) => match parse_unsigned_spec(s, 65535) {
                Some(n) => r == Ok::<Option<u16>, ConfigError>(Some(n as u16)),
                None => r matches Err(x) && x.variable == variable && x.value@ == s && x.message@
                    == "must be a TCP port number"@ && x.location is None,
            },
        },
{
    match read_optional_result(variable, lookup) {
        Ok(Some(v)) => match parse_port(variable, v.as_str()) {
            Ok(p) => Ok(Some(p)),
            Err(e) => Err(e),
        },
        Ok(None) => Ok(None),
        Err(e) => Err(e),
    }
}

/// The service configuration from the environment's lookups. Each setting is
/// read in turn (port, mode, ledger URL, then the ledger is resolved, then
/// create flag, backup flag, log limit, refresh flags, static directory) and
/// the first rejected one is the error; a refused ledger location is reported
/// as a location error of the ledger URL variable. `TTTB_PORT` wins over
/// `PORT`, demo always uses an in-memory ledger and no backups, and the log and backup destinations never fail (they may stay
/// unresolved).
pub fn service_config(env: ConfigEnv) -> (r: Result<ServiceConfig, ConfigError>)
    ensures
        env.url_failure() matches Some(e) ==> (r matches Err(x) && x.variable@ == e.0 && x.value@
            == e.1 && x.message@ == e.2 && x.location is None),
        env.url_failure() is None && ledger_refused(env.ledger_url(), mode_step(env.mode)->Ok_0)
            ==> (r matches Err(x) && x.variable@ == DATABASE_URL_ENV@ && x.value@
            == Seq::<char>::empty() && x.message@
            == "must be a supported ledger location for the selected mode"@ && (x.location matches Some(
            l,
        ) && ledger_resolution(env.ledger_url(), mode_step(env.mode)->Ok_0, Err(l)))),
        env.url_failure() is None && !ledger_refused(env.ledger_url(), mode_step(env.mode)->Ok_0)
            ==> (env.settings_failure() matches Some(e) ==> (r matches Err(x) && x.variable@ == e.0
            && x.value@ == e.1 && x.message@ == e.2 && x.location is None)),
        env.url_failure() is None && !ledger_refused(env.ledger_url(), mode_step(env.mode)->Ok_0)
            && env.settings_failure() is None ==> (r matches Ok(c) && {
            &&& c.port as nat == env.port_step()->Ok_0
            &&& c.mode == mode_step(env.mode)->Ok_0
            &&& ledger_resolution(env.ledger_url(), c.mode, Ok(c.ledger))
            &&& c.create_ledger_if_missing == bool_step(
                CREATE_LEDGER_IF_MISSING_ENV,
                env.create_ledger_if_missing,
                false,
            )->Ok_0
            &&& c.backup_enabled == bool_step(
                BACKUP_ENABLED_ENV,
                env.backup_enabled,
                c.mode != Mode::Demo,
            )->Ok_0
            &&& backup_dir_is(c.mode, env.backup_dir, env.one_drive, env.local_app_data, c.backup_dir)
            &&& log_file_is(c.mode, env.log_file, env.local_app_data, c.log_file)
            &&& match limit_step(env.log_max_bytes)->Ok_0 {
                Some(n) => c.log_max_bytes == Some(n as u64),
                None => c.log_max_bytes is None,
            }
            &&& c.market_data_refresh_enabled == bool_step(
                MARKET_DATA_REFRESH_ENABLED_ENV,
                env.market_data_refresh_enabled,
                true,
            )->Ok_0
            &&& c.launch_refresh_enabled == bool_step(
                MARKET_DATA_LAUNCH_REFRESH_ENABLED_ENV,
                env.launch_refresh_enabled,
                true,
            )->Ok_0
            &&& c.static_assets_dir@ == assets_step(env.static_assets_dir)->Ok_0
        }),
{
    let ConfigEnv {
        port,
        hosting_port,
        mode,
        database_url,
        create_ledger_if_missing,
        backup_enabled,
        backup_dir,
        one_drive,
        local_app_data,
        log_file,
        log_max_bytes,
        market_data_refresh_enabled,
        launch_refresh_enabled,
        static_assets_dir,
    } = env;
    let port: u16 = match port_setting(PORT_ENV, port) {
        Ok(Some(p)) => p,
        Ok(None) => match port_setting(HOSTING_PORT_ENV, hosting_port) {
            Ok(Some(p)) => p,
            Ok(None) => DEFAULT_PORT,
            Err(e) => {
                return Err(e);
            },
        },
        Err(e) => {
            return Err(e);
        },
    };
    let mode = match read_optional_result(MODE_ENV, mode) {
        Ok(Some(v)) => match parse_mode(MODE_ENV, v.as_str()) {
            Ok(m) => m,
            Err(e) => {
                return Err(e);
            },
        },
        Ok(None) => Mode::Production,
        Err(e) => {
            return Err(e);
        },
    };
    let database_url = match read_optional_result(DATABASE_URL_ENV, database_url) {
        Ok(Some(url)) => url,
        Ok(None) => if mode.is_demo() {
            "sqlite::memory:".to_owned()
        } else {
            match default_database_url(mode, copy_lookup(&local_app_data)) {
                Ok(url) => url,
                Err(e) => {
                    return Err(e);
                },
            }
        },
        Err(e) => {
            return Err(e);
        },
    };
    let ledger = match resolve_ledger(database_url.as_str(), mode) {
        Ok(l) => l,
        Err(e) => {
            return Err(ConfigError::from_location(e));
        },
    };
    let create_ledger_if_missing = match bool_setting(
        CREATE_LEDGER_IF_MISSING_ENV,
        create_ledger_if_missing,
        false,
    ) {
        Ok(b) => b,
        Err(e) => {
            return Err(e);
        },
    };
    let backup_enabled = match bool_setting(BACKUP_ENABLED_ENV, backup_enabled, !mode.is_demo()) {
        Ok(b) => b,
        Err(e) => {
            return Err(e);
        },
    };
    let backup_dir = resolve_backup_dir_from(mode, backup_dir, one_drive, copy_lookup(&local_app_data));
    let log_file = resolve_log_file_from(mode, log_file, local_app_data);
    let log_max_bytes = match read_optional_result(LOG_MAX_BYTES_ENV, log_max_bytes) {
        Ok(Some(v)) => match parse_positive_u64(LOG_MAX_BYTES_ENV, v.as_str()) {
            Ok(n) => Some(n),
            Err(e) => {
                return Err(e);
            },
        },
        Ok(None) => None,
        Err(e) => {
            return Err(e);
        },
    };
    let market_data_refresh_enabled = match bool_setting(
        MARKET_DATA_REFRESH_ENABLED_ENV,
        market_data_refresh_enabled,
        true,
    ) {
        Ok(b) => b,
        Err(e) => {
            return Err(e);
        },
    };
    let launch_refresh_enabled = match bool_setting(
        MARKET_DATA_LAUNCH_REFRESH_ENABLED_ENV,
        launch_refresh_enabled,
        true,
    ) {
        Ok(b) => b,
        Err(e) => {
            return Err(e);
        },
    };
    let static_assets_dir = match read_optional_result(STATIC_ASSETS_DIR_ENV, static_assets_dir) {
        Ok(Some(v)) => v,
        Ok(None) => DEFAULT_STATIC_ASSETS_DIR.to_owned(),
        Err(e) => {
            return Err(e);
        },
    };
    Ok(
        ServiceConfig {
            port,
            mode,
            ledger,
            create_ledger_if_missing,
            backup_enabled,
            backup_dir,
            log_file,
            log_max_bytes,
            market_data_refresh_enabled,
            launch_refresh_enabled,
            static_assets_dir,
        },
    )
}

/// How setting up file logging went: the file written to, or why there is none.
#[derive(Clone, Debug)]
pub struct LogInitOutcome {
    pub file_path: Option<String>,
    pub file_error: Option<String>,
}

/// The banner's text for the ledger: its file, or the in-memory demo ledger.
pub open spec fn ledger_shown(path: Option<String>) -> Seq<char> {
    match path {
        Some(p) => p@,
        None => "in-memory (demo)"@,
    }
}

/// The banner's text for the log: its file, or why there is none.
pub open spec fn log_shown(outcome: LogInitOutcome) -> Seq<char> {
    match outcome.file_path {
        Some(p) => p@,
        None => "unavailable ("@ + match outcome.file_error {
            Some(e) => e@,
            None => "unknown error"@,
        } + ")"@,
    }
}

/// The startup banner: mode, ledger, backup directory, static assets
/// directory, log file and listening address, on one line.
pub open spec fn banner_text(
    mode: Mode,
    ledger_path: Option<String>,
    backup_dir: BackupDirectory,
    static_assets_dir: Seq<char>,
    log_outcome: LogInitOutcome,
    listen: Seq<char>,
) -> Seq<char> {
    "startup: mode="@ + mode_name(mode) + " ledger="@ + ledger_shown(ledger_path) + " backup_dir="@
        + backup_display(backup_dir) + " static_assets_dir="@ + static_assets_dir + " log="@
        + log_shown(log_outcome) + " listen="@ + listen
}

/// The line logged at startup; `listen` is the socket address as text.
pub fn startup_banner(
    mode: Mode,
    ledger_path: &Option<String>,
    backup_dir: &BackupDirectory,
    static_assets_dir: &str,
    log_outcome: &LogInitOutcome,
    listen: &str,
) -> (s: String)
    ensures
        s@ == banner_text(mode, *ledger_path, *backup_dir, static_assets_dir@, *log_outcome, listen@),
{
    let mut s = "startup: mode=".to_owned();
    append_str(&mut s, mode.as_str());
    append_str(&mut s, " ledger=");
    match ledger_path {
        Some(p) => append_str(&mut s, p.as_str()),
        None => append_str(&mut s, "in-memory (demo)"),
    }
    append_str(&mut s, " backup_dir=");
    let backup = backup_dir.display();
    append_str(&mut s, backup.as_str());
    append_str(&mut s, " static_assets_dir=");
    append_str(&mut s, static_assets_dir);
    append_str(&mut s, " log=");
    match &log_outcome.file_path {
        Some(p) => append_str(&mut s, p.as_str()),
        None => {
            let ghost before = s@;
            append_str(&mut s, "unavailable (");
            match &log_outcome.file_error {
                Some(e) => append_str(&mut s, e.as_str()),
                None => append_str(&mut s, "unknown error"),
            }
            append_str(&mut s, ")");
            assert(s@ =~= before + log_shown(*log_outcome));
        },
    }
    append_str(&mut s, " listen=");
    append_str(&mut s, listen);
    s
}

} // verus!
