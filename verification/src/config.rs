//! Publisher configuration: `publisher.toml` + environment variable overrides.
//!
//! # Environment variable overrides
//! Any field can be overridden by the matching env var (prefix `PUBLISHER_AUTH_`
//! or `PUBLISHER_`). Env vars take priority over the file.
//!
//! # Validation
//! `auth.tenant_id`, `auth.client_id`, and `auth.client_secret` are required.
//! A missing or empty value after env override causes [`load`] to return
//! [`ConfigError::Validation`] with a human-readable message.

use vstd::prelude::*;
use vstd::string::*;

use crate::session_info::opt_view;
use crate::text::parse_u64;
use crate::toml_doc::{parse_toml, toml_error_text, toml_field};

verus! {

/// Scope that is asked for where none is configured.
pub open spec fn default_scope() -> &'static str {
    "api://racecontrol-api-a780e279-1cb6-4ed0-9ef6-49029aa50a42/.default"
}

/// Race Control address that is used where none is configured.
pub open spec fn default_url() -> &'static str {
    "https://simracecenter.com"
}

/// Milliseconds between batches where none are configured.
pub const DEFAULT_BATCH_INTERVAL_MS: u64 = 500;

/// Milliseconds between heartbeats where none are configured.
pub const DEFAULT_HEARTBEAT_INTERVAL_MS: u64 = 15_000;

/// Milliseconds between driver material where none are configured.
pub const DEFAULT_DRIVER_MATERIAL_INTERVAL_MS: u64 = 25_000;

/// Fully resolved and validated publisher configuration.
#[derive(Debug, Clone)]
pub struct PublisherConfig {
    pub auth: AuthConfig,
    pub publisher: PublisherSection,
}

/// Azure AD client-credentials authentication parameters.
#[derive(Debug, Clone)]
pub struct AuthConfig {
    pub tenant_id: String,
    pub client_id: String,
    pub client_secret: String,
    pub scope: String,
    /// Optional Windows Certificate Store thumbprint (documented, not used).
    pub cert_thumbprint: Option<String>,
}

/// Publisher-specific operational settings.
#[derive(Debug, Clone)]
pub struct PublisherSection {
    /// Base URL for the Race Control API (no trailing slash).
    pub rc_api_url: String,
    /// Interval between batch POST calls, in milliseconds.
    pub batch_interval_ms: u64,
    /// Interval between PUBLISHER_HEARTBEAT events, in milliseconds. `0` disables.
    pub heartbeat_interval_ms: u64,
    /// Interval between DRIVER_MATERIAL events, in milliseconds. `0` disables.
    pub driver_material_interval_ms: u64,
}

impl Default for PublisherSection {
    /// The production service, half a second between batches.
    fn default() -> (r: Self)
        ensures
            r.rc_api_url@ == default_url()@,
            r.batch_interval_ms == DEFAULT_BATCH_INTERVAL_MS,
            r.heartbeat_interval_ms == DEFAULT_HEARTBEAT_INTERVAL_MS,
            r.driver_material_interval_ms == DEFAULT_DRIVER_MATERIAL_INTERVAL_MS,
    {
        PublisherSection {
            rc_api_url: "https://simracecenter.com".to_owned(),
            batch_interval_ms: DEFAULT_BATCH_INTERVAL_MS,
            heartbeat_interval_ms: DEFAULT_HEARTBEAT_INTERVAL_MS,
            driver_material_interval_ms: DEFAULT_DRIVER_MATERIAL_INTERVAL_MS,
        }
    }
}

/// Errors produced by [`load`] and by reading the file for it.
#[derive(Debug)]
pub enum ConfigError {
    /// Config file could not be read.
    Io(String),
    /// Config file could not be parsed as TOML.
    Toml(toml::de::Error),
    /// A field of the config file has a value of the wrong kind.
    Field(&'static str),
    /// A required field is missing or empty.
    Validation(String),
}

impl ConfigError {
    /// What is wrong, for a person to read.
    pub fn message(&self) -> (r: String)
        ensures
            match *self {
                ConfigError::Io(e) => r@ == "config file read error: "@ + e@,
                ConfigError::Toml(e) => r@ == "config file parse error: "@
                    + crate::toml_doc::toml_error_words(e),
                ConfigError::Field(name) => r@ == "config file parse error: wrong kind of value for "@
                    + name@,
                ConfigError::Validation(m) => r@ == m@,
            },
    {
        match self {
            ConfigError::Io(e) => {
                let mut s: String = "config file read error: ".to_owned();
                s.append(e.as_str());
                s
            },
            ConfigError::Toml(e) => {
                let mut s: String = "config file parse error: ".to_owned();
                let detail: String = toml_error_text(e);
                s.append(detail.as_str());
                s
            },
            ConfigError::Field(name) => {
                let mut s: String = "config file parse error: wrong kind of value for ".to_owned();
                s.append(name);
                s
            },
            ConfigError::Validation(m) => m.clone(),
        }
    }
}

/// What the file says of authentication; anything may be missing.
#[derive(Debug, PartialEq)]
pub struct RawAuth {
    pub tenant_id: Option<String>,
    pub client_id: Option<String>,
    pub client_secret: Option<String>,
    pub scope: Option<String>,
    pub cert_thumbprint: Option<String>,
}

/// What the file says of the publisher; anything may be missing.
#[derive(Debug, PartialEq)]
pub struct RawPublisher {
    pub rc_api_url: Option<String>,
    pub batch_interval_ms: Option<u64>,
    pub heartbeat_interval_ms: Option<u64>,
    pub driver_material_interval_ms: Option<u64>,
}

/// What the file says; anything may be missing, since env vars may supply it.
#[derive(Debug, PartialEq)]
pub struct RawConfig {
    pub auth: RawAuth,
    pub publisher: RawPublisher,
}

/// What a [`RawConfig`] holds.
#[verifier::ext_equal]
pub struct RawView {
    pub tenant_id: Option<Seq<char>>,
    pub client_id: Option<Seq<char>>,
    pub client_secret: Option<Seq<char>>,
    pub scope: Option<Seq<char>>,
    pub cert_thumbprint: Option<Seq<char>>,
    pub rc_api_url: Option<Seq<char>>,
    pub batch_interval_ms: Option<u64>,
    pub heartbeat_interval_ms: Option<u64>,
    pub driver_material_interval_ms: Option<u64>,
}

impl View for RawConfig {
    type V = RawView;

    open spec fn view(&self) -> RawView {
        RawView {
            tenant_id: opt_view(self.auth.tenant_id),
            client_id: opt_view(self.auth.client_id),
            client_secret: opt_view(self.auth.client_secret),
            scope: opt_view(self.auth.scope),
            cert_thumbprint: opt_view(self.auth.cert_thumbprint),
            rc_api_url: opt_view(self.publisher.rc_api_url),
            batch_interval_ms: self.publisher.batch_interval_ms,
            heartbeat_interval_ms: self.publisher.heartbeat_interval_ms,
            driver_material_interval_ms: self.publisher.driver_material_interval_ms,
        }
    }
}

/// A file that says nothing.
pub open spec fn silent() -> RawView {
    RawView {
        tenant_id: None,
        client_id: None,
        client_secret: None,
        scope: None,
        cert_thumbprint: None,
        rc_api_url: None,
        batch_interval_ms: None,
        heartbeat_interval_ms: None,
        driver_material_interval_ms: None,
    }
}

impl Default for RawConfig {
    /// A file that says nothing.
    fn default() -> (r: Self)
        ensures
            r@ == silent(),
    {
        RawConfig {
            auth: RawAuth {
                tenant_id: None,
                client_id: None,
                client_secret: None,
                scope: None,
                cert_thumbprint: None,
            },
            publisher: RawPublisher {
                rc_api_url: None,
                batch_interval_ms: None,
                heartbeat_interval_ms: None,
                driver_material_interval_ms: None,
            },
        }
    }
}

/// The environment variables that the configuration listens to, each as it is
/// set, `None` where it is not.
#[derive(Debug)]
pub struct EnvOverrides {
    /// `PUBLISHER_AUTH_TENANT_ID`
    pub tenant_id: Option<String>,
    /// `PUBLISHER_AUTH_CLIENT_ID`
    pub client_id: Option<String>,
    /// `PUBLISHER_AUTH_CLIENT_SECRET`
    pub client_secret: Option<String>,
    /// `PUBLISHER_AUTH_SCOPE`
    pub scope: Option<String>,
    /// `PUBLISHER_AUTH_CERT_THUMBPRINT`
    pub cert_thumbprint: Option<String>,
    /// `PUBLISHER_RC_API_URL`
    pub rc_api_url: Option<String>,
    /// `PUBLISHER_BATCH_INTERVAL_MS`
    pub batch_interval_ms: Option<String>,
    /// `PUBLISHER_HEARTBEAT_INTERVAL_MS`
    pub heartbeat_interval_ms: Option<String>,
    /// `PUBLISHER_DRIVER_MATERIAL_INTERVAL_MS`
    pub driver_material_interval_ms: Option<String>,
}

/// A text after an override: an empty variable overrides nothing.
pub open spec fn text_over(file: Option<Seq<char>>, env: Option<Seq<char>>) -> Option<Seq<char>> {
    match env {
        Some(v) => if v.len() > 0 {
            env
        } else {
            file
        },
        None => file,
    }
}

/// A number after an override: a variable that is no number overrides nothing.
pub open spec fn number_over(file: Option<u64>, env: Option<Seq<char>>) -> Option<u64> {
    match env {
        Some(v) => match crate::text::number_in(v) {
            Some(n) => Some(n),
            None => file,
        },
        None => file,
    }
}

/// The configuration after the environment was heard.
pub open spec fn overridden(raw: RawView, env: EnvOverrides) -> RawView {
    RawView {
        tenant_id: text_over(raw.tenant_id, opt_view(env.tenant_id)),
        client_id: text_over(raw.client_id, opt_view(env.client_id)),
        client_secret: text_over(raw.client_secret, opt_view(env.client_secret)),
        scope: text_over(raw.scope, opt_view(env.scope)),
        cert_thumbprint: text_over(raw.cert_thumbprint, opt_view(env.cert_thumbprint)),
        rc_api_url: text_over(raw.rc_api_url, opt_view(env.rc_api_url)),
        batch_interval_ms: number_over(
            raw.batch_interval_ms,
            opt_view(env.batch_interval_ms),
        ),
        heartbeat_interval_ms: number_over(
            raw.heartbeat_interval_ms,
            opt_view(env.heartbeat_interval_ms),
        ),
        driver_material_interval_ms: number_over(
            raw.driver_material_interval_ms,
            opt_view(env.driver_material_interval_ms),
        ),
    }
}

fn override_text(field: &mut Option<String>, env: &Option<String>)
    ensures
        opt_view(*final(field)) == text_over(opt_view(*old(field)), opt_view(*env)),
{
    if let Some(v) = env {
        if v.as_str().unicode_len() > 0 {
            *field = Some(v.clone());
        }
    }
}

fn override_number(field: &mut Option<u64>, env: &Option<String>)
    ensures
        *final(field) == number_over(*old(field), opt_view(*env)),
{
    if let Some(v) = env {
        if let Some(n) = parse_u64(v.as_str()) {
            *field = Some(n);
        }
    }
}

/// Lets the environment override the file.
pub fn apply_env_overrides(raw: &mut RawConfig, env: &EnvOverrides)
    ensures
        final(raw)@ == overridden(old(raw)@, *env),
{
    override_text(&mut raw.auth.tenant_id, &env.tenant_id);
    override_text(&mut raw.auth.client_id, &env.client_id);
    override_text(&mut raw.auth.client_secret, &env.client_secret);
    override_text(&mut raw.auth.scope, &env.scope);
    override_text(&mut raw.auth.cert_thumbprint, &env.cert_thumbprint);
    override_text(&mut raw.publisher.rc_api_url, &env.rc_api_url);
    override_number(&mut raw.publisher.batch_interval_ms, &env.batch_interval_ms);
    override_number(&mut raw.publisher.heartbeat_interval_ms, &env.heartbeat_interval_ms);
    override_number(
        &mut raw.publisher.driver_material_interval_ms,
        &env.driver_material_interval_ms,
    );
}

/// Name of the variable that supplies an authentication field.
pub fn env_var_name(field: &str) -> (r: String)
    ensures
        r@ == "PUBLISHER_AUTH_"@ + crate::text::upper_text(field@),
        field.is_ascii() ==> r@ == "PUBLISHER_AUTH_"@ + field@.map_values(
            |c: char| crate::text::ascii_upper(c),
        ),
{
    let key: String = field.to_uppercase();
    let mut s: String = "PUBLISHER_AUTH_".to_owned();
    s.append(key.as_str());
    s
}

/// What is said of a missing field.
pub open spec fn missing_message(name: Seq<char>) -> Seq<char> {
    "[publisher] ERROR: auth."@ + name + " is required. Set it in publisher.toml or "@ + (
    "PUBLISHER_AUTH_"@ + crate::text::upper_text(name))
        + ".\nSee: https://simracecenter.com/docs/rig-setup for Azure AD provisioning steps."@
}

fn missing_text(name: &str) -> (r: String)
    ensures
        r@ == missing_message(name@),
{
    let mut s: String = "[publisher] ERROR: auth.".to_owned();
    s.append(name);
    s.append(" is required. Set it in publisher.toml or ");
    let var: String = env_var_name(name);
    s.append(var.as_str());
    s.append(".\nSee: https://simracecenter.com/docs/rig-setup for Azure AD provisioning steps.");
    s
}

/// Whether a field is there and not empty.
pub open spec fn given(field: Option<Seq<char>>) -> bool {
    field matches Some(s) && s.len() > 0
}

/// The field, or what stands in for one that is missing or empty.
pub open spec fn given_or(field: Option<Seq<char>>, default: Seq<char>) -> Seq<char> {
    if given(field) {
        field->0
    } else {
        default
    }
}

/// The number, or what stands in for one that is missing.
pub open spec fn number_or(field: Option<u64>, default: u64) -> u64 {
    match field {
        Some(n) => n,
        None => default,
    }
}

/// The first required field that is missing or empty.
pub open spec fn first_missing(raw: RawView) -> Option<Seq<char>> {
    if !given(raw.tenant_id) {
        Some("tenant_id"@)
    } else if !given(raw.client_id) {
        Some("client_id"@)
    } else if !given(raw.client_secret) {
        Some("client_secret"@)
    } else {
        None
    }
}

/// Whether a configuration is what the settings stand for.
pub open spec fn resolves(raw: RawView, c: PublisherConfig) -> bool {
    &&& Some(c.auth.tenant_id@) == raw.tenant_id
    &&& Some(c.auth.client_id@) == raw.client_id
    &&& Some(c.auth.client_secret@) == raw.client_secret
    &&& c.auth.scope@ == given_or(raw.scope, default_scope()@)
    &&& opt_view(c.auth.cert_thumbprint) == (if given(raw.cert_thumbprint) {
        raw.cert_thumbprint
    } else {
        None
    })
    &&& c.publisher.rc_api_url@ == given_or(raw.rc_api_url, default_url()@)
    &&& c.publisher.batch_interval_ms == number_or(
        raw.batch_interval_ms,
        DEFAULT_BATCH_INTERVAL_MS,
    )
    &&& c.publisher.heartbeat_interval_ms == number_or(
        raw.heartbeat_interval_ms,
        DEFAULT_HEARTBEAT_INTERVAL_MS,
    )
    &&& c.publisher.driver_material_interval_ms == number_or(
        raw.driver_material_interval_ms,
        DEFAULT_DRIVER_MATERIAL_INTERVAL_MS,
    )
}

fn filled(field: &Option<String>) -> (r: Option<String>)
    ensures
        opt_view(r) == (if given(opt_view(*field)) {
            opt_view(*field)
        } else {
            None
        }),
{
    match field {
        Some(s) => if s.as_str().unicode_len() > 0 {
            Some(s.clone())
        } else {
            None
        },
        None => None,
    }
}

fn filled_or(field: &Option<String>, default: &str) -> (r: String)
    ensures
        r@ == given_or(opt_view(*field), default@),
{
    match filled(field) {
        Some(s) => s,
        None => default.to_owned(),
    }
}

fn number_or_default(field: Option<u64>, default: u64) -> (r: u64)
    ensures
        r == number_or(field, default),
{
    match field {
        Some(n) => n,
        None => default,
    }
}

/// Checks the required fields and fills in the defaults.
pub fn build_and_validate(raw: RawConfig) -> (r: Result<PublisherConfig, ConfigError>)
    ensures
        match r {
            Ok(c) => first_missing(raw@) is None && resolves(raw@, c),
            Err(ConfigError::Validation(m)) => first_missing(raw@) matches Some(name) && m@
                == missing_message(name),
            Err(_) => false,
        },
{
    let tenant_id: String = match filled(&raw.auth.tenant_id) {
        Some(s) => s,
        None => {
            return Err(ConfigError::Validation(missing_text("tenant_id")));
        },
    };
    let client_id: String = match filled(&raw.auth.client_id) {
        Some(s) => s,
        None => {
            return Err(ConfigError::Validation(missing_text("client_id")));
        },
    };
    let client_secret: String = match filled(&raw.auth.client_secret) {
        Some(s) => s,
        None => {
            return Err(ConfigError::Validation(missing_text("client_secret")));
        },
    };
    Ok(
        PublisherConfig {
            auth: AuthConfig {
                tenant_id,
                client_id,
                client_secret,
                scope: filled_or(
                    &raw.auth.scope,
                    "api://racecontrol-api-a780e279-1cb6-4ed0-9ef6-49029aa50a42/.default",
                ),
                cert_thumbprint: filled(&raw.auth.cert_thumbprint),
            },
            publisher: PublisherSection {
                rc_api_url: filled_or(&raw.publisher.rc_api_url, "https://simracecenter.com"),
                batch_interval_ms: number_or_default(
                    raw.publisher.batch_interval_ms,
                    DEFAULT_BATCH_INTERVAL_MS,
                ),
                heartbeat_interval_ms: number_or_default(
                    raw.publisher.heartbeat_interval_ms,
                    DEFAULT_HEARTBEAT_INTERVAL_MS,
                ),
                driver_material_interval_ms: number_or_default(
                    raw.publisher.driver_material_interval_ms,
                    DEFAULT_DRIVER_MATERIAL_INTERVAL_MS,
                ),
            },
        },
    )
}

/// The value under a key.
pub open spec fn entry_of(v: toml::Value, key: Seq<char>) -> Option<toml::Value> {
    match crate::toml_doc::toml_shape(v) {
        crate::toml_doc::TomlShape::Table(m) => if m.contains_key(key) {
            Some(m[key])
        } else {
            None
        },
        _ => None,
    }
}

/// A setting of a section: the value under its key, or at its place where the section
/// is an array.
pub open spec fn setting_in(s: toml::Value, key: Seq<char>, place: int) -> Option<toml::Value> {
    match crate::toml_doc::toml_shape(s) {
        crate::toml_doc::TomlShape::Array(items) => if 0 <= place < items.len() {
            Some(items[place])
        } else {
            None
        },
        _ => entry_of(s, key),
    }
}

/// A setting of a section, where both are there.
pub open spec fn setting_of(
    v: toml::Value,
    section: Seq<char>,
    key: Seq<char>,
    place: int,
) -> Option<toml::Value> {
    match entry_of(v, section) {
        Some(s) => setting_in(s, key, place),
        None => None,
    }
}

/// A setting as a text; the outer `None` is an error.
pub open spec fn text_setting(
    v: toml::Value,
    section: Seq<char>,
    key: Seq<char>,
    place: int,
) -> Option<Option<Seq<char>>> {
    match setting_of(v, section, key, place) {
        Some(x) => match crate::toml_doc::toml_shape(x) {
            crate::toml_doc::TomlShape::Text(s) => Some(Some(s)),
            _ => None,
        },
        None => Some(None),
    }
}

/// A setting as a number that is not negative; the outer `None` is an error.
pub open spec fn number_setting(
    v: toml::Value,
    section: Seq<char>,
    key: Seq<char>,
    place: int,
) -> Option<Option<u64>> {
    match setting_of(v, section, key, place) {
        Some(x) => match crate::toml_doc::toml_shape(x) {
            crate::toml_doc::TomlShape::Integer(n) => if n >= 0 {
                Some(Some(n as u64))
            } else {
                None
            },
            _ => None,
        },
        None => Some(None),
    }
}

/// Whether a section is a table, an array, or absent. The items of an array are the
/// settings in the order in which the section lists them; further items are ignored.
pub open spec fn section_ok(v: toml::Value, section: Seq<char>) -> bool {
    entry_of(v, section) matches Some(s) ==> (crate::toml_doc::toml_shape(s) is Table
        || crate::toml_doc::toml_shape(s) is Array)
}

/// The settings of a document, `None` where one is of the wrong kind. Settings
/// that are not known are ignored.
pub open spec fn settings_in(v: toml::Value) -> Option<RawView> {
    if !section_ok(v, "auth"@) || !section_ok(v, "publisher"@) {
        None
    } else {
        match (
            text_setting(v, "auth"@, "tenant_id"@, 0),
            text_setting(v, "auth"@, "client_id"@, 1),
            text_setting(v, "auth"@, "client_secret"@, 2),
            text_setting(v, "auth"@, "scope"@, 3),
            text_setting(v, "auth"@, "cert_thumbprint"@, 4),
            text_setting(v, "publisher"@, "rc_api_url"@, 0),
            number_setting(v, "publisher"@, "batch_interval_ms"@, 1),
            number_setting(v, "publisher"@, "heartbeat_interval_ms"@, 2),
            number_setting(v, "publisher"@, "driver_material_interval_ms"@, 3),
        ) {
            (
                Some(tenant_id),
                Some(client_id),
                Some(client_secret),
                Some(scope),
                Some(cert_thumbprint),
                Some(rc_api_url),
                Some(batch_interval_ms),
                Some(heartbeat_interval_ms),
                Some(driver_material_interval_ms),
            ) => Some(
                RawView {
                    tenant_id,
                    client_id,
                    client_secret,
                    scope,
                    cert_thumbprint,
                    rc_api_url,
                    batch_interval_ms,
                    heartbeat_interval_ms,
                    driver_material_interval_ms,
                },
            ),
            _ => None,
        }
    }
}

/// The first section or setting of the wrong kind, `None` where all are well.
pub open spec fn misfit(v: toml::Value) -> Option<Seq<char>> {
    if !section_ok(v, "auth"@) {
        Some("auth"@)
    } else if !section_ok(v, "publisher"@) {
        Some("publisher"@)
    } else if text_setting(v, "auth"@, "tenant_id"@, 0) is None {
        Some("auth.tenant_id"@)
    } else if text_setting(v, "auth"@, "client_id"@, 1) is None {
        Some("auth.client_id"@)
    } else if text_setting(v, "auth"@, "client_secret"@, 2) is None {
        Some("auth.client_secret"@)
    } else if text_setting(v, "auth"@, "scope"@, 3) is None {
        Some("auth.scope"@)
    } else if text_setting(v, "auth"@, "cert_thumbprint"@, 4) is None {
        Some("auth.cert_thumbprint"@)
    } else if text_setting(v, "publisher"@, "rc_api_url"@, 0) is None {
        Some("publisher.rc_api_url"@)
    } else if number_setting(v, "publisher"@, "batch_interval_ms"@, 1) is None {
        Some("publisher.batch_interval_ms"@)
    } else if number_setting(v, "publisher"@, "heartbeat_interval_ms"@, 2) is None {
        Some("publisher.heartbeat_interval_ms"@)
    } else if number_setting(v, "publisher"@, "driver_material_interval_ms"@, 3) is None {
        Some("publisher.driver_material_interval_ms"@)
    } else {
        None
    }
}

/// Settings are read exactly where none is of the wrong kind.
pub proof fn settings_without_misfit(v: toml::Value)
    ensures
        settings_in(v) is Some <==> misfit(v) is None,
{
}

fn find_setting<'a>(v: &'a toml::Value, name: &str, key: &str, place: usize) -> (r: Option<
    &'a toml::Value,
>)
    ensures
        match r {
            Some(x) => setting_of(*v, name@, key@, place as int) == Some(*x),
            None => setting_of(*v, name@, key@, place as int) is None,
        },
{
    match toml_field(v, name) {
        Some(s) => match s.as_array() {
            Some(items) => if place < items.len() {
                Some(&items[place])
            } else {
                None
            },
            None => toml_field(s, key),
        },
        None => None,
    }
}

fn read_text(v: &toml::Value, name: &str, key: &str, place: usize) -> (r: Option<Option<String>>)
    ensures
        crate::session_info::opt_opt_view(r) == text_setting(*v, name@, key@, place as int),
{
    match find_setting(v, name, key, place) {
        Some(x) => match x.as_str() {
            Some(t) => Some(Some(t.to_owned())),
            None => None,
        },
        None => Some(None),
    }
}

fn read_number(v: &toml::Value, name: &str, key: &str, place: usize) -> (r: Option<Option<u64>>)
    ensures
        r == number_setting(*v, name@, key@, place as int),
{
    match find_setting(v, name, key, place) {
        Some(x) => match x.as_integer() {
            Some(n) => if n >= 0 {
                Some(Some(n as u64))
            } else {
                None
            },
            None => None,
        },
        None => Some(None),
    }
}

/// Reads the settings of a document.
pub fn decode(v: &toml::Value) -> (r: Result<RawConfig, ConfigError>)
    ensures
        match r {
            Ok(raw) => settings_in(*v) == Some(raw@),
            Err(ConfigError::Field(name)) => misfit(*v) == Some(name@),
            Err(_) => false,
        },
{
    if let Some(s) = toml_field(v, "auth") {
        if !s.is_table() && s.as_array().is_none() {
            return Err(ConfigError::Field("auth"));
        }
    }
    if let Some(s) = toml_field(v, "publisher") {
        if !s.is_table() && s.as_array().is_none() {
            return Err(ConfigError::Field("publisher"));
        }
    }
    let tenant_id: Option<String> = match read_text(v, "auth", "tenant_id", 0) {
        Some(x) => x,
        None => {
            return Err(ConfigError::Field("auth.tenant_id"));
        },
    };
    let client_id: Option<String> = match read_text(v, "auth", "client_id", 1) {
        Some(x) => x,
        None => {
            return Err(ConfigError::Field("auth.client_id"));
        },
    };
    let client_secret: Option<String> = match read_text(v, "auth", "client_secret", 2) {
        Some(x) => x,
        None => {
            return Err(ConfigError::Field("auth.client_secret"));
        },
    };
    let scope: Option<String> = match read_text(v, "auth", "scope", 3) {
        Some(x) => x,
        None => {
            return Err(ConfigError::Field("auth.scope"));
        },
    };
    let cert_thumbprint: Option<String> = match read_text(v, "auth", "cert_thumbprint", 4) {
        Some(x) => x,
        None => {
            return Err(ConfigError::Field("auth.cert_thumbprint"));
        },
    };
    let rc_api_url: Option<String> = match read_text(v, "publisher", "rc_api_url", 0) {
        Some(x) => x,
        None => {
            return Err(ConfigError::Field("publisher.rc_api_url"));
        },
    };
    let batch_interval_ms: Option<u64> = match read_number(v, "publisher", "batch_interval_ms", 1) {
        Some(x) => x,
        None => {
            return Err(ConfigError::Field("publisher.batch_interval_ms"));
        },
    };
    let heartbeat_interval_ms: Option<u64> = match read_number(v, "publisher", "heartbeat_interval_ms", 2) {
        Some(x) => x,
        None => {
            return Err(ConfigError::Field("publisher.heartbeat_interval_ms"));
        },
    };
    let driver_material_interval_ms: Option<u64> = match read_number(v, "publisher", "driver_material_interval_ms", 3) {
        Some(x) => x,
        None => {
            return Err(ConfigError::Field("publisher.driver_material_interval_ms"));
        },
    };
    Ok(
        RawConfig {
            auth: RawAuth { tenant_id, client_id, client_secret, scope, cert_thumbprint },
            publisher: RawPublisher {
                rc_api_url,
                batch_interval_ms,
                heartbeat_interval_ms,
                driver_material_interval_ms,
            },
        },
    )
}

/// The settings of a text, `None` where it is not TOML or a setting is of the
/// wrong kind.
pub open spec fn settings_of_text(text: Seq<char>) -> Option<RawView> {
    match crate::toml_doc::toml_document(text) {
        Some(v) => settings_in(v),
        None => None,
    }
}

/// Reads the settings of a text.
pub fn parse(toml_str: &str) -> (r: Result<RawConfig, ConfigError>)
    ensures
        match r {
            Ok(raw) => settings_of_text(toml_str@) == Some(raw@),
            Err(ConfigError::Toml(e)) => crate::toml_doc::toml_parsed(toml_str@) == Err::<
                toml::Value,
                toml::de::Error,
            >(e),
            Err(ConfigError::Field(name)) => crate::toml_doc::toml_document(toml_str@) matches Some(
                v,
            ) && misfit(v) == Some(name@),
            Err(_) => false,
        },
{
    match parse_toml(toml_str) {
        Ok(v) => decode(&v),
        Err(e) => Err(ConfigError::Toml(e)),
    }
}

/// Load, merge with env vars, and validate the publisher configuration.
///
/// `toml_str` is the text of the configuration file, empty where there is none.
pub fn load(toml_str: &str, env: &EnvOverrides) -> (r: Result<PublisherConfig, ConfigError>)
    ensures
        match r {
            Ok(c) => settings_of_text(toml_str@) matches Some(raw) && first_missing(
                overridden(raw, *env),
            ) is None && resolves(overridden(raw, *env), c),
            Err(ConfigError::Validation(m)) => settings_of_text(toml_str@) matches Some(raw)
                && first_missing(overridden(raw, *env)) matches Some(name) && m@
                == missing_message(name),
            Err(ConfigError::Toml(e)) => crate::toml_doc::toml_parsed(toml_str@) == Err::<
                toml::Value,
                toml::de::Error,
            >(e),
            Err(ConfigError::Field(name)) => crate::toml_doc::toml_document(toml_str@) matches Some(
                v,
            ) && misfit(v) == Some(name@),
            Err(ConfigError::Io(_)) => false,
        },
{
    match parse(toml_str) {
        Ok(raw) => {
            let mut merged: RawConfig = raw;
            apply_env_overrides(&mut merged, env);
            build_and_validate(merged)
        },
        Err(e) => Err(e),
    }
}

/// Env over file over default: a variable that is set decides, else the file,
/// else the default.
pub proof fn environment_over_file_over_default(
    file: Option<Seq<char>>,
    env: Option<Seq<char>>,
    default: Seq<char>,
)
    ensures
        given(env) ==> given_or(text_over(file, env), default) == env->0,
        !given(env) ==> text_over(file, env) == file,
        !given(env) && !given(file) ==> given_or(text_over(file, env), default) == default,
{
}

/// The same of a number.
pub proof fn number_from_environment_over_file_over_default(
    file: Option<u64>,
    env: Option<Seq<char>>,
    default: u64,
)
    ensures
        env is Some && crate::text::number_in(env->0) is Some ==> Some(
            number_or(number_over(file, env), default),
        ) == crate::text::number_in(env->0),
        env is Some && crate::text::number_in(env->0) is None ==> number_over(file, env) == file,
        env is None && file is None ==> number_or(number_over(file, env), default) == default,
        env is None ==> number_over(file, env) == file,
{
}

/// The three required fields can come from the environment alone.
pub proof fn environment_alone_is_enough(env: EnvOverrides)
    requires
        given(opt_view(env.tenant_id)),
        given(opt_view(env.client_id)),
        given(opt_view(env.client_secret)),
    ensures
        first_missing(overridden(silent(), env)) is None,
{
}

/// Where nothing but the three required fields is given, batches go out every half second,
/// heartbeats every fifteen seconds and driver material every twenty-five, to the address
/// and with the scope that stand in; a number that is given is used as it is.
pub proof fn what_is_not_given_has_its_default(raw: RawView, c: PublisherConfig)
    requires
        resolves(raw, c),
    ensures
        raw.batch_interval_ms is None ==> c.publisher.batch_interval_ms * 2 == 1_000,
        raw.heartbeat_interval_ms is None ==> c.publisher.heartbeat_interval_ms == 15 * 1_000,
        raw.driver_material_interval_ms is None ==> c.publisher.driver_material_interval_ms == 25
            * 1_000,
        raw.batch_interval_ms is Some ==> c.publisher.batch_interval_ms
            == raw.batch_interval_ms->0,
        raw.heartbeat_interval_ms is Some ==> c.publisher.heartbeat_interval_ms
            == raw.heartbeat_interval_ms->0,
        raw.driver_material_interval_ms is Some ==> c.publisher.driver_material_interval_ms
            == raw.driver_material_interval_ms->0,
        raw.rc_api_url is None ==> c.publisher.rc_api_url@ == "https://simracecenter.com"@,
        given(raw.rc_api_url) ==> c.publisher.rc_api_url@ == raw.rc_api_url->0,
        given(raw.scope) ==> c.auth.scope@ == raw.scope->0,
{
}

/// The first of tenant, client and secret that is missing or empty is named; where all
/// three are there none is.
pub proof fn the_first_missing_field_is_named(raw: RawView)
    ensures
        ({
            let no_tenant = raw.tenant_id is None || (raw.tenant_id->0).len() == 0;
            let no_client = raw.client_id is None || (raw.client_id->0).len() == 0;
            let no_secret = raw.client_secret is None || (raw.client_secret->0).len() == 0;
            &&& no_tenant ==> first_missing(raw) == Some("tenant_id"@)
            &&& !no_tenant && no_client ==> first_missing(raw) == Some("client_id"@)
            &&& !no_tenant && !no_client && no_secret ==> first_missing(raw) == Some(
                "client_secret"@,
            )
            &&& !no_tenant && !no_client && !no_secret ==> first_missing(raw) is None
        }),
{
}

} // verus!
