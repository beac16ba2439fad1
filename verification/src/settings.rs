//! The settings of the service, read from a YAML document.

use config::Config;
use config::ConfigError;
use config::File;
use config::FileFormat;
use vstd::prelude::*;
use vstd::string::*;

verus! {

/// `config::Config`, a configuration that was read. Opaque: `config_strings` names what
/// it holds.
#[verifier::external_type_specification]
#[verifier::external_body]
pub struct ExConfig(Config);

/// `config::ConfigError`, as reading a document or a setting returns it. Opaque.
#[verifier::external_type_specification]
#[verifier::external_body]
pub struct ExConfigError(ConfigError);

/// What the `config` crate makes of a YAML document: `None` where it refuses the text,
/// otherwise the settings of the document, as `config_strings` gives them.
pub uninterp spec fn yaml_strings(text: Seq<char>) -> Option<Map<Seq<char>, Seq<char>>>;

/// The settings that a configuration holds as text, by their dotted keys: the keys that
/// `config::Config::get_string` finds, each with the text it returns.
pub uninterp spec fn config_strings(settings: Config) -> Map<Seq<char>, Seq<char>>;

/// The settings of the service.
#[derive(Debug)]
pub struct Settings {
    pub server: ServerConfig,
    pub yara: YaraConfig,
}

/// Where the service listens and under which paths.
#[derive(Debug)]
pub struct ServerConfig {
    pub address: String,
    pub url_path: UrlPath,
}

/// The paths of the three operations: content scan, URL scan and reload.
#[derive(Debug)]
pub struct UrlPath {
    pub content: String,
    pub url: String,
    pub reload: String,
}

/// Where the rule files are.
#[derive(Debug)]
pub struct YaraConfig {
    pub rule_dir: String,
}

/// The mathematical content of a `Settings`.
pub struct SettingsView {
    pub address: Seq<char>,
    pub content: Seq<char>,
    pub url: Seq<char>,
    pub reload: Seq<char>,
    pub rule_dir: Seq<char>,
}

impl View for Settings {
    type V = SettingsView;

    open spec fn view(&self) -> SettingsView {
        SettingsView {
            address: self.server.address@,
            content: self.server.url_path.content@,
            url: self.server.url_path.url@,
            reload: self.server.url_path.reload@,
            rule_dir: self.yara.rule_dir@,
        }
    }
}

/// Why a document gave no settings.
#[derive(Debug)]
pub enum SettingsError {
    /// The text is no YAML document; `detail` is the parser's text.
    Document { detail: String },
    /// The document lacks the setting `key` as text; `detail` is the reader's text.
    Setting { key: String, detail: String },
}

/// The dotted keys of the settings, in the order in which they are read.
pub open spec fn setting_keys() -> Seq<Seq<char>> {
    seq![
        "server.address"@,
        "server.url_path.content"@,
        "server.url_path.url"@,
        "server.url_path.reload"@,
        "yara.rule_dir"@,
    ]
}

/// The first of the keys that `strings` lacks, if it lacks one.
pub open spec fn first_missing(strings: Map<Seq<char>, Seq<char>>, key: Seq<char>) -> bool {
    exists|i: int|
        {
            &&& 0 <= i < setting_keys().len()
            &&& #[trigger] setting_keys()[i] == key
            &&& !strings.contains_key(key)
            &&& forall|j: int| 0 <= j < i ==> strings.contains_key(#[trigger] setting_keys()[j])
        }
}

/// The settings that `strings` holds, where it holds them all.
pub open spec fn settings_of(strings: Map<Seq<char>, Seq<char>>) -> Option<SettingsView> {
    if forall|i: int| 0 <= i < setting_keys().len() ==> strings.contains_key(
        #[trigger] setting_keys()[i],
    ) {
        Some(
            SettingsView {
                address: strings["server.address"@],
                content: strings["server.url_path.content"@],
                url: strings["server.url_path.url"@],
                reload: strings["server.url_path.reload"@],
                rule_dir: strings["yara.rule_dir"@],
            },
        )
    } else {
        None
    }
}

/// What reading the settings out of `strings` gives.
pub open spec fn settings_outcome(
    strings: Map<Seq<char>, Seq<char>>,
    r: Result<Settings, SettingsError>,
) -> bool {
    match r {
        Ok(settings) => settings_of(strings) == Some(settings@),
        Err(SettingsError::Setting { key, detail }) => first_missing(strings, key@),
        Err(SettingsError::Document { .. }) => false,
    }
}

/// `config::Config::builder`, one `add_source` of `config::File::from_str` with
/// `config::FileFormat::Yaml`, and `build`. The chain stands in one place because the
/// builder type is bounded by a trait of the crate and cannot be named in verified code.
/// Trusted: the outcome is a function of the text alone, named `yaml_strings`.
#[verifier::external_body]
fn parse_yaml(text: &str) -> (r: Result<Config, ConfigError>)
    ensures
        match r {
            Ok(settings) => yaml_strings(text@) == Some(config_strings(settings)),
            Err(_) => yaml_strings(text@) is None,
        },
{
    Config::builder().add_source(File::from_str(text, FileFormat::Yaml)).build()
}

/// `config::Config::get_string`. Trusted: it finds the keys of `config_strings`, with
/// their text, and no other.
#[verifier::external_body]
fn get_string(settings: &Config, key: &str) -> (r: Result<String, ConfigError>)
    ensures
        match r {
            Ok(text) => config_strings(*settings).contains_key(key@) && config_strings(
                *settings,
            )[key@] == text@,
            Err(_) => !config_strings(*settings).contains_key(key@),
        },
{
    settings.get_string(key)
}

/// The `Display` text of a `config::ConfigError`. Nothing is claimed of it.
#[verifier::external_body]
fn config_error_text(error: &ConfigError) -> String {
    error.to_string()
}

/// One setting as text, or the error that names it.
fn setting(settings: &Config, key: &str) -> (r: Result<String, SettingsError>)
    ensures
        match r {
            Ok(text) => config_strings(*settings).contains_key(key@) && config_strings(
                *settings,
            )[key@] == text@,
            Err(SettingsError::Setting { key: k, detail }) => k@ == key@ && !config_strings(
                *settings,
            ).contains_key(key@),
            Err(SettingsError::Document { .. }) => false,
        },
{
    match get_string(settings, key) {
        Ok(text) => Ok(text),
        Err(error) => Err(
            SettingsError::Setting {
                key: String::from_str(key),
                detail: config_error_text(&error),
            },
        ),
    }
}

impl Settings {
    /// Reads the five settings out of a configuration, in the order of `setting_keys`.
    /// The first one that is missing, or is no text, is the error.
    pub fn from_config(settings: &Config) -> (r: Result<Settings, SettingsError>)
        ensures
            settings_outcome(config_strings(*settings), r),
    {
        let address = setting(settings, "server.address")?;
        let content = setting(settings, "server.url_path.content")?;
        let url = setting(settings, "server.url_path.url")?;
        let reload = setting(settings, "server.url_path.reload")?;
        let rule_dir = setting(settings, "yara.rule_dir")?;
        Ok(
            Settings {
                server: ServerConfig { address, url_path: UrlPath { content, url, reload } },
                yara: YaraConfig { rule_dir },
            },
        )
    }

    /// Reads the settings from the text of a YAML document.
    pub fn from_yaml(text: &str) -> (r: Result<Settings, SettingsError>)
        ensures
            match yaml_strings(text@) {
                None => r matches Err(SettingsError::Document { .. }),
                Some(strings) => settings_outcome(strings, r),
            },
    {
        match parse_yaml(text) {
            Err(error) => Err(SettingsError::Document { detail: config_error_text(&error) }),
            Ok(settings) => Settings::from_config(&settings),
        }
    }
}

} // verus!
