//! Configuration: which rules are on.

use vstd::prelude::*;

use crate::rule::Rules;

verus! {

/// The configuration of a lint run.
#[derive(Clone, Debug)]
pub struct Config {
    /// The rules to check.
    pub rules: Rules,
}

impl Default for Config {
    /// The configuration used when no file gives one.
    fn default() -> (r: Self)
        ensures
            r.rules.is_default_set(),
    {
        Config { rules: Rules::default() }
    }
}

/// The configuration used when no file gives one.
pub fn default_config() -> (r: Config)
    ensures
        r.rules.is_default_set(),
{
    Config::default()
}

/// The names of the files a configuration is looked for in, in the order
/// they are tried.
pub fn config_file_names() -> (r: Vec<&'static str>)
    ensures
        r@.len() == 4,
        r@[0]@ == ".commitlintrc"@,
        r@[1]@ == ".commitlintrc.json"@,
        r@[2]@ == ".commitlintrc.yaml"@,
        r@[3]@ == ".commitlintrc.yml"@,
{
    vec![".commitlintrc", ".commitlintrc.json", ".commitlintrc.yaml", ".commitlintrc.yml"]
}

/// How the text of a configuration file is read.
#[derive(Clone, Copy, Debug, PartialEq, Eq, Structural)]
pub enum ConfigFormat {
    /// As JSON.
    Json,
    /// As YAML.
    Yaml,
    /// As JSON, and failing that as YAML.
    Unknown,
}

/// How a configuration file is read, by its extension: `json` as JSON,
/// `yaml` and `yml` as YAML, anything else by trying both.
pub fn config_format(extension: &str) -> (r: ConfigFormat)
    ensures
        r == (if extension@ == "json"@ {
            ConfigFormat::Json
        } else if extension@ == "yaml"@ || extension@ == "yml"@ {
            ConfigFormat::Yaml
        } else {
            ConfigFormat::Unknown
        }),
{
    let e = extension.to_owned();
    if e == "json".to_owned() {
        ConfigFormat::Json
    } else if e == "yaml".to_owned() || e == "yml".to_owned() {
        ConfigFormat::Yaml
    } else {
        ConfigFormat::Unknown
    }
}

} // verus!
