//! Configuration metadata: where config files live, how environment
//! overrides are spelled, and the exact order in which the layered files are
//! merged. Reading files and environment variables is the shell's business;
//! it follows the merge plan computed here.

use vstd::prelude::*;

verus! {

/// The meta-config: where to look for config files and how to parse
/// environment overrides.
#[derive(Debug, Clone)]
pub struct ConfigMetaData {
    /// The env var naming the operating environment.
    pub config_env_var: String,
    /// The operating environment assumed when the env var is unset.
    pub config_env_default: String,
    /// The env var naming the server flavor.
    pub config_env_var_server_flavor: String,
    /// The flavor assumed when neither env var nor config name one.
    pub config_env_var_server_flavor_default: String,
    /// The prefix of override env vars.
    pub config_env_prefix: String,
    /// The nesting separator inside override env vars.
    pub config_env_separator: String,
    /// The folder holding the config files.
    pub config_folder_path: String,
    /// The suffix of TOML config files.
    pub config_toml_suffix: String,
    /// The suffix of JSON config files.
    pub config_json_suffix: String,
    /// The base name of the default config files.
    pub config_default_name: String,
}

impl Default for ConfigMetaData {
    /// The stock meta-config: `./config/` holding `default` files with
    /// `.toml` and `.json` suffixes, the environment from `RUN_ENV`
    /// defaulting to `Production`, the flavor from `SERVER_FLAVOR`, and
    /// overrides under `ea` separated by `__`.
    fn default() -> (r: Self)
        ensures
            r.config_env_var@ == "RUN_ENV"@,
            r.config_env_default@ == "Production"@,
            r.config_env_var_server_flavor@ == "SERVER_FLAVOR"@,
            r.config_env_var_server_flavor_default@ == ""@,
            r.config_env_prefix@ == "ea"@,
            r.config_env_separator@ == "__"@,
            r.config_folder_path@ == "./config/"@,
            r.config_toml_suffix@ == ".toml"@,
            r.config_json_suffix@ == ".json"@,
            r.config_default_name@ == "default"@,
    {
        ConfigMetaData {
            config_env_var: "RUN_ENV".to_owned(),
            config_env_default: "Production".to_owned(),
            config_env_var_server_flavor: "SERVER_FLAVOR".to_owned(),
            config_env_var_server_flavor_default: "".to_owned(),
            config_env_prefix: "ea".to_owned(),
            config_env_separator: "__".to_owned(),
            config_folder_path: "./config/".to_owned(),
            config_toml_suffix: ".toml".to_owned(),
            config_json_suffix: ".json".to_owned(),
            config_default_name: "default".to_owned(),
        }
    }
}

/// One file-merge step of the plan: the file at
/// `folder` `[flavor /]` `name` `suffix` is merged, if it exists.
#[derive(Debug, Clone)]
pub struct MergeStep {
    /// The config folder.
    pub folder: String,
    /// The flavor sub-folder, if the step lies under a flavor.
    pub flavor: Option<String>,
    /// The file's base name.
    pub name: String,
    /// The file's suffix.
    pub suffix: String,
}

/// The `ConfigBuilder` carries a default set of config parameters used in
/// locating config information in files and the environment, and lets each
/// be overridden.
#[derive(Debug)]
pub struct ConfigBuilder {
    /// The meta-config being assembled.
    pub config: ConfigMetaData,
}

impl Default for ConfigBuilder {
    /// A builder carrying the stock meta-config.
    fn default() -> (r: Self)
        ensures
            r.config.config_env_var@ == "RUN_ENV"@,
            r.config.config_env_default@ == "Production"@,
            r.config.config_env_var_server_flavor@ == "SERVER_FLAVOR"@,
            r.config.config_env_var_server_flavor_default@ == ""@,
            r.config.config_env_prefix@ == "ea"@,
            r.config.config_env_separator@ == "__"@,
            r.config.config_folder_path@ == "./config/"@,
            r.config.config_toml_suffix@ == ".toml"@,
            r.config.config_json_suffix@ == ".json"@,
            r.config.config_default_name@ == "default"@,
    {
        ConfigBuilder { config: ConfigMetaData::default() }
    }
}

impl ConfigBuilder {
    /// Override for config_env_var.
    pub fn with_config_env_var(self, val: &str) -> (r: Self)
        ensures
            r.config.config_env_var@ == val@,
            r.config == (ConfigMetaData { config_env_var: r.config.config_env_var, ..self.config }),
    {
        let mut this = self;
        this.config.config_env_var = val.to_owned();
        this
    }

    /// Override for config_env_prefix.
    pub fn with_config_env_prefix(self, val: &str) -> (r: Self)
        ensures
            r.config.config_env_prefix@ == val@,
            r.config == (ConfigMetaData { config_env_prefix: r.config.config_env_prefix, ..self.config }),
    {
        let mut this = self;
        this.config.config_env_prefix = val.to_owned();
        this
    }

    /// Override for config_env_separator.
    pub fn with_config_env_separator(self, val: &str) -> (r: Self)
        ensures
            r.config.config_env_separator@ == val@,
            r.config == (ConfigMetaData { config_env_separator: r.config.config_env_separator, ..self.config }),
    {
        let mut this = self;
        this.config.config_env_separator = val.to_owned();
        this
    }

    /// Override for config_folder_path.
    pub fn with_config_folder_path(self, val: &str) -> (r: Self)
        ensures
            r.config.config_folder_path@ == val@,
            r.config == (ConfigMetaData { config_folder_path: r.config.config_folder_path, ..self.config }),
    {
        let mut this = self;
        this.config.config_folder_path = val.to_owned();
        this
    }

    /// Override for config_toml_suffix.
    pub fn with_config_toml_suffix(self, val: &str) -> (r: Self)
        ensures
            r.config.config_toml_suffix@ == val@,
            r.config == (ConfigMetaData { config_toml_suffix: r.config.config_toml_suffix, ..self.config }),
    {
        let mut this = self;
        this.config.config_toml_suffix = val.to_owned();
        this
    }

    /// Override for config_json_suffix.
    pub fn with_config_json_suffix(self, val: &str) -> (r: Self)
        ensures
            r.config.config_json_suffix@ == val@,
            r.config == (ConfigMetaData { config_json_suffix: r.config.config_json_suffix, ..self.config }),
    {
        let mut this = self;
        this.config.config_json_suffix = val.to_owned();
        this
    }

    /// Override for config_default_name.
    pub fn with_config_default_name(self, val: &str) -> (r: Self)
        ensures
            r.config.config_default_name@ == val@,
            r.config == (ConfigMetaData { config_default_name: r.config.config_default_name, ..self.config }),
    {
        let mut this = self;
        this.config.config_default_name = val.to_owned();
        this
    }

    /// The order in which the layered config files are merged, later files
    /// overriding earlier ones: the default TOML and JSON, the environment's
    /// TOML and JSON, and — when a flavor is named — the same four again
    /// under the flavor's folder. Environment overrides are applied by the
    /// shell after the last step.
    pub fn merge_plan(&self, env: &str, server_flavor: &str) -> (r: Vec<MergeStep>)
        ensures
            r@.len() == (if server_flavor@.len() == 0 {
                4int
            } else {
                8int
            }),
            forall|i: int|
                0 <= i < r@.len() ==> (#[trigger] r@[i]).folder@
                    == self.config.config_folder_path@,
            forall|i: int|
                0 <= i < r@.len() ==> ((#[trigger] r@[i]).name@ == (if i % 4 < 2 {
                    self.config.config_default_name@
                } else {
                    env@
                })),
            forall|i: int|
                0 <= i < r@.len() ==> ((#[trigger] r@[i]).suffix@ == (if i % 2 == 0 {
                    self.config.config_toml_suffix@
                } else {
                    self.config.config_json_suffix@
                })),
            forall|i: int|
                0 <= i < r@.len() ==> ((#[trigger] r@[i]).flavor matches Some(fl) ==> i >= 4
                    && fl@ == server_flavor@),
            forall|i: int| 0 <= i < r@.len() && i < 4 ==> (#[trigger] r@[i]).flavor is None,
            forall|i: int|
                4 <= i < r@.len() ==> ((#[trigger] r@[i]).flavor matches Some(fl) && fl@
                    == server_flavor@),
    {
        let mut plan: Vec<MergeStep> = Vec::new();
        plan.push(
            MergeStep {
                folder: self.config.config_folder_path.clone(),
                flavor: None,
                name: self.config.config_default_name.clone(),
                suffix: self.config.config_toml_suffix.clone(),
            },
        );
        plan.push(
            MergeStep {
                folder: self.config.config_folder_path.clone(),
                flavor: None,
                name: self.config.config_default_name.clone(),
                suffix: self.config.config_json_suffix.clone(),
            },
        );
        plan.push(
            MergeStep {
                folder: self.config.config_folder_path.clone(),
                flavor: None,
                name: env.to_owned(),
                suffix: self.config.config_toml_suffix.clone(),
            },
        );
        plan.push(
            MergeStep {
                folder: self.config.config_folder_path.clone(),
                flavor: None,
                name: env.to_owned(),
                suffix: self.config.config_json_suffix.clone(),
            },
        );
        if !server_flavor.is_empty() {
            plan.push(
                MergeStep {
                    folder: self.config.config_folder_path.clone(),
                    flavor: Some(server_flavor.to_owned()),
                    name: self.config.config_default_name.clone(),
                    suffix: self.config.config_toml_suffix.clone(),
                },
            );
            plan.push(
                MergeStep {
                    folder: self.config.config_folder_path.clone(),
                    flavor: Some(server_flavor.to_owned()),
                    name: self.config.config_default_name.clone(),
                    suffix: self.config.config_json_suffix.clone(),
                },
            );
            plan.push(
                MergeStep {
                    folder: self.config.config_folder_path.clone(),
                    flavor: Some(server_flavor.to_owned()),
                    name: env.to_owned(),
                    suffix: self.config.config_toml_suffix.clone(),
                },
            );
            plan.push(
                MergeStep {
                    folder: self.config.config_folder_path.clone(),
                    flavor: Some(server_flavor.to_owned()),
                    name: env.to_owned(),
                    suffix: self.config.config_json_suffix.clone(),
                },
            );
        }
        plan
    }
}

} // verus!
