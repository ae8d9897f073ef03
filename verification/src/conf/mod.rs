//! Custom configuration for the kernel.

use vstd::prelude::*;

pub mod file;

verus! {

/// Specifies where the configuration is taken from.
#[derive(Debug, Clone, Copy, PartialEq, Eq, Hash)]
pub enum ConfigType {
    /// The configuration that the build wrote into the kernel.
    File,
    /// The configuration that the user defines.
    UserDefined(Config),
}

/// The project's configuration.
#[derive(Debug, Clone, Copy, PartialEq, Eq, Hash)]
pub struct Config {
    /// The name of the project.
    pub project_name: &'static str,
    /// The version of the project.
    pub project_version: &'static str,
    /// If the project should boot quietly.
    /// Set to false if you are building a library.
    pub quiet_boot: bool,
}

/// A configuration as a value: the two texts, and the flag.
pub struct ConfigView {
    pub project_name: Seq<char>,
    pub project_version: Seq<char>,
    pub quiet_boot: bool,
}

impl View for Config {
    type V = ConfigView;

    open spec fn view(&self) -> ConfigView {
        ConfigView {
            project_name: self.project_name@,
            project_version: self.project_version@,
            quiet_boot: self.quiet_boot,
        }
    }
}

impl Config {
    /// The configuration that the build wrote into the kernel.
    pub open spec fn from_file() -> ConfigView {
        ConfigView {
            project_name: file::PROJECT_NAME@,
            project_version: file::PROJECT_VERSION@,
            quiet_boot: file::QUIET_BOOT,
        }
    }

    /// The configuration that a source stands for.
    pub open spec fn resolve(config_type: ConfigType) -> ConfigView {
        match config_type {
            ConfigType::File => Config::from_file(),
            ConfigType::UserDefined(data) => data@,
        }
    }

    /// An empty configuration: no name, no version, and a boot that is not
    /// quiet.
    pub fn cnst() -> (config: Config)
        ensures
            config@ == (ConfigView {
                project_name: Seq::empty(),
                project_version: Seq::empty(),
                quiet_boot: false,
            }),
    {
        proof {
            reveal_strlit("");
            assert(""@ =~= Seq::<char>::empty());
        }
        Config { project_name: "", project_version: "", quiet_boot: false }
    }

    /// The configuration with these values.
    pub fn new(project_name: &'static str, project_version: &'static str, quiet_boot: bool) -> (config:
        Config)
        ensures
            config@ == (ConfigView {
                project_name: project_name@,
                project_version: project_version@,
                quiet_boot,
            }),
    {
        Config { project_name, project_version, quiet_boot }
    }

    /// The configuration to run with: that of the build for `File`, and
    /// the one that comes with `UserDefined`. The configuration that it is
    /// called on does not count.
    pub fn get_config(self, config_type: ConfigType) -> (config: Config)
        ensures
            config@ == Config::resolve(config_type),
    {
        match config_type {
            ConfigType::File => Config {
                project_name: file::PROJECT_NAME,
                project_version: file::PROJECT_VERSION,
                quiet_boot: file::QUIET_BOOT,
            },
            ConfigType::UserDefined(data) => data,
        }
    }
}

} // verus!
