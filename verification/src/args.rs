//! The commands of the command line, and what each of them asks for.
use vstd::prelude::*;

verus! {

/// Where the configuration file lies unless the command line says otherwise.
pub const BASE_CONFIG_DEFAULT_LOCATION: &'static str = "~/.nya/config.json";

/// The command line.
#[derive(Debug)]
pub struct Cli {
    pub command: Commands,
}

/// The commands.
#[derive(Debug)]
pub enum Commands {
    /// Write the starter configuration to `output`.
    Init { output: String },
    /// Work on the base cluster.
    Base { command: BaseCommands },
}

/// The commands on the base cluster.
#[derive(Debug)]
pub enum BaseCommands {
    /// Build the cluster that `config` describes.
    Build { config: String },
    /// Destroy the cluster that `config` describes.
    Destroy { config: String },
}

impl BaseCommands {
    /// The name of the schema that the command runs.
    pub open spec fn schema_name(self) -> Seq<char> {
        match self {
            BaseCommands::Build { .. } => "base:build"@,
            BaseCommands::Destroy { .. } => "base:destroy"@,
        }
    }

    /// The name of the schema that the command runs.
    pub fn command_name(&self) -> (r: &'static str)
        ensures
            r@ == self.schema_name(),
    {
        match self {
            BaseCommands::Build { .. } => "base:build",
            BaseCommands::Destroy { .. } => "base:destroy",
        }
    }

    /// The path of the configuration file that the command was given.
    pub fn config(&self) -> (r: &str)
        ensures
            r@ == match self {
                BaseCommands::Build { config } => config@,
                BaseCommands::Destroy { config } => config@,
            },
    {
        match self {
            BaseCommands::Build { config } => config.as_str(),
            BaseCommands::Destroy { config } => config.as_str(),
        }
    }
}

} // verus!
