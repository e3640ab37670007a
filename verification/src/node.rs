//! The embedded node, as far as the wallet has to know it.

use vstd::prelude::*;
use vstd::string::*;
use crate::chain::ChainTypes;

verus! {

/// What is known of the build: the facts that the two information lines
/// name.
#[derive(Debug, Clone, PartialEq, Eq)]
pub struct BuildInfo {
    pub pkg_version: String,
    /// Version by the source repository, where the build knows it.
    pub git_version: Option<String>,
    pub target: String,
    pub rustc_version: String,
    pub profile: String,
    pub features_str: String,
}

/// How loudly a line is logged.
#[derive(Debug, Clone, Copy, PartialEq, Eq, Structural)]
pub enum LogLevel {
    Debug,
    Info,
    Warn,
}

/// A line for the log.
#[derive(Debug, Clone, PartialEq, Eq)]
pub struct LogLine {
    pub level: LogLevel,
    pub text: String,
}

/// The part of the first line that names the repository version.
pub open spec fn spec_git_part(git_version: Option<String>) -> Seq<char> {
    match git_version {
        Some(version) => " (git "@ + version@ + ")"@,
        None => Seq::<char>::empty(),
    }
}

/// The first information line.
pub open spec fn spec_basic_info(info: BuildInfo) -> Seq<char> {
    "This is Grin version "@ + info.pkg_version@ + spec_git_part(info.git_version)
        + ", built for "@ + info.target@ + " by "@ + info.rustc_version@ + "."@
}

/// The second information line.
pub open spec fn spec_detailed_info(info: BuildInfo) -> Seq<char> {
    "Built with profile \""@ + info.profile@ + "\", features \""@ + info.features_str@ + "\"."@
}

/// The two lines that describe the build: version, target and compiler,
/// then profile and features.
pub fn info_strings(info: &BuildInfo) -> (lines: (String, String))
    ensures
        lines.0@ == spec_basic_info(*info),
        lines.1@ == spec_detailed_info(*info),
{
    let mut basic = String::from_str("This is Grin version ");
    basic.append(info.pkg_version.as_str());
    match &info.git_version {
        Some(version) => {
            basic.append(" (git ");
            basic.append(version.as_str());
            basic.append(")");
            assert(basic@ == "This is Grin version "@ + info.pkg_version@ + spec_git_part(
                info.git_version,
            ));
        },
        None => {
            assert(basic@ == "This is Grin version "@ + info.pkg_version@ + spec_git_part(
                info.git_version,
            ));
        },
    }
    basic.append(", built for ");
    basic.append(info.target.as_str());
    basic.append(" by ");
    basic.append(info.rustc_version.as_str());
    basic.append(".");
    let mut detailed = String::from_str("Built with profile \"");
    detailed.append(info.profile.as_str());
    detailed.append("\", features \"");
    detailed.append(info.features_str.as_str());
    detailed.append("\".");
    (basic, detailed)
}

/// The lines that report the build to the log: the first as information,
/// the second for debugging.
pub fn log_build_info(info: &BuildInfo) -> (lines: (LogLine, LogLine))
    ensures
        lines.0.level == LogLevel::Info,
        lines.0.text@ == spec_basic_info(*info),
        lines.1.level == LogLevel::Debug,
        lines.1.text@ == spec_detailed_info(*info),
{
    let (basic_info, detailed_info) = info_strings(info);
    (
        LogLine { level: LogLevel::Info, text: basic_info },
        LogLine { level: LogLevel::Debug, text: detailed_info },
    )
}

/// The line that reports whether NRD kernels are enabled.
pub fn log_feature_flags(nrd_enabled: bool) -> (line: LogLine)
    ensures
        line.level == LogLevel::Info,
        line.text@ == "Feature: NRD kernel enabled: "@ + (if nrd_enabled {
            "true"@
        } else {
            "false"@
        }),
{
    let mut text = String::from_str("Feature: NRD kernel enabled: ");
    if nrd_enabled {
        text.append("true");
    } else {
        text.append("false");
    }
    LogLine { level: LogLevel::Info, text }
}

/// What the coordinator reads of a node's configuration.
#[derive(Debug, Clone, PartialEq, Eq)]
pub struct NodeConfig {
    /// The file the configuration was read from, where there was one.
    pub config_file_path: Option<String>,
    /// The chain the server is set up for.
    pub chain_type: ChainTypes,
    /// Least fee per weight unit that the pool accepts.
    pub accept_fee_base: u64,
    /// Seconds that a block's time stamp may lie ahead.
    pub future_time_limit: u64,
}

/// The process-wide settings that a node is started with.
#[derive(Debug, Clone, Copy, PartialEq, Eq, Structural)]
pub struct NodeGlobals {
    pub chain_type: ChainTypes,
    pub nrd_enabled: bool,
    pub accept_fee_base: u64,
    pub future_time_limit: u64,
}

/// The embedded node.
#[derive(Debug, Clone, PartialEq, Eq)]
pub struct NodeInterface {
    pub chain_type: ChainTypes,
    pub config: Option<NodeConfig>,
}

impl NodeInterface {
    /// A node for the chain, not yet configured.
    pub fn new(chain_type: ChainTypes) -> (node: NodeInterface)
        ensures
            node.chain_type == chain_type,
            node.config is None,
    {
        NodeInterface { chain_type, config: None }
    }

    /// Puts the node on the main network and makes that the calling
    /// thread's chain.
    pub fn set_chain_type(&mut self)
        ensures
            final(self).chain_type == ChainTypes::Mainnet,
            final(self).config == old(self).config,
    {
        self.chain_type = ChainTypes::Mainnet;
        self.chain_type.make_local();
    }

    /// The settings a server is started with: those of its configuration,
    /// with NRD kernels enabled everywhere but on the main network.
    pub fn globals(config: &NodeConfig) -> (globals: NodeGlobals)
        ensures
            globals == (NodeGlobals {
                chain_type: config.chain_type,
                nrd_enabled: !(config.chain_type is Mainnet),
                accept_fee_base: config.accept_fee_base,
                future_time_limit: config.future_time_limit,
            }),
    {
        NodeGlobals {
            chain_type: config.chain_type,
            nrd_enabled: !config.chain_type.is_mainnet(),
            accept_fee_base: config.accept_fee_base,
            future_time_limit: config.future_time_limit,
        }
    }

    /// The line that says where the configuration came from.
    pub fn config_notice(config: &NodeConfig) -> (line: LogLine)
        ensures
            line.level == LogLevel::Info,
            line.text@ == match config.config_file_path {
                Some(path) => "Using configuration file at "@ + path@,
                None => "Node configuration file not found, using default"@,
            },
    {
        let text = match &config.config_file_path {
            Some(path) => {
                let mut text = String::from_str("Using configuration file at ");
                text.append(path.as_str());
                text
            },
            None => String::from_str("Node configuration file not found, using default"),
        };
        LogLine { level: LogLevel::Info, text }
    }
}

} // verus!
