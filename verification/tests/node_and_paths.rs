use grin_gui::chain::ChainTypes;
use grin_gui::node::{
    info_strings, log_build_info, log_feature_flags, BuildInfo, LogLevel, NodeConfig, NodeGlobals,
    NodeInterface,
};
use grin_gui::wallet::{
    create_grin_wallet_path, get_grin_wallet_default_path, NodeClient, WalletInterface,
    API_SECRET_FILE_NAME, GRIN_WALLET_DIR, OWNER_API_SECRET_FILE_NAME, WALLET_CONFIG_FILE_NAME,
};

fn build(git: Option<&str>) -> BuildInfo {
    BuildInfo {
        pkg_version: "5.2.0".to_string(),
        git_version: git.map(|g| g.to_string()),
        target: "x86_64-unknown-linux-gnu".to_string(),
        rustc_version: "rustc 1.70.0".to_string(),
        profile: "release".to_string(),
        features_str: "wgpu".to_string(),
    }
}

#[test]
fn info_strings_with_a_git_version() {
    let (basic, detailed) = info_strings(&build(Some("v5.2.0-3-gabc")));
    assert_eq!(
        basic,
        "This is Grin version 5.2.0 (git v5.2.0-3-gabc), built for x86_64-unknown-linux-gnu by rustc 1.70.0."
    );
    assert_eq!(detailed, "Built with profile \"release\", features \"wgpu\".");
}

#[test]
fn info_strings_without_a_git_version() {
    let (basic, detailed) = info_strings(&build(None));
    assert_eq!(
        basic,
        "This is Grin version 5.2.0, built for x86_64-unknown-linux-gnu by rustc 1.70.0."
    );
    assert_eq!(detailed, "Built with profile \"release\", features \"wgpu\".");
}

#[test]
fn build_info_is_logged_at_two_levels() {
    let (first, second) = log_build_info(&build(None));
    let (basic, detailed) = info_strings(&build(None));
    assert_eq!(first.level, LogLevel::Info);
    assert_eq!(first.text, basic);
    assert_eq!(second.level, LogLevel::Debug);
    assert_eq!(second.text, detailed);
}

#[test]
fn feature_flags_line() {
    assert_eq!(log_feature_flags(true).text, "Feature: NRD kernel enabled: true");
    assert_eq!(log_feature_flags(false).text, "Feature: NRD kernel enabled: false");
    assert_eq!(log_feature_flags(false).level, LogLevel::Info);
}

#[test]
fn a_node_starts_unconfigured_and_moves_to_mainnet() {
    let mut node = NodeInterface::new(ChainTypes::Testnet);
    assert_eq!(node.chain_type, ChainTypes::Testnet);
    assert_eq!(node.config, None);
    node.set_chain_type();
    assert_eq!(node.chain_type, ChainTypes::Mainnet);
    assert_eq!(node.config, None);
}

fn node_config(chain_type: ChainTypes, path: Option<&str>) -> NodeConfig {
    NodeConfig {
        config_file_path: path.map(|p| p.to_string()),
        chain_type,
        accept_fee_base: 500_000,
        future_time_limit: 300,
    }
}

#[test]
fn nrd_kernels_are_off_on_mainnet_only() {
    assert_eq!(
        NodeInterface::globals(&node_config(ChainTypes::Mainnet, None)),
        NodeGlobals {
            chain_type: ChainTypes::Mainnet,
            nrd_enabled: false,
            accept_fee_base: 500_000,
            future_time_limit: 300
        }
    );
    for chain in [ChainTypes::Testnet, ChainTypes::UserTesting, ChainTypes::AutomatedTesting] {
        let globals = NodeInterface::globals(&node_config(chain, None));
        assert!(globals.nrd_enabled);
        assert_eq!(globals.chain_type, chain);
    }
}

#[test]
fn the_notice_names_the_configuration_file() {
    let with = NodeInterface::config_notice(&node_config(ChainTypes::Mainnet, Some("/etc/grin.toml")));
    assert_eq!(with.text, "Using configuration file at /etc/grin.toml");
    assert_eq!(with.level, LogLevel::Info);
    let without = NodeInterface::config_notice(&node_config(ChainTypes::Mainnet, None));
    assert_eq!(without.text, "Node configuration file not found, using default");
}

#[test]
fn wallet_paths_by_chain() {
    assert_eq!(
        get_grin_wallet_default_path(&ChainTypes::Mainnet),
        vec![".grin", "main", "grin_wallet", "default"]
    );
    assert_eq!(
        get_grin_wallet_default_path(&ChainTypes::Testnet),
        vec![".grin", "test", "grin_wallet", "default"]
    );
    assert_eq!(
        create_grin_wallet_path(&ChainTypes::UserTesting, "savings"),
        vec![".grin", "user", "grin_wallet", "savings"]
    );
    assert_eq!(
        create_grin_wallet_path(&ChainTypes::AutomatedTesting, ""),
        vec![".grin", "auto", "grin_wallet", ""]
    );
}

#[test]
fn file_names() {
    assert_eq!(WALLET_CONFIG_FILE_NAME, "grin-wallet.toml");
    assert_eq!(GRIN_WALLET_DIR, "wallet_data");
    assert_eq!(API_SECRET_FILE_NAME, ".foreign_api_secret");
    assert_eq!(OWNER_API_SECRET_FILE_NAME, ".owner_api_secret");
}

#[test]
fn the_default_configuration_belongs_to_the_opened_chain() {
    let mut session = WalletInterface::new(NodeClient {
        node_url: "".to_string(),
        node_api_secret: None,
    });
    assert_eq!(session.default_config_path(), None);
    session.chain_type = Some(ChainTypes::Testnet);
    assert_eq!(
        session.default_config_path(),
        Some(vec![
            ".grin".to_string(),
            "test".to_string(),
            "grin_wallet".to_string(),
            "default".to_string()
        ])
    );
}
