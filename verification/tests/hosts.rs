use farmer_config::config::Config;
use farmer_config::hosts::{
    asks_for_ssl_path, client_ssl_root, community_nodes, farming_port, is_community_node,
    names_community_host, names_trusted_host, rpc_host, rpc_port, CA_PRIVATE_CRT, CLIENT_TIMEOUT,
    COMMUNITY_NODE, PRIVATE_CRT, PRIVATE_KEY,
};

fn config_with_rpc_host(host: &str) -> Config {
    let mut config = Config::default();
    config.fullnode_rpc_host = host.to_string();
    config
}

#[test]
fn every_community_node_is_recognised() {
    assert!(is_community_node(&config_with_rpc_host("chia-proxy.evergreenminer-prod.com")));
    assert!(is_community_node(&config_with_rpc_host("chia-proxy.galactechs.com")));
    assert!(is_community_node(&config_with_rpc_host("chia-proxy-testnet11.evergreenminer-prod.com")));
    assert!(is_community_node(&config_with_rpc_host("chia-proxy-testnet11.galactechs.com")));
}

#[test]
fn case_and_surrounding_whitespace_do_not_count() {
    assert!(is_community_node(&config_with_rpc_host("  Chia-Proxy.Galactechs.COM\t\n")));
    assert!(is_community_node(&config_with_rpc_host("\u{3000}CHIA-PROXY.EVERGREENMINER-PROD.COM\u{a0}")));
    assert!(names_community_host(" chia-proxy-testnet11.galactechs.com"));
}

#[test]
fn other_hosts_are_no_community_nodes() {
    assert!(!is_community_node(&config_with_rpc_host("localhost")));
    assert!(!is_community_node(&config_with_rpc_host("")));
    assert!(!is_community_node(&config_with_rpc_host("   ")));
    assert!(!is_community_node(&config_with_rpc_host("chia-proxy.galactechs.com.evil.example")));
    assert!(!is_community_node(&config_with_rpc_host("chia-proxy.galactechs.co")));
    assert!(!is_community_node(&config_with_rpc_host("chia-proxy .galactechs.com")));
    assert!(!is_community_node(&config_with_rpc_host("x chia-proxy.galactechs.com")));
    assert!(!names_community_host("chia-proxy.galactechs.com;"));
}

#[test]
fn only_ascii_letters_are_lowered() {
    // U+FF23 is a capital letter C, but no ASCII letter.
    assert!(!names_community_host("\u{ff23}hia-proxy.galactechs.com"));
    assert!(!names_community_host("chia-proxy.galactechs.c\u{d6}m"));
    assert!(names_community_host("CHIA-PROXY-TESTNET11.EVERGREENMINER-PROD.COM"));
}

#[test]
fn rpc_host_follows_the_farming_host_of_the_community_node() {
    assert_eq!(rpc_host(Some("node.example".to_string()), COMMUNITY_NODE), Some("node.example".to_string()));
    assert_eq!(rpc_host(Some("node.example".to_string()), "localhost"), Some("node.example".to_string()));
    assert_eq!(rpc_host(None, COMMUNITY_NODE), Some("chia-proxy.evergreenminer-prod.com".to_string()));
    assert_eq!(rpc_host(None, "localhost"), None);
    assert_eq!(rpc_host(None, "Chia-Proxy.evergreenminer-prod.com"), None);
    assert_eq!(rpc_host(None, "chia-proxy.galactechs.com"), None);
}

#[test]
fn farming_port_follows_the_farming_host() {
    assert_eq!(farming_port(Some(1234), COMMUNITY_NODE), Some(1234));
    assert_eq!(farming_port(None, COMMUNITY_NODE), Some(443));
    assert_eq!(farming_port(None, "localhost"), Some(8444));
    assert_eq!(farming_port(None, "node.example"), None);
    assert_eq!(farming_port(None, "LOCALHOST"), None);
}

#[test]
fn rpc_port_follows_the_rpc_host() {
    assert_eq!(rpc_port(Some(1234), "localhost"), Some(1234));
    assert_eq!(rpc_port(None, COMMUNITY_NODE), Some(443));
    assert_eq!(rpc_port(None, "localhost"), Some(8555));
    assert_eq!(rpc_port(None, "node.example"), None);
}

#[test]
fn only_the_community_node_needs_no_ssl_path() {
    assert!(!asks_for_ssl_path(COMMUNITY_NODE));
    assert!(asks_for_ssl_path("localhost"));
    assert!(asks_for_ssl_path("chia-proxy.galactechs.com"));
    assert!(asks_for_ssl_path(""));
}

#[test]
fn a_client_of_a_community_node_presents_no_certificates() {
    let mut config = config_with_rpc_host("chia-proxy.galactechs.com");
    config.ssl_root_path = Some("/home/farmer/ssl".to_string());
    assert_eq!(client_ssl_root(&config), None);
    config.fullnode_rpc_host = "localhost".to_string();
    assert_eq!(client_ssl_root(&config), Some("/home/farmer/ssl".to_string()));
    config.ssl_root_path = None;
    assert_eq!(client_ssl_root(&config), None);
}

#[test]
fn client_constants_are_the_documented_ones() {
    assert_eq!(CLIENT_TIMEOUT, 600);
    assert_eq!(PRIVATE_CRT, "farmer/private_farmer.crt");
    assert_eq!(PRIVATE_KEY, "farmer/private_farmer.key");
    assert_eq!(CA_PRIVATE_CRT, "ca/private_ca.crt");
}

#[test]
fn the_community_nodes_are_four() {
    assert_eq!(
        community_nodes(),
        vec![
            "chia-proxy.evergreenminer-prod.com".to_string(),
            "chia-proxy.galactechs.com".to_string(),
            "chia-proxy-testnet11.evergreenminer-prod.com".to_string(),
            "chia-proxy-testnet11.galactechs.com".to_string(),
        ]
    );
    assert!(community_nodes().contains(&COMMUNITY_NODE.to_string()));
}

#[test]
fn a_host_is_held_against_the_trusted_names_as_they_are() {
    let trusted = vec!["node.example".to_string(), "Other.Example".to_string(), "".to_string()];
    assert!(names_trusted_host("node.example", &trusted));
    assert!(names_trusted_host(" NODE.Example ", &trusted));
    // The host is lowered, the trusted name is not: no host spells `Other.Example`.
    assert!(!names_trusted_host("Other.Example", &trusted));
    assert!(!names_trusted_host("other.example", &trusted));
    assert!(names_trusted_host("", &trusted));
    assert!(names_trusted_host(" \t ", &trusted));
    assert!(!names_trusted_host("node.example", &Vec::new()));
    assert!(!names_trusted_host("", &Vec::new()));
}
