use splash::names::{agent_version, identify_protocol, kad_protocol, topic, MAINNET, TESTNET};

#[test]
fn namespaces() {
    assert_eq!(MAINNET, "splash");
    assert_eq!(TESTNET, "splash-testnet");
}

#[test]
fn testnet_identifiers() {
    assert_eq!(topic(TESTNET), "/splash-testnet/messages/1");
    assert_eq!(kad_protocol(TESTNET), "/splash-testnet/kad/1");
    assert_eq!(identify_protocol(TESTNET), "/splash-testnet/id/1");
}

#[test]
fn mainnet_identifiers() {
    assert_eq!(topic(MAINNET), "/splash/messages/1");
    assert_eq!(kad_protocol(MAINNET), "/splash/kad/1");
    assert_eq!(identify_protocol(MAINNET), "/splash/id/1");
}

#[test]
fn identifiers_of_any_namespace() {
    assert_eq!(topic("x"), "/x/messages/1");
    assert_eq!(kad_protocol(""), "//kad/1");
    assert_eq!(identify_protocol("a/b"), "/a/b/id/1");
}

#[test]
fn agent_version_embeds_the_build_version() {
    assert_eq!(agent_version("0.1.0"), "splash/0.1.0");
    assert_eq!(agent_version(""), "splash/");
}
