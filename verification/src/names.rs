//! The identifiers by which nodes of one network recognise each other. All
//! of them derive from the network's namespace and nothing else.

use vstd::prelude::*;
use vstd::string::*;

verus! {

/// Namespace of the production network.
pub const MAINNET: &'static str = "splash";

/// Namespace of the test network.
pub const TESTNET: &'static str = "splash-testnet";

/// Name of the gossip topic: `/{namespace}/messages/1`.
pub open spec fn topic_name(namespace: Seq<char>) -> Seq<char> {
    "/"@ + namespace + "/messages/1"@
}

/// Name of the DHT protocol: `/{namespace}/kad/1`.
pub open spec fn kad_protocol_name(namespace: Seq<char>) -> Seq<char> {
    "/"@ + namespace + "/kad/1"@
}

/// Name of the identify protocol: `/{namespace}/id/1`.
pub open spec fn identify_protocol_name(namespace: Seq<char>) -> Seq<char> {
    "/"@ + namespace + "/id/1"@
}

/// The agent string that a node of the given build version announces:
/// `splash/{version}`.
pub open spec fn agent_version_name(version: Seq<char>) -> Seq<char> {
    "splash/"@ + version
}

pub fn topic(namespace: &str) -> (name: String)
    ensures
        name@ == topic_name(namespace@),
{
    let mut name = String::from_str("/");
    name.append(namespace);
    name.append("/messages/1");
    name
}

pub fn kad_protocol(namespace: &str) -> (name: String)
    ensures
        name@ == kad_protocol_name(namespace@),
{
    let mut name = String::from_str("/");
    name.append(namespace);
    name.append("/kad/1");
    name
}

pub fn identify_protocol(namespace: &str) -> (name: String)
    ensures
        name@ == identify_protocol_name(namespace@),
{
    let mut name = String::from_str("/");
    name.append(namespace);
    name.append("/id/1");
    name
}

pub fn agent_version(version: &str) -> (name: String)
    ensures
        name@ == agent_version_name(version@),
{
    let mut name = String::from_str("splash/");
    name.append(version);
    name
}

/// On the test network the topic and the DHT protocol are exactly
/// `/splash-testnet/messages/1` and `/splash-testnet/kad/1`, and the identify
/// protocol is `/splash-testnet/id/1`.
pub proof fn lemma_testnet_identifiers()
    ensures
        topic_name(TESTNET@) == "/splash-testnet/messages/1"@,
        kad_protocol_name(TESTNET@) == "/splash-testnet/kad/1"@,
        identify_protocol_name(TESTNET@) == "/splash-testnet/id/1"@,
{
    reveal_strlit("/");
    reveal_strlit("splash-testnet");
    reveal_strlit("/messages/1");
    reveal_strlit("/kad/1");
    reveal_strlit("/id/1");
    reveal_strlit("/splash-testnet/messages/1");
    reveal_strlit("/splash-testnet/kad/1");
    reveal_strlit("/splash-testnet/id/1");
    assert(topic_name(TESTNET@) =~= "/splash-testnet/messages/1"@);
    assert(kad_protocol_name(TESTNET@) =~= "/splash-testnet/kad/1"@);
    assert(identify_protocol_name(TESTNET@) =~= "/splash-testnet/id/1"@);
}

/// On the production network they are `/splash/messages/1`, `/splash/kad/1`
/// and `/splash/id/1`.
pub proof fn lemma_mainnet_identifiers()
    ensures
        topic_name(MAINNET@) == "/splash/messages/1"@,
        kad_protocol_name(MAINNET@) == "/splash/kad/1"@,
        identify_protocol_name(MAINNET@) == "/splash/id/1"@,
{
    reveal_strlit("/");
    reveal_strlit("splash");
    reveal_strlit("/messages/1");
    reveal_strlit("/kad/1");
    reveal_strlit("/id/1");
    reveal_strlit("/splash/messages/1");
    reveal_strlit("/splash/kad/1");
    reveal_strlit("/splash/id/1");
    assert(topic_name(MAINNET@) =~= "/splash/messages/1"@);
    assert(kad_protocol_name(MAINNET@) =~= "/splash/kad/1"@);
    assert(identify_protocol_name(MAINNET@) =~= "/splash/id/1"@);
}

} // verus!
