use libp2p::{Multiaddr, PeerId};
use splash::address::{
    any_non_global, is_non_global, last_peer, retain_global, terminal_peer, AddressPart,
};

fn addr(text: &str) -> Multiaddr {
    text.parse().unwrap()
}

#[test]
fn ip4_loopback_is_non_global() {
    assert!(is_non_global(&addr("/ip4/127.0.0.1/tcp/4001")));
    assert!(is_non_global(&addr("/ip4/127.255.255.254/tcp/1")));
    assert!(is_non_global(&addr("/ip4/127.0.0.0")));
}

#[test]
fn ip4_private_ranges_are_non_global() {
    assert!(is_non_global(&addr("/ip4/10.0.0.1/tcp/4001")));
    assert!(is_non_global(&addr("/ip4/10.255.255.255/tcp/4001")));
    assert!(is_non_global(&addr("/ip4/172.16.0.1/tcp/4001")));
    assert!(is_non_global(&addr("/ip4/172.31.255.255/tcp/4001")));
    assert!(is_non_global(&addr("/ip4/192.168.0.1/tcp/4001")));
    assert!(is_non_global(&addr("/ip4/192.168.255.255/udp/9")));
}

#[test]
fn ip4_next_to_the_private_ranges_is_global() {
    assert!(!is_non_global(&addr("/ip4/9.255.255.255/tcp/4001")));
    assert!(!is_non_global(&addr("/ip4/11.0.0.0/tcp/4001")));
    assert!(!is_non_global(&addr("/ip4/172.15.255.255/tcp/4001")));
    assert!(!is_non_global(&addr("/ip4/172.32.0.0/tcp/4001")));
    assert!(!is_non_global(&addr("/ip4/192.167.255.255/tcp/4001")));
    assert!(!is_non_global(&addr("/ip4/192.169.0.0/tcp/4001")));
    assert!(!is_non_global(&addr("/ip4/126.255.255.255/tcp/4001")));
    assert!(!is_non_global(&addr("/ip4/128.0.0.0/tcp/4001")));
}

#[test]
fn second_octet_alone_does_not_make_an_address_private() {
    assert!(!is_non_global(&addr("/ip4/8.168.0.1/tcp/4001")));
    assert!(!is_non_global(&addr("/ip4/171.16.0.1/tcp/4001")));
    assert!(!is_non_global(&addr("/ip4/1.127.10.192/tcp/4001")));
}

#[test]
fn public_ip4_is_global() {
    assert!(!is_non_global(&addr("/ip4/8.8.8.8/tcp/4001")));
    assert!(!is_non_global(&addr("/ip4/203.0.113.7/udp/4001/quic-v1")));
}

#[test]
fn unspecified_ip4_is_global_for_the_filter() {
    assert!(!is_non_global(&addr("/ip4/0.0.0.0/tcp/0")));
}

#[test]
fn ip6_loopback_is_non_global() {
    assert!(is_non_global(&addr("/ip6/::1/tcp/4001")));
}

#[test]
fn other_ip6_is_global_for_the_filter() {
    assert!(!is_non_global(&addr("/ip6/2001:db8::1/tcp/4001")));
    assert!(!is_non_global(&addr("/ip6/::/tcp/0")));
    assert!(!is_non_global(&addr("/ip6/::2/tcp/4001")));
    assert!(!is_non_global(&addr("/ip6/1::1/tcp/4001")));
    // Private IPv6 ranges are not filtered.
    assert!(!is_non_global(&addr("/ip6/fc00::1/tcp/4001")));
    assert!(!is_non_global(&addr("/ip6/fe80::1/tcp/4001")));
}

#[test]
fn address_without_ip_is_global() {
    assert!(!is_non_global(&addr("/dns4/example.com/tcp/443")));
    assert!(!is_non_global(&Multiaddr::empty()));
}

#[test]
fn non_global_component_anywhere_counts() {
    let peer = PeerId::random();
    assert!(is_non_global(&addr(&format!(
        "/ip4/192.168.1.10/tcp/4001/p2p/{}",
        peer
    ))));
    assert!(is_non_global(&addr("/dns4/example.com/tcp/443/ip4/10.1.2.3")));
    assert!(is_non_global(&addr("/ip4/8.8.8.8/tcp/1/ip6/::1")));
}

#[test]
fn terminal_peer_of_address_ending_in_peer() {
    let peer = PeerId::random();
    let address = addr(&format!("/ip4/8.8.8.8/tcp/4001/p2p/{}", peer));
    assert_eq!(terminal_peer(&address), Some(peer));
}

#[test]
fn terminal_peer_of_address_without_peer() {
    assert_eq!(terminal_peer(&addr("/ip4/8.8.8.8/tcp/4001")), None);
    assert_eq!(terminal_peer(&Multiaddr::empty()), None);
}

#[test]
fn terminal_peer_must_be_the_last_component() {
    let peer = PeerId::random();
    let address = addr(&format!("/ip4/8.8.8.8/tcp/4001/p2p/{}/p2p-circuit", peer));
    assert_eq!(terminal_peer(&address), None);
}

#[test]
fn terminal_peer_is_the_last_of_several() {
    let relay = PeerId::random();
    let target = PeerId::random();
    let address = addr(&format!(
        "/ip4/8.8.8.8/tcp/4001/p2p/{}/p2p-circuit/p2p/{}",
        relay, target
    ));
    assert_eq!(terminal_peer(&address), Some(target));
}

#[test]
fn retain_global_keeps_public_addresses_in_order() {
    let reported = vec![
        addr("/ip4/8.8.8.8/tcp/1"),
        addr("/ip4/127.0.0.1/tcp/2"),
        addr("/ip6/2001:db8::1/tcp/3"),
        addr("/ip4/10.0.0.1/tcp/4"),
        addr("/ip6/::1/tcp/5"),
        addr("/ip4/1.1.1.1/tcp/6"),
        addr("/ip4/192.168.1.1/tcp/7"),
        addr("/ip4/172.20.0.1/tcp/8"),
    ];
    let kept = retain_global(&reported);
    assert_eq!(
        kept,
        vec![
            addr("/ip4/8.8.8.8/tcp/1"),
            addr("/ip6/2001:db8::1/tcp/3"),
            addr("/ip4/1.1.1.1/tcp/6"),
        ]
    );
}

#[test]
fn retain_global_of_nothing_is_nothing() {
    assert_eq!(retain_global(&Vec::new()), Vec::<Multiaddr>::new());
}

#[test]
fn retain_global_keeps_duplicates() {
    let reported = vec![addr("/ip4/8.8.8.8/tcp/1"), addr("/ip4/8.8.8.8/tcp/1")];
    assert_eq!(retain_global(&reported), reported);
}

#[test]
fn retain_global_may_keep_nothing() {
    let reported = vec![addr("/ip4/10.0.0.1/tcp/1"), addr("/ip6/::1/tcp/1")];
    assert!(retain_global(&reported).is_empty());
}

#[test]
fn parts_judge_themselves() {
    assert!(AddressPart::Ip4([127, 0, 0, 1]).non_global());
    assert!(AddressPart::Ip4([10, 1, 2, 3]).non_global());
    assert!(AddressPart::Ip4([172, 16, 0, 0]).non_global());
    assert!(AddressPart::Ip4([172, 31, 0, 0]).non_global());
    assert!(!AddressPart::Ip4([172, 32, 0, 0]).non_global());
    assert!(AddressPart::Ip4([192, 168, 0, 0]).non_global());
    assert!(!AddressPart::Ip4([192, 0, 2, 1]).non_global());
    assert!(AddressPart::Ip6(1).non_global());
    assert!(!AddressPart::Ip6(0).non_global());
    assert!(!AddressPart::Ip6(2).non_global());
    assert!(!AddressPart::Ip6(u128::MAX).non_global());
    assert!(!AddressPart::P2p(PeerId::random()).non_global());
    assert!(!AddressPart::Other.non_global());
}

#[test]
fn any_non_global_looks_at_every_part() {
    assert!(!any_non_global(&Vec::new()));
    assert!(!any_non_global(&vec![
        AddressPart::Ip4([8, 8, 8, 8]),
        AddressPart::Other
    ]));
    assert!(any_non_global(&vec![
        AddressPart::Other,
        AddressPart::Ip4([8, 8, 8, 8]),
        AddressPart::Ip6(1)
    ]));
    assert!(any_non_global(&vec![
        AddressPart::Ip4([192, 168, 7, 7]),
        AddressPart::Other
    ]));
}

#[test]
fn last_peer_is_the_final_part_only() {
    let peer = PeerId::random();
    let other = PeerId::random();
    assert_eq!(last_peer(&Vec::new()), None);
    assert_eq!(last_peer(&vec![AddressPart::P2p(peer)]), Some(peer));
    assert_eq!(
        last_peer(&vec![AddressPart::P2p(other), AddressPart::Other, AddressPart::P2p(peer)]),
        Some(peer)
    );
    assert_eq!(
        last_peer(&vec![AddressPart::P2p(peer), AddressPart::Other]),
        None
    );
    assert_eq!(last_peer(&vec![AddressPart::Ip4([1, 2, 3, 4])]), None);
}
