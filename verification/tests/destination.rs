use linkerd_middleware::destination::api::{
    Ip, ProtocolHint, TcpAddress, TlsIdentity, WeightedAddr,
};
use linkerd_middleware::destination::labels::merge_labels;
use linkerd_middleware::destination::pb::{to_addr_meta, to_authority, to_id, to_sock_addr, Hint};
use linkerd_middleware::net::v4;

fn pairs(list: Vec<(&str, &str)>) -> Vec<(String, String)> {
    list.into_iter()
        .map(|(k, v)| (k.to_owned(), v.to_owned()))
        .collect()
}

fn weighted(addr: Option<TcpAddress>) -> WeightedAddr {
    WeightedAddr {
        addr,
        weight: 10,
        metric_labels: pairs(vec![("pod", "p"), ("ns", "own")]),
        tls_identity: Some(TlsIdentity {
            dns_like_identity: Some("id".to_owned()),
        }),
        protocol_hint: Some(ProtocolHint { h2: true }),
        authority_override: Some("example.com:80".to_owned()),
        connect_timeout: None,
    }
}

fn tcp() -> TcpAddress {
    TcpAddress {
        ip: Some(Ip::Ipv4(0x0a00_0001)),
        port: 80,
    }
}

#[test]
fn socket_addresses() {
    assert_eq!(to_sock_addr(&tcp()), Some(v4(10, 0, 0, 1, 80)));
    assert_eq!(to_sock_addr(&TcpAddress { ip: None, port: 80 }), None);
    // Only the low bits of the port count.
    assert_eq!(
        to_sock_addr(&TcpAddress {
            ip: Some(Ip::Ipv4(0x7f00_0001)),
            port: 0x1_0050,
        }),
        Some(v4(127, 0, 0, 1, 0x50))
    );
    assert_eq!(
        to_sock_addr(&TcpAddress {
            ip: Some(Ip::Ipv6 {
                first: 0x2001_0db8_0000_0000,
                last: 1,
            }),
            port: 443,
        }),
        Some((true, 0x2001_0db8_0000_0000_0000_0000_0000_0001, 443, 0, 0))
    );
}

#[test]
fn authorities() {
    assert_eq!(
        to_authority(&"example.com:80".to_owned()),
        Some("example.com:80".to_owned())
    );
    assert_eq!(to_authority(&"".to_owned()), None);
    assert_eq!(to_authority(&"a/b".to_owned()), None);
    assert_eq!(to_authority(&"not an authority".to_owned()), None);
}

#[test]
fn identities() {
    let named = TlsIdentity {
        dns_like_identity: Some("id".to_owned()),
    };
    let unnamed = TlsIdentity {
        dns_like_identity: None,
    };
    assert_eq!(
        to_id(&named, Some("parsed".to_owned())),
        Some("parsed".to_owned())
    );
    assert_eq!(to_id(&named, None), None);
    assert_eq!(to_id(&unnamed, Some("parsed".to_owned())), None);
}

#[test]
fn labels_are_sorted_and_own_labels_win() {
    let labels = merge_labels(
        &pairs(vec![("ns", "set"), ("zone", "z"), ("app", "a")]),
        &pairs(vec![("pod", "p"), ("ns", "own"), ("Pod", "P"), ("po", "q")]),
    );
    let list: Vec<(&str, &str)> = labels
        .iter()
        .map(|(k, v)| (k.as_str(), v.as_str()))
        .collect();
    assert_eq!(
        list,
        vec![
            ("Pod", "P"),
            ("app", "a"),
            ("ns", "own"),
            ("po", "q"),
            ("pod", "p"),
            ("zone", "z")
        ]
    );
    assert!(merge_labels(&vec![], &vec![]).is_empty());
}

#[test]
fn text_order_is_that_of_code_points() {
    let labels = merge_labels(
        &pairs(vec![("\u{10000}", "3"), ("\u{ffff}", "2"), ("z", "1"), ("", "0")]),
        &vec![],
    );
    let list: Vec<&str> = labels.values().map(|v| v.as_str()).collect();
    assert_eq!(list, vec!["0", "1", "2", "3"]);
}

#[test]
fn endpoint_metadata() {
    let (addr, meta) = to_addr_meta(
        weighted(Some(tcp())),
        &pairs(vec![("ns", "set"), ("zone", "z")]),
        Some("parsed".to_owned()),
    )
    .expect("must have an address");
    assert_eq!(addr, v4(10, 0, 0, 1, 80));
    assert_eq!(meta.weight, 10);
    assert_eq!(meta.protocol_hint, Hint::Http2);
    assert_eq!(meta.identity, Some("parsed".to_owned()));
    assert_eq!(meta.authority_override, Some("example.com:80".to_owned()));
    assert_eq!(meta.labels.len(), 3);
    assert_eq!(meta.labels["ns"], "own");
    assert!(to_addr_meta(weighted(None), &vec![], None).is_none());
    let no_ip = TcpAddress { ip: None, port: 1 };
    assert!(to_addr_meta(weighted(Some(no_ip)), &vec![], None).is_none());
    let mut plain = weighted(Some(tcp()));
    plain.protocol_hint = None;
    plain.authority_override = Some("/".to_owned());
    plain.tls_identity = None;
    let (_, meta) =
        to_addr_meta(plain, &vec![], Some("parsed".to_owned())).expect("must have an address");
    assert_eq!(meta.protocol_hint, Hint::Unknown);
    assert_eq!(meta.authority_override, None);
    assert_eq!(meta.identity, None);
}
