//! What is kept of the messages that describe endpoints.

use super::api::{Ip, TcpAddress, TlsIdentity, WeightedAddr};
use super::authority;
use super::labels::{self, merge_labels, Labels};
use super::pb::{to_addr_meta, to_authority, to_id, to_sock_addr, Metadata};
use crate::index_map::entries;
use crate::net::{self, Addrs, SocketAddr};
use crate::text;
use vstd::prelude::*;

verus! {

/// Whether `addr` is the address in a message: the IP address of the same family, and the low
/// bits of the port.
pub open spec fn is_at(addr: SocketAddr, pb: TcpAddress) -> bool {
    &&& match pb.ip {
        Some(Ip::Ipv4(ip)) => !addr.0 && addr.1 == ip,
        Some(Ip::Ipv6 { first, last }) => addr.0 && addr.1 == first * 0x1_0000_0000_0000_0000
            + last,
        None => false,
    }
    &&& addr.2 == pb.port as int % 0x1_0000
    &&& addr.3 == 0
    &&& addr.4 == 0
}

/// A message with an IP address has that address, and one without has none.
pub proof fn law_addresses_are_kept(pb: TcpAddress, addr: Option<SocketAddr>)
    requires
        call_ensures(to_sock_addr, (&pb,), addr),
    ensures
        addr is Some <==> pb.ip is Some,
        addr matches Some(addr) ==> is_at(addr, pb),
{
    if let Some(Ip::Ipv6 { first, last }) = pb.ip {
        assert(0 <= first * 0x1_0000_0000_0000_0000 + last
            <= 0xffff_ffff_ffff_ffff_ffff_ffff_ffff_ffff);
    }
}

/// An authority keeps its text.
pub proof fn law_authorities_are_kept(text: String, parsed: Option<String>)
    requires
        call_ensures(to_authority, (&text,), parsed),
    ensures
        parsed is Some <==> authority::is_authority(text@),
        parsed matches Some(parsed) ==> parsed@ == text@,
{
}

/// An endpoint is identified by the name in the message, if it has one that can be parsed.
pub proof fn law_identities_are_kept(
    pb: TlsIdentity,
    parsed: Option<String>,
    identity: Option<String>,
)
    requires
        call_ensures(to_id, (&pb, parsed), identity),
    ensures
        identity is Some <==> pb.dns_like_identity is Some && parsed is Some,
        identity matches Some(name) ==> parsed == Some(name),
{
}

/// Whether `pair` is the last one of its name in `list`.
pub open spec fn counts(list: Seq<(String, String)>, pair: (Seq<char>, Seq<char>)) -> bool {
    exists|j: int|
        0 <= j < list.len() && (#[trigger] list[j]).0@ == pair.0 && list[j].1@ == pair.1 && forall|
            k: int,
        |
            j < k < list.len() ==> (#[trigger] list[k]).0@ != pair.0
}

/// Whether a label with the name `name` is in `list`.
pub open spec fn is_named(list: Seq<(String, String)>, name: Seq<char>) -> bool {
    exists|j: int| 0 <= j < list.len() && (#[trigger] list[j]).0@ == name
}

/// Whether `a` and `b` are the same up to `i`, where `a` ends or has the smaller character.
pub open spec fn differ_at(a: Seq<char>, b: Seq<char>, i: int) -> bool {
    &&& 0 <= i <= a.len()
    &&& i < b.len()
    &&& forall|k: int| 0 <= k < i ==> #[trigger] a[k] == b[k]
    &&& i < a.len() ==> a[i] < b[i]
}

/// Whether `a` comes before `b` in a dictionary.
pub open spec fn is_before(a: Seq<char>, b: Seq<char>) -> bool {
    exists|i: int| #[trigger] differ_at(a, b, i)
}

proof fn lemma_is_before(a: Seq<char>, b: Seq<char>)
    requires
        text::precedes(a, b),
    ensures
        is_before(a, b),
    decreases a.len(),
{
    if a.len() > 0 && a[0] == b[0] {
        let (c, d) = (a.drop_first(), b.drop_first());
        lemma_is_before(c, d);
        let i = choose|i: int| #[trigger] differ_at(c, d, i);
        assert forall|k: int| 0 <= k < i + 1 implies #[trigger] a[k] == b[k] by {
            if k > 0 {
                assert(c[k - 1] == d[k - 1]);
            }
        }
        assert(i < c.len() ==> c[i] == a[i + 1]);
        assert(d[i] == b[i + 1]);
        assert(differ_at(a, b, i + 1));
    } else {
        assert(differ_at(a, b, 0));
    }
}

/// A label that a list makes is the last one of its name in it.
proof fn lemma_label_map(list: Seq<(String, String)>, name: Seq<char>)
    ensures
        ({
            let map = labels::label_map(text::pair_views(list));
            &&& map.dom().contains(name) <==> is_named(list, name)
            &&& map.dom().contains(name) ==> counts(list, (name, map[name]))
        }),
    decreases list.len(),
{
    let pairs = text::pair_views(list);
    if list.len() > 0 {
        let rest = list.drop_last();
        assert(text::pair_views(rest) =~= pairs.drop_last());
        lemma_label_map(rest, name);
        let last = list.len() - 1;
        assert(pairs.last() == (list[last].0@, list[last].1@));
        let map = labels::label_map(pairs);
        if list[last].0@ == name {
            assert(map[name] == list[last].1@);
            assert(counts(list, (name, map[name])));
        } else if is_named(rest, name) {
            let value = labels::label_map(text::pair_views(rest))[name];
            assert(map[name] == value);
            let j = choose|j: int|
                0 <= j < rest.len() && (#[trigger] rest[j]).0@ == name && rest[j].1@ == value
                    && forall|k: int| j < k < rest.len() ==> (#[trigger] rest[k]).0@ != name;
            assert(list[j] == rest[j]);
            assert forall|k: int| j < k < list.len() implies (#[trigger] list[k]).0@ != name by {
                if k < last {
                    assert(rest[k] == list[k]);
                }
            }
            assert(counts(list, (name, value)));
            assert(is_named(list, name));
        } else {
            if is_named(list, name) {
                let j = choose|j: int| 0 <= j < list.len() && (#[trigger] list[j]).0@ == name;
                assert(rest[j] == list[j]);
            }
        }
    }
}

/// What makes the labels of an endpoint.
pub open spec fn are_merged(
    merged: Seq<(Seq<char>, Seq<char>)>,
    set: Seq<(String, String)>,
    own: Seq<(String, String)>,
) -> bool {
    &&& forall|i: int, j: int|
        0 <= i < j < merged.len() ==> is_before(
            (#[trigger] merged[i]).0,
            (#[trigger] merged[j]).0,
        )
    &&& forall|i: int|
        0 <= i < merged.len() ==> {
            ||| counts(own, #[trigger] merged[i])
            ||| !is_named(own, merged[i].0) && counts(set, merged[i])
        }
    &&& forall|name: Seq<char>|
        (is_named(set, name) || is_named(own, name)) ==> #[trigger] entries::has_key(merged, name)
}

proof fn lemma_merged(
    merged: Seq<(Seq<char>, Seq<char>)>,
    set: Seq<(String, String)>,
    own: Seq<(String, String)>,
)
    requires
        labels::merged(merged, text::pair_views(set), text::pair_views(own)),
    ensures
        are_merged(merged, set, own),
{
    let both = set + own;
    assert(text::pair_views(both) =~= text::pair_views(set) + text::pair_views(own));
    let map = labels::label_map(text::pair_views(both));
    labels::lemma_ascending_distinct(merged);
    assert forall|i: int, j: int| 0 <= i < j < merged.len() implies is_before(
        (#[trigger] merged[i]).0,
        (#[trigger] merged[j]).0,
    ) by {
        lemma_is_before(merged[i].0, merged[j].0);
    }
    assert forall|i: int| 0 <= i < merged.len() implies {
        ||| counts(own, #[trigger] merged[i])
        ||| !is_named(own, merged[i].0) && counts(set, merged[i])
    } by {
        let (name, value) = merged[i];
        entries::lemma_position(merged, i);
        assert(entries::as_map(merged).dom().contains(name));
        assert(map[name] == value);
        lemma_label_map(both, name);
        let j = choose|j: int|
            0 <= j < both.len() && (#[trigger] both[j]).0@ == name && both[j].1@ == value
                && forall|k: int| j < k < both.len() ==> (#[trigger] both[k]).0@ != name;
        if j >= set.len() {
            assert(own[j - set.len()] == both[j]);
            assert forall|k: int| j - set.len() < k < own.len() implies (#[trigger] own[k]).0@
                != name by {
                assert(both[k + set.len()] == own[k]);
            }
            assert(counts(own, merged[i]));
        } else {
            assert(set[j] == both[j]);
            assert forall|k: int| j < k < set.len() implies (#[trigger] set[k]).0@ != name by {
                assert(both[k] == set[k]);
            }
            assert(counts(set, merged[i]));
            if is_named(own, name) {
                let k = choose|k: int| 0 <= k < own.len() && (#[trigger] own[k]).0@ == name;
                assert(both[k + set.len()] == own[k]);
            }
        }
    }
    assert forall|name: Seq<char>|
        (is_named(set, name) || is_named(own, name)) implies #[trigger] entries::has_key(
        merged,
        name,
    ) by {
        if is_named(set, name) {
            let j = choose|j: int| 0 <= j < set.len() && (#[trigger] set[j]).0@ == name;
            assert(both[j] == set[j]);
        } else {
            let j = choose|j: int| 0 <= j < own.len() && (#[trigger] own[j]).0@ == name;
            assert(both[j + set.len()] == own[j]);
        }
        assert(is_named(both, name));
        lemma_label_map(both, name);
        assert(entries::as_map(merged).dom().contains(name));
    }
}

/// The labels of an endpoint are in the order of their names. Each of its own counts, and each
/// of all endpoints unless the endpoint has one of that name.
pub proof fn law_own_labels_count(
    set: Vec<(String, String)>,
    own: Vec<(String, String)>,
    merged: Labels,
)
    requires
        call_ensures(merge_labels, (&set, &own), merged),
    ensures
        are_merged(labels::label_entries(merged), set@, own@),
{
    lemma_merged(labels::label_entries(merged), set@, own@);
}

/// An endpoint is known exactly if the message has its address, and what the message says of
/// it is kept.
pub proof fn law_endpoints_are_kept(
    pb: WeightedAddr,
    set: Vec<(String, String)>,
    parsed: Option<String>,
    endpoint: Option<(SocketAddr, Metadata)>,
)
    requires
        call_ensures(to_addr_meta, (pb, &set, parsed), endpoint),
    ensures
        endpoint is Some <==> (pb.addr matches Some(tcp) && tcp.ip is Some),
        endpoint matches Some((addr, meta)) ==> {
            &&& is_at(addr, pb.addr->0)
            &&& are_merged(labels::label_entries(meta.labels), set@, pb.metric_labels@)
            &&& meta.weight == pb.weight
            &&& meta.protocol_hint is Http2 <==> (pb.protocol_hint matches Some(hint) && hint.h2)
            &&& meta.identity is Some <==> parsed is Some && (pb.tls_identity matches Some(tls)
                && tls.dns_like_identity is Some)
            &&& meta.identity is Some ==> meta.identity == parsed
            &&& meta.authority_override is Some <==> (pb.authority_override matches Some(text)
                && authority::is_authority(text@))
            &&& meta.authority_override matches Some(text) ==> text@ == pb.authority_override->0@
        },
{
    if let Some((addr, meta)) = endpoint {
        lemma_merged(labels::label_entries(meta.labels), set@, pb.metric_labels@);
        if let Some(Ip::Ipv6 { first, last }) = pb.addr->0.ip {
            assert(0 <= first * 0x1_0000_0000_0000_0000 + last
                <= 0xffff_ffff_ffff_ffff_ffff_ffff_ffff_ffff);
        }
    }
}

/// An IPv4 address has its bytes in order, the first one in front. Addresses are the same if
/// nothing in them differs.
pub proof fn law_plain_addresses(
    bytes: (u8, u8, u8, u8),
    number: u16,
    addr: SocketAddr,
    port: u16,
    other: SocketAddr,
    same: bool,
    addrs: Addrs,
    target: SocketAddr,
)
    requires
        call_ensures(net::v4, (bytes.0, bytes.1, bytes.2, bytes.3, number), addr),
        call_ensures(net::port, (&addr,), port),
        call_ensures(net::same, (&addr, &other), same),
        call_ensures(Addrs::target_addr, (&addrs,), target),
    ensures
        !addr.0,
        addr.1 == ((bytes.0 * 256 + bytes.1) * 256 + bytes.2) * 256 + bytes.3,
        addr.2 == number,
        addr.3 == 0,
        addr.4 == 0,
        port == number,
        same <==> addr == other,
        target == addrs.target,
{
}

} // verus!
