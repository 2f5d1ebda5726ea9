//! What holds of every connection that is accepted.

use super::accept::{self, AcceptState, BoxedIo, HasConfig, Match, Step, TryTls};
use super::buf;
use super::detect::{self, Detecting};
use super::identity::Conditional;
use crate::net::Addrs;
use vstd::prelude::*;

verus! {

/// Whether `chain` are the states of a connection between the reads `reads`.
pub open spec fn read_chain<A, K, C>(chain: Seq<TryTls<A, K, C>>, reads: Seq<Seq<u8>>) -> bool {
    &&& chain.len() == reads.len() + 1
    &&& forall|i: int|
        0 <= i < reads.len() ==> accept::buffers(chain[i], #[trigger] reads[i], chain[i + 1])
}

/// However often the socket is read, the buffer holds all that was read, in order, and the
/// rest of the connection is as it was.
pub proof fn law_all_reads_are_buffered<A, K, C>(
    chain: Seq<TryTls<A, K, C>>,
    reads: Seq<Seq<u8>>,
)
    requires
        read_chain(chain, reads),
    ensures
        accept::buffers(chain[0], reads.flatten(), chain.last()),
    decreases reads.len(),
{
    reveal_with_fuel(Seq::<_>::flatten, 2);
    if reads.len() == 0 {
        assert(buf::buffered(chain[0].peek_buf) + reads.flatten() =~= buf::buffered(
            chain[0].peek_buf,
        ));
    } else {
        let rest = reads.drop_last();
        let shorter = chain.drop_last();
        assert forall|i: int| 0 <= i < rest.len() implies accept::buffers(
            shorter[i],
            #[trigger] rest[i],
            shorter[i + 1],
        ) by {
            assert(rest[i] == reads[i]);
        }
        law_all_reads_are_buffered(shorter, rest);
        let last = reads.last();
        assert(reads[reads.len() - 1] == last);
        assert(reads =~= rest.push(last));
        rest.lemma_flatten_push(last);
        assert(buf::buffered(chain[0].peek_buf) + rest.flatten() + last =~= buf::buffered(
            chain[0].peek_buf,
        ) + (rest.flatten() + last));
    }
}

/// No byte of a connection is lost: what is passed through without TLS, or handed to a TLS
/// handshake, starts with all that was read.
pub proof fn law_no_bytes_are_lost<A, K, C, S, H, F, R, X>(
    chain: Seq<TryTls<A, K, C>>,
    reads: Seq<Seq<u8>>,
    matched: Match,
    step: Step<A, K, C, S, H, F, R, X>,
)
    requires
        read_chain(chain, reads),
        buf::buffered(chain[0].peek_buf) == Seq::<u8>::empty(),
        !(matched is Incomplete),
        accept::follows(
            AcceptState::MatchHello(chain.last()),
            accept::Event::Matched(matched),
            step,
        ),
    ensures
        match step {
            Step::StartTls(_, io, _) => io.io == chain[0].socket && buf::frozen(io.prefix)
                == reads.flatten(),
            Step::Next(AcceptState::ReadyAccept(_, conn)) => {
                &&& conn.1 matches BoxedIo::Prefixed(io)
                &&& io.io == chain[0].socket
                &&& buf::frozen(io.prefix) == reads.flatten()
            },
            _ => false,
        },
{
    law_all_reads_are_buffered(chain, reads);
    assert(Seq::<u8>::empty() + reads.flatten() =~= reads.flatten());
}

/// The name of a peer is known only of connections with TLS.
pub proof fn law_only_tls_peers_have_names<A, K, C, S, H, F, R, X>(
    state: AcceptState<A, K, C, S, H, F>,
    event: accept::Event<S, R, X>,
    step: Step<A, K, C, S, H, F, R, X>,
)
    requires
        accept::answers(event, state),
        state !is ReadyAccept,
        accept::follows(state, event, step),
    ensures
        step matches Step::Next(AcceptState::ReadyAccept(_, conn)) ==> (conn.0.peer_identity
            is Present ==> conn.1 is Tls),
{
}

/// What a detection says is not TLS has no name, and starts with the bytes that were read and
/// not put back. What was only peeked at is still in the socket.
pub proof fn law_detection_keeps_bytes<K, C, S, X>(
    state: Detecting<K, C>,
    event: detect::Event<X>,
    step: detect::Step<K, C, S, X>,
)
    requires
        detect::wf(state),
        detect::answers(event, state),
        detect::follows(state, event, step),
    ensures
        step matches detect::Step::Done(Ok(conn)) ==> {
            &&& conn.0.peer_identity is Absent
            &&& conn.0.addrs == detect::probe_of(state).addrs
            &&& match conn.1 {
                BoxedIo::Plain(tcp) => state is MatchPeeked && tcp == detect::probe_of(state).tcp,
                BoxedIo::Prefixed(io) => !(state is MatchPeeked) && io.io == detect::probe_of(
                    state,
                ).tcp && buf::frozen(io.prefix) == buf::buffered(detect::probe_of(state).buf),
                BoxedIo::Tls(_) => false,
            }
        },
        step matches detect::Step::StartTls(_, _, io) ==> match io {
            BoxedIo::Plain(tcp) => state is MatchPeeked && tcp == detect::probe_of(state).tcp,
            BoxedIo::Prefixed(io) => !(state is MatchPeeked) && io.io == detect::probe_of(state).tcp
                && buf::frozen(io.prefix) == buf::buffered(detect::probe_of(state).buf),
            BoxedIo::Tls(_) => false,
        },
{
}

/// What a detection reads is matched before the socket is read again.
pub proof fn law_reads_are_matched<K, C, S, X>(
    state: Detecting<K, C>,
    event: detect::Event<X>,
    step: detect::Step<K, C, S, X>,
)
    requires
        detect::wf(state),
        detect::answers(event, state),
        detect::follows(state, event, step),
        event is Read,
    ensures
        step matches detect::Step::Next(next) ==> next is MatchRead,
        step !is StartTls,
{
}

/// Whether `chain` are the states of a detection between the events `events`.
pub open spec fn detection_chain<K, C, S, X>(
    chain: Seq<Detecting<K, C>>,
    events: Seq<detect::Event<X>>,
) -> bool {
    &&& chain.len() == events.len() + 1
    &&& forall|i: int|
        0 <= i < events.len() ==> detect::answers(#[trigger] events[i], chain[i])
            && detect::follows(chain[i], events[i], detect::Step::<K, C, S, X>::Next(chain[i + 1]))
}

/// The connection, the name that bytes are matched for and the config of a detection stay the
/// same all along.
proof fn lemma_probe_is_kept<K, C, S, X>(
    chain: Seq<Detecting<K, C>>,
    events: Seq<detect::Event<X>>,
)
    requires
        detection_chain::<K, C, S, X>(chain, events),
    ensures
        detect::probes(
            detect::probe_of(chain.last()),
            detect::probe_of(chain[0]),
            buf::buffered(detect::probe_of(chain.last()).buf),
        ),
    decreases events.len(),
{
    if events.len() > 0 {
        let rest = events.drop_last();
        let shorter = chain.drop_last();
        assert forall|i: int| 0 <= i < rest.len() implies detect::answers(
            #[trigger] rest[i],
            shorter[i],
        ) && detect::follows(
            shorter[i],
            rest[i],
            detect::Step::<K, C, S, X>::Next(shorter[i + 1]),
        ) by {
            assert(rest[i] == events[i]);
        }
        lemma_probe_is_kept::<K, C, S, X>(shorter, rest);
        let last = events[events.len() - 1];
        assert(detect::answers(last, chain[chain.len() - 2]));
    }
}

/// However a detection for the identity `local` goes, bytes are matched for the name of
/// `local`. When they match, TLS is established with the config of `local`, over the socket
/// that starts with all the bytes that were matched.
pub proof fn law_detected_tls_is_for_the_local_identity<I: HasConfig, K, S, X>(
    local: I,
    addrs: Addrs,
    tcp: K,
    chain: Seq<Detecting<K, I::Config>>,
    events: Seq<detect::Event<X>>,
    step: detect::Step<K, I::Config, S, X>,
)
    requires
        detection_chain::<K, I::Config, S, X>(chain, events),
        detect::probes_for(detect::probe_of(chain[0]), local, addrs, tcp),
        chain.last() is MatchPeeked || chain.last() is MatchRead,
        detect::follows(chain.last(), detect::Event::Matched(Match::Matched), step),
    ensures
        ({
            let probe = detect::probe_of(chain.last());
            &&& call_ensures(I::tls_server_name, (&local,), probe.server_name)
            &&& step matches detect::Step::StartTls(config, to, io)
            &&& call_ensures(I::tls_server_config, (&local,), config)
            &&& to == addrs
            &&& match io {
                BoxedIo::Plain(socket) => chain.last() is MatchPeeked && socket == tcp,
                BoxedIo::Prefixed(io) => chain.last() is MatchRead && io.io == tcp && buf::frozen(
                    io.prefix,
                ) == buf::buffered(probe.buf),
                BoxedIo::Tls(_) => false,
            }
        }),
{
    lemma_probe_is_kept::<K, I::Config, S, X>(chain, events);
}

} // verus!
