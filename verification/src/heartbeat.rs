//! Gossip heartbeat decisions: which local port a node identity binds, which
//! peers a cycle sends to, the liveness message it sends, and the append-only
//! inbox log of messages it received.
//!
//! The surrounding socket loop performs the sends and receives; everything it
//! decides — ports, targets, message text, log lines and log order — is
//! computed and stated here.

use vstd::prelude::*;
use crate::render::{dec_of, push_char, push_uint};

verus! {

/// The fallback port for identities outside the static table.
pub const DEFAULT_PORT: u16 = 9010;

/// The static identity-to-port table: identities `A` through `E` map to
/// ports 9001 through 9005; any other identity falls back to
/// [`DEFAULT_PORT`].
pub open spec fn port_of(id: char) -> u16 {
    match id {
        'A' => 9001,
        'B' => 9002,
        'C' => 9003,
        'D' => 9004,
        'E' => 9005,
        _ => DEFAULT_PORT,
    }
}

/// Resolves the local datagram port for a node identity through the static
/// table, falling back to the default port for unrecognized identities.
pub fn port_for(id: char) -> (p: u16)
    ensures
        p == port_of(id),
{
    match id {
        'A' => 9001,
        'B' => 9002,
        'C' => 9003,
        'D' => 9004,
        'E' => 9005,
        _ => DEFAULT_PORT,
    }
}

/// The configured peer ports, in broadcast order.
pub open spec fn peer_ports() -> Seq<u16> {
    seq![9001u16, 9002u16, 9003u16, 9004u16, 9005u16]
}

/// The static peer set: one port per node of the mesh, every node's own
/// port included.
pub fn default_peers() -> (r: Vec<u16>)
    ensures
        r@ == peer_ports(),
{
    let mut v: Vec<u16> = Vec::new();
    v.push(9001);
    v.push(9002);
    v.push(9003);
    v.push(9004);
    v.push(9005);
    proof {
        assert(v@ =~= peer_ports());
    }
    v
}

/// The peers a cycle broadcasts to: every configured peer except `own`, in
/// configuration order.
pub open spec fn targets_of(peers: Seq<u16>, own: u16) -> Seq<u16>
    decreases peers.len(),
{
    if peers.len() == 0 {
        Seq::empty()
    } else if peers.last() == own {
        targets_of(peers.drop_last(), own)
    } else {
        targets_of(peers.drop_last(), own).push(peers.last())
    }
}

/// No selected target is the node's own port.
pub proof fn lemma_targets_never_own(peers: Seq<u16>, own: u16)
    ensures
        forall|i: int| 0 <= i < targets_of(peers, own).len() ==> targets_of(peers, own)[i] != own,
    decreases peers.len(),
{
    if peers.len() > 0 {
        lemma_targets_never_own(peers.drop_last(), own);
        let prev = targets_of(peers.drop_last(), own);
        let all = targets_of(peers, own);
        if peers.last() != own {
            assert forall|i: int| 0 <= i < all.len() implies all[i] != own by {
                if i < prev.len() {
                    assert(all[i] == prev[i]);
                } else {
                    assert(all[i] == peers.last());
                }
            }
        }
    }
}

/// Selects the broadcast targets for one heartbeat cycle: the configured
/// peers in order, the node's own bound port left out. A peer set that
/// contains the node's own port never produces a send to that port.
pub fn broadcast_targets(peers: &Vec<u16>, own: u16) -> (r: Vec<u16>)
    ensures
        r@ == targets_of(peers@, own),
        forall|i: int| 0 <= i < r@.len() ==> r@[i] != own,
{
    let mut r: Vec<u16> = Vec::new();
    let mut i: usize = 0;
    while i < peers.len()
        invariant
            i <= peers.len(),
            r@ == targets_of(peers@.take(i as int), own),
        decreases peers.len() - i,
    {
        let p = peers[i];
        proof {
            assert(peers@.take(i + 1).drop_last() =~= peers@.take(i as int));
            assert(peers@.take(i + 1).last() == peers@[i as int]);
        }
        if p != own {
            r.push(p);
        }
        i += 1;
    }
    proof {
        assert(peers@.take(peers@.len() as int) =~= peers@);
        lemma_targets_never_own(peers@, own);
    }
    r
}

/// The loopback address text for a port: `127.0.0.1:` followed by the
/// port's decimal digits.
pub open spec fn addr_text(port: u16) -> Seq<char> {
    "127.0.0.1:"@ + dec_of(port as nat)
}

/// Renders the loopback address a port binds or is sent to.
pub fn render_addr(port: u16) -> (r: String)
    ensures
        r@ == addr_text(port),
{
    let mut s = String::new();
    s.append("127.0.0.1:");
    push_uint(&mut s, port as u128);
    proof {
        assert(s@ =~= addr_text(port));
    }
    s
}

/// The liveness datagram text a node broadcasts: its identity and a
/// liveness flag.
pub open spec fn ping_text(id: char) -> Seq<char> {
    "{\"node\":\""@ + seq![id] + "\",\"ping\":true}"@
}

/// Renders the liveness message sent to every target each cycle.
pub fn render_ping(id: char) -> (r: String)
    ensures
        r@ == ping_text(id),
{
    let mut s = String::new();
    s.append("{\"node\":\"");
    push_char(&mut s, id);
    s.append("\",\"ping\":true}");
    proof {
        assert(s@ =~= ping_text(id));
    }
    s
}

/// One received datagram: the source address text and the payload text.
pub struct InboxEntry {
    pub source: String,
    pub text: String,
}

/// The inbox log line for one received datagram: `[<source>] <payload>`.
pub open spec fn inbox_line_text(source: Seq<char>, text: Seq<char>) -> Seq<char> {
    "["@ + source + "] "@ + text
}

/// The append-only inbox log: one entry per received datagram, in arrival
/// order, never rewritten or compacted.
pub struct InboxLog {
    pub entries: Vec<InboxEntry>,
}

impl InboxLog {
    /// The datagrams the log holds, each as its source and payload text, in
    /// arrival order.
    pub open spec fn datagrams(self) -> Seq<(Seq<char>, Seq<char>)> {
        self.entries@.map_values(|e: InboxEntry| (e.source@, e.text@))
    }

    /// An empty log, holding no received datagrams.
    pub fn new() -> (r: InboxLog)
        ensures
            r.datagrams() == Seq::<(Seq<char>, Seq<char>)>::empty(),
    {
        let r = InboxLog { entries: Vec::new() };
        proof {
            assert(r.datagrams() =~= Seq::<(Seq<char>, Seq<char>)>::empty());
        }
        r
    }

    /// Records one received datagram: appends exactly one entry holding the
    /// source and payload, leaves every earlier entry unchanged, and returns
    /// the log line to append to the on-disk inbox file.
    pub fn record(&mut self, source: String, text: String) -> (line: String)
        ensures
            final(self).datagrams() == old(self).datagrams().push((source@, text@)),
            line@ == inbox_line_text(source@, text@),
    {
        let mut line = String::new();
        line.append("[");
        line.append(source.as_str());
        line.append("] ");
        line.append(text.as_str());
        proof {
            assert(line@ =~= inbox_line_text(source@, text@));
        }
        let ghost src_view = source@;
        let ghost text_view = text@;
        self.entries.push(InboxEntry { source, text });
        proof {
            assert(self.datagrams() =~= old(self).datagrams().push((src_view, text_view)));
        }
        line
    }
}

/// The log contents after a sequence of datagrams arrives, one `record`
/// step per datagram in order.
pub open spec fn log_after(
    log: Seq<(Seq<char>, Seq<char>)>,
    arrivals: Seq<(Seq<char>, Seq<char>)>,
) -> Seq<(Seq<char>, Seq<char>)>
    decreases arrivals.len(),
{
    if arrivals.len() == 0 {
        log
    } else {
        log_after(log.push(arrivals.first()), arrivals.drop_first())
    }
}

/// Appending `n` inbound datagrams over the heartbeat's lifetime leaves the
/// log holding exactly its prior contents followed by those `n` datagrams in
/// arrival order: from an empty log, exactly `n` entries, the `i`-th being
/// the `i`-th arrival — whatever happened to the sends of the same cycles,
/// which do not touch the log.
pub proof fn lemma_inbox_keeps_arrival_order(
    log: Seq<(Seq<char>, Seq<char>)>,
    arrivals: Seq<(Seq<char>, Seq<char>)>,
)
    ensures
        log_after(log, arrivals) == log + arrivals,
        log_after(log, arrivals).len() == log.len() + arrivals.len(),
    decreases arrivals.len(),
{
    if arrivals.len() == 0 {
        assert(log_after(log, arrivals) =~= log + arrivals);
    } else {
        lemma_inbox_keeps_arrival_order(log.push(arrivals.first()), arrivals.drop_first());
        assert(log.push(arrivals.first()) + arrivals.drop_first() =~= log + arrivals);
    }
}

} // verus!
