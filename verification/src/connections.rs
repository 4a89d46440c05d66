//! Classification of the host's TCP sockets by connection state.

use vstd::prelude::*;

verus! {

/// State of a TCP connection, as a socket table reports it.
#[derive(Clone, Copy, Debug, PartialEq, Eq, Structural)]
pub enum TcpState {
    Closed,
    Listen,
    SynSent,
    SynReceived,
    Established,
    FinWait1,
    FinWait2,
    CloseWait,
    Closing,
    LastAck,
    TimeWait,
    DeleteTcb,
    Unknown,
}

/// The six categories under which connections are counted.
#[derive(Clone, Copy, Debug, PartialEq, Eq, Structural)]
pub enum ConnectionKind {
    Listen,
    Established,
    Starting,
    Closing,
    Closed,
    Other,
}

/// The category of each state.
pub open spec fn kind_of(state: TcpState) -> ConnectionKind {
    match state {
        TcpState::Listen => ConnectionKind::Listen,
        TcpState::Established => ConnectionKind::Established,
        TcpState::Closed => ConnectionKind::Closed,
        TcpState::SynSent | TcpState::SynReceived => ConnectionKind::Starting,
        TcpState::FinWait1
        | TcpState::FinWait2
        | TcpState::CloseWait
        | TcpState::Closing
        | TcpState::LastAck => ConnectionKind::Closing,
        TcpState::TimeWait | TcpState::DeleteTcb | TcpState::Unknown => ConnectionKind::Other,
    }
}

impl TcpState {
    /// The category under which a connection in this state is counted.
    pub fn kind(self) -> (kind: ConnectionKind)
        ensures
            kind == kind_of(self),
    {
        match self {
            TcpState::Listen => ConnectionKind::Listen,
            TcpState::Established => ConnectionKind::Established,
            TcpState::Closed => ConnectionKind::Closed,
            TcpState::SynSent | TcpState::SynReceived => ConnectionKind::Starting,
            TcpState::FinWait1
            | TcpState::FinWait2
            | TcpState::CloseWait
            | TcpState::Closing
            | TcpState::LastAck => ConnectionKind::Closing,
            _ => ConnectionKind::Other,
        }
    }
}

/// What a socket is, as far as counting goes.
#[derive(Clone, Copy, Debug, PartialEq, Eq, Structural)]
pub enum Protocol {
    Tcp(TcpState),
    Udp,
}

/// One socket of the host's table.
#[derive(Clone, Debug, PartialEq, Eq)]
pub struct SocketInfo {
    /// The processes that hold the socket.
    pub associated_pids: Vec<u32>,
    pub protocol: Protocol,
}

/// Number of connections of one process in each category.
#[derive(Clone, Copy, Debug, PartialEq, Eq, Structural)]
pub struct ConnectionsCount {
    pub listen: u64,
    pub established: u64,
    pub starting: u64,
    pub closing: u64,
    pub closed: u64,
    pub other: u64,
}

/// The category under which an entry of the table counts for `pid`: none for
/// an entry that could not be read, for a socket of other processes and for
/// one that is not TCP.
pub open spec fn owned_kind(entry: Option<SocketInfo>, pid: u32) -> Option<ConnectionKind> {
    match entry {
        Some(info) => {
            if info.associated_pids@.contains(pid) {
                match info.protocol {
                    Protocol::Tcp(state) => Some(kind_of(state)),
                    Protocol::Udp => None,
                }
            } else {
                None
            }
        },
        None => None,
    }
}

/// How many entries count for `pid` under `kind`.
pub open spec fn count_kind(entries: Seq<Option<SocketInfo>>, pid: u32, kind: ConnectionKind) -> nat
    decreases entries.len(),
{
    if entries.len() == 0 {
        0
    } else {
        count_kind(entries.drop_last(), pid, kind) + if owned_kind(entries.last(), pid) == Some(
            kind,
        ) {
            1nat
        } else {
            0nat
        }
    }
}

/// How many entries are readable TCP sockets of `pid`.
pub open spec fn count_owned(entries: Seq<Option<SocketInfo>>, pid: u32) -> nat
    decreases entries.len(),
{
    if entries.len() == 0 {
        0
    } else {
        count_owned(entries.drop_last(), pid) + if owned_kind(entries.last(), pid) is Some {
            1nat
        } else {
            0nat
        }
    }
}

/// The counts of a socket table for `pid`.
pub open spec fn connection_counts(entries: Seq<Option<SocketInfo>>, pid: u32) -> ConnectionsCount {
    ConnectionsCount {
        listen: count_kind(entries, pid, ConnectionKind::Listen) as u64,
        established: count_kind(entries, pid, ConnectionKind::Established) as u64,
        starting: count_kind(entries, pid, ConnectionKind::Starting) as u64,
        closing: count_kind(entries, pid, ConnectionKind::Closing) as u64,
        closed: count_kind(entries, pid, ConnectionKind::Closed) as u64,
        other: count_kind(entries, pid, ConnectionKind::Other) as u64,
    }
}

/// The classification table, state by state: each of the six categories is
/// the image of exactly the states listed for it, so every state has one
/// category and no two categories share a state.
pub proof fn lemma_kind_table(state: TcpState)
    ensures
        kind_of(state) == ConnectionKind::Listen <==> state == TcpState::Listen,
        kind_of(state) == ConnectionKind::Established <==> state == TcpState::Established,
        kind_of(state) == ConnectionKind::Closed <==> state == TcpState::Closed,
        kind_of(state) == ConnectionKind::Starting <==> (state == TcpState::SynSent || state
            == TcpState::SynReceived),
        kind_of(state) == ConnectionKind::Closing <==> (state == TcpState::FinWait1 || state
            == TcpState::FinWait2 || state == TcpState::CloseWait || state == TcpState::Closing
            || state == TcpState::LastAck),
        kind_of(state) == ConnectionKind::Other <==> (state == TcpState::TimeWait || state
            == TcpState::DeleteTcb || state == TcpState::Unknown),
{
}

/// No category holds more entries than the table has.
pub proof fn lemma_count_kind_bound(entries: Seq<Option<SocketInfo>>, pid: u32, kind: ConnectionKind)
    ensures
        count_kind(entries, pid, kind) <= entries.len(),
    decreases entries.len(),
{
    if entries.len() > 0 {
        lemma_count_kind_bound(entries.drop_last(), pid, kind);
    }
}

/// The six categories partition the TCP sockets of the process: their counts
/// add up to the number of those sockets.
pub proof fn lemma_counts_partition(entries: Seq<Option<SocketInfo>>, pid: u32)
    ensures
        count_kind(entries, pid, ConnectionKind::Listen) + count_kind(
            entries,
            pid,
            ConnectionKind::Established,
        ) + count_kind(entries, pid, ConnectionKind::Starting) + count_kind(
            entries,
            pid,
            ConnectionKind::Closing,
        ) + count_kind(entries, pid, ConnectionKind::Closed) + count_kind(
            entries,
            pid,
            ConnectionKind::Other,
        ) == count_owned(entries, pid),
        count_owned(entries, pid) <= entries.len(),
    decreases entries.len(),
{
    if entries.len() > 0 {
        lemma_counts_partition(entries.drop_last(), pid);
    }
}

/// Whether `pid` is among `pids`.
fn holds_pid(pids: &Vec<u32>, pid: u32) -> (found: bool)
    ensures
        found == pids@.contains(pid),
{
    let mut i: usize = 0;
    while i < pids.len()
        invariant
            i <= pids.len(),
            forall|j: int| 0 <= j < i ==> pids@[j] != pid,
        decreases pids.len() - i,
    {
        if pids[i] == pid {
            return true;
        }
        i = i + 1;
    }
    false
}

impl Default for ConnectionsCount {
    fn default() -> (count: Self)
        ensures
            count == (ConnectionsCount {
                listen: 0,
                established: 0,
                starting: 0,
                closing: 0,
                closed: 0,
                other: 0,
            }),
    {
        ConnectionsCount { listen: 0, established: 0, starting: 0, closing: 0, closed: 0, other: 0 }
    }
}

impl ConnectionsCount {
    /// The sum of the six counts.
    pub open spec fn sum(self) -> nat {
        (self.listen + self.established + self.starting + self.closing + self.closed
            + self.other) as nat
    }

    /// Counts, category by category, the readable TCP sockets of the table
    /// that `pid` holds.
    pub fn tally(entries: &Vec<Option<SocketInfo>>, pid: u32) -> (count: ConnectionsCount)
        ensures
            count == connection_counts(entries@, pid),
            count.sum() == count_owned(entries@, pid),
    {
        let mut count = ConnectionsCount::default();
        let mut i: usize = 0;
        while i < entries.len()
            invariant
                i <= entries.len(),
                count == connection_counts(entries@.take(i as int), pid),
            decreases entries.len() - i,
        {
            proof {
                let seen = entries@.take(i as int);
                assert(entries@.take(i + 1).drop_last() =~= seen);
                assert(entries@.take(i + 1).last() == entries@[i as int]);
                lemma_count_kind_bound(seen, pid, ConnectionKind::Listen);
                lemma_count_kind_bound(seen, pid, ConnectionKind::Established);
                lemma_count_kind_bound(seen, pid, ConnectionKind::Starting);
                lemma_count_kind_bound(seen, pid, ConnectionKind::Closing);
                lemma_count_kind_bound(seen, pid, ConnectionKind::Closed);
                lemma_count_kind_bound(seen, pid, ConnectionKind::Other);
            }
            match &entries[i] {
                Some(info) => {
                    if holds_pid(&info.associated_pids, pid) {
                        match info.protocol {
                            Protocol::Tcp(state) => {
                                match state.kind() {
                                    ConnectionKind::Listen => count.listen = count.listen + 1,
                                    ConnectionKind::Established => count.established =
                                        count.established + 1,
                                    ConnectionKind::Starting => count.starting = count.starting
                                        + 1,
                                    ConnectionKind::Closing => count.closing = count.closing + 1,
                                    ConnectionKind::Closed => count.closed = count.closed + 1,
                                    ConnectionKind::Other => count.other = count.other + 1,
                                }
                            },
                            Protocol::Udp => {},
                        }
                    }
                },
                None => {},
            }
            i = i + 1;
        }
        proof {
            assert(entries@.take(i as int) =~= entries@);
            lemma_counts_partition(entries@, pid);
            lemma_count_kind_bound(entries@, pid, ConnectionKind::Listen);
            lemma_count_kind_bound(entries@, pid, ConnectionKind::Established);
            lemma_count_kind_bound(entries@, pid, ConnectionKind::Starting);
            lemma_count_kind_bound(entries@, pid, ConnectionKind::Closing);
            lemma_count_kind_bound(entries@, pid, ConnectionKind::Closed);
            lemma_count_kind_bound(entries@, pid, ConnectionKind::Other);
        }
        count
    }
}

} // verus!
