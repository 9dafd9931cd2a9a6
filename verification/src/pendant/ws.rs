//! The WebSocket of the pendant: kinds of messages, and the register of the
//! connections that are open.

use vstd::prelude::*;

verus! {

/// Kind of a WebSocket message.
#[derive(Clone, Debug, Copy, PartialEq, Eq, Structural)]
pub enum MessageType {
    /// Status update.
    Status,
    /// Response to a command.
    Command,
    /// Error.
    Error,
    /// Acknowledgment of a connection.
    Connected,
}

impl MessageType {
    /// The name of the kind on the wire.
    pub fn as_str(&self) -> (r: &'static str)
        ensures
            r@ == match *self {
                MessageType::Status => "status"@,
                MessageType::Command => "command"@,
                MessageType::Error => "error"@,
                MessageType::Connected => "connected"@,
            },
    {
        match self {
            MessageType::Status => "status",
            MessageType::Command => "command",
            MessageType::Error => "error",
            MessageType::Connected => "connected",
        }
    }
}

/// What is known of one connection.
#[derive(Debug)]
pub struct ConnectionMetadata {
    /// Number of the connection.
    pub id: u64,
    /// Address of the client.
    pub client_ip: String,
    /// When the connection was opened, in seconds since the Unix epoch.
    pub connected_at: u64,
    /// Messages sent.
    pub messages_sent: u64,
    /// Messages received.
    pub messages_received: u64,
    /// When the connection was last used.
    pub last_activity: u64,
}

/// The number after `n` where numbers start again at zero after the greatest.
pub open spec fn next_after(n: u64) -> u64 {
    if n == u64::MAX {
        0
    } else {
        (n + 1) as u64
    }
}

/// Whether a connection is as it is when it was just opened.
pub open spec fn just_opened(c: ConnectionMetadata, id: u64, client_ip: Seq<char>, at: u64) -> bool {
    &&& c.id == id
    &&& c.client_ip@ == client_ip
    &&& c.connected_at == at
    &&& c.messages_sent == 0
    &&& c.messages_received == 0
    &&& c.last_activity == at
}

impl Clone for ConnectionMetadata {
    fn clone(&self) -> (r: ConnectionMetadata)
        ensures
            r == *self,
    {
        ConnectionMetadata {
            id: self.id,
            client_ip: self.client_ip.clone(),
            connected_at: self.connected_at,
            messages_sent: self.messages_sent,
            messages_received: self.messages_received,
            last_activity: self.last_activity,
        }
    }
}

impl ConnectionMetadata {
    /// A connection that was just opened.
    pub fn new(id: u64, client_ip: String, connected_at: u64) -> (r: ConnectionMetadata)
        ensures
            just_opened(r, id, client_ip@, connected_at),
            r.client_ip == client_ip,
    {
        ConnectionMetadata {
            id,
            client_ip,
            connected_at,
            messages_sent: 0,
            messages_received: 0,
            last_activity: connected_at,
        }
    }

    /// Counts a message sent.
    pub fn record_sent(&mut self)
        ensures
            *final(self) == (ConnectionMetadata {
                messages_sent: next_after(old(self).messages_sent),
                ..*old(self)
            }),
    {
        self.messages_sent = self.messages_sent.wrapping_add(1);
    }

    /// Counts a message received.
    pub fn record_received(&mut self)
        ensures
            *final(self) == (ConnectionMetadata {
                messages_received: next_after(old(self).messages_received),
                ..*old(self)
            }),
    {
        self.messages_received = self.messages_received.wrapping_add(1);
    }

    /// Notes when the connection was last used.
    pub fn update_activity(&mut self, timestamp: u64)
        ensures
            *final(self) == (ConnectionMetadata { last_activity: timestamp, ..*old(self) }),
    {
        self.last_activity = timestamp;
    }
}

/// Index of the first connection at or after `i` that has the number `id`.
pub open spec fn connection_at(conns: Seq<ConnectionMetadata>, id: u64, i: int) -> Option<int>
    decreases conns.len() - i,
{
    if i < 0 || i >= conns.len() {
        None
    } else if conns[i].id == id {
        Some(i)
    } else {
        connection_at(conns, id, i + 1)
    }
}

/// The connections without the one that has the number `id`.
pub open spec fn without_connection(conns: Seq<ConnectionMetadata>, id: u64) -> Seq<
    ConnectionMetadata,
> {
    match connection_at(conns, id, 0) {
        Some(k) => conns.remove(k),
        None => conns,
    }
}

/// The connections with `c` in the place of the one that has its number, or
/// behind all others when none has it.
pub open spec fn with_connection(conns: Seq<ConnectionMetadata>, c: ConnectionMetadata) -> Seq<
    ConnectionMetadata,
> {
    match connection_at(conns, c.id, 0) {
        Some(k) => conns.update(k, c),
        None => conns.push(c),
    }
}

/// Whether every connection has a number of its own, below the next number
/// to be given.
pub open spec fn numbered(conns: Seq<ConnectionMetadata>, next_id: u64) -> bool {
    &&& forall|i: int| 0 <= i < conns.len() ==> (#[trigger] conns[i]).id < next_id
    &&& forall|i: int, j: int|
        0 <= i < j < conns.len() ==> (#[trigger] conns[i]).id != (#[trigger] conns[j]).id
}

/// Where the search for a number ends: at the first connection that has
/// it, or nowhere when none has.
pub proof fn lemma_connection_at(conns: Seq<ConnectionMetadata>, id: u64, i: int)
    requires
        0 <= i <= conns.len(),
    ensures
        match connection_at(conns, id, i) {
            Some(k) => i <= k < conns.len() && conns[k].id == id && forall|j: int|
                i <= j < k ==> (#[trigger] conns[j]).id != id,
            None => forall|j: int| i <= j < conns.len() ==> (#[trigger] conns[j]).id != id,
        },
    decreases conns.len() - i,
{
    if i < conns.len() && conns[i].id != id {
        lemma_connection_at(conns, id, i + 1);
    }
}

/// While numbers have not run out, a new connection gets a number that no
/// open connection has, and closing a connection leaves the others numbered
/// as they were.
pub proof fn lemma_numbers_stay_distinct(
    conns: Seq<ConnectionMetadata>,
    next_id: u64,
    c: ConnectionMetadata,
    closed: u64,
)
    requires
        numbered(conns, next_id),
        next_id < u64::MAX,
        c.id == next_id,
    ensures
        connection_at(conns, next_id, 0) is None,
        with_connection(conns, c) == conns.push(c),
        numbered(with_connection(conns, c), next_after(next_id)),
        numbered(without_connection(conns, closed), next_id),
        connection_at(without_connection(conns, closed), closed, 0) is None,
{
    lemma_connection_at(conns, next_id, 0);
    if connection_at(conns, next_id, 0) is Some {
        let k = connection_at(conns, next_id, 0)->0;
        assert(conns[k].id < next_id);
    }
    let a = conns.push(c);
    assert forall|i: int| 0 <= i < a.len() implies (#[trigger] a[i]).id < next_after(next_id) by {
        if i < conns.len() {
            assert(a[i] == conns[i]);
        }
    }
    assert forall|i: int, j: int| 0 <= i < j < a.len() implies (#[trigger] a[i]).id != (
    #[trigger] a[j]).id by {
        assert(a[i] == conns[i]);
        if j < conns.len() {
            assert(a[j] == conns[j]);
        }
    }
    let b = without_connection(conns, closed);
    lemma_connection_at(conns, closed, 0);
    lemma_connection_at(b, closed, 0);
    match connection_at(conns, closed, 0) {
        Some(k) => {
            assert forall|i: int| 0 <= i < b.len() implies (#[trigger] b[i]).id < next_id
                && b[i].id != closed by {
                let x = if i < k {
                    i
                } else {
                    i + 1
                };
                assert(b[i] == conns[x]);
                if x > k {
                    assert(conns[k].id != conns[x].id);
                }
            }
            assert forall|i: int, j: int| 0 <= i < j < b.len() implies (#[trigger] b[i]).id != (
            #[trigger] b[j]).id by {
                let x = if i < k {
                    i
                } else {
                    i + 1
                };
                let y = if j < k {
                    j
                } else {
                    j + 1
                };
                assert(b[i] == conns[x]);
                assert(b[j] == conns[y]);
            }
        },
        None => {},
    }
}

/// Register of the WebSocket connections that are open, in the order they
/// were opened.
#[derive(Debug)]
pub struct WsConnectionManager {
    /// The open connections.
    pub connections: Vec<ConnectionMetadata>,
    /// The number that the next connection gets.
    pub next_id: u64,
}

impl WsConnectionManager {
    /// A register without connections; the first gets the number 1.
    pub fn new() -> (r: WsConnectionManager)
        ensures
            r.connections@ == Seq::<ConnectionMetadata>::empty(),
            r.next_id == 1,
            numbered(r.connections@, r.next_id),
    {
        WsConnectionManager { connections: Vec::new(), next_id: 1 }
    }

    fn find(&self, id: u64) -> (r: Option<usize>)
        ensures
            match r {
                Some(k) => connection_at(self.connections@, id, 0) == Some(k as int) && k
                    < self.connections@.len(),
                None => connection_at(self.connections@, id, 0) is None,
            },
    {
        let mut i: usize = 0;
        while i < self.connections.len()
            invariant
                i <= self.connections@.len(),
                connection_at(self.connections@, id, i as int) == connection_at(
                    self.connections@,
                    id,
                    0,
                ),
            decreases self.connections@.len() - i,
        {
            if self.connections[i].id == id {
                return Some(i);
            }
            i += 1;
        }
        None
    }

    /// Enters a connection that was just opened and gives its number. It takes
    /// the place of a connection that has the same number, which can only be
    /// once the numbers have run out and started again.
    pub fn register(&mut self, client_ip: String, connected_at: u64) -> (id: u64)
        ensures
            id == old(self).next_id,
            final(self).next_id == next_after(old(self).next_id),
            match connection_at(old(self).connections@, id, 0) {
                Some(k) => final(self).connections@.len() == old(self).connections@.len()
                    && just_opened(final(self).connections@[k], id, client_ip@, connected_at)
                    && forall|j: int|
                    0 <= j < old(self).connections@.len() && j != k ==> #[trigger] final(self).connections@[j] == old(self).connections@[j],
                None => final(self).connections@.len() == old(self).connections@.len() + 1
                    && just_opened(final(self).connections@.last(), id, client_ip@, connected_at)
                    && forall|j: int|
                    0 <= j < old(self).connections@.len() ==> #[trigger] final(self).connections@[j] == old(self).connections@[j],
            },
            numbered(old(self).connections@, old(self).next_id) && old(self).next_id < u64::MAX
                ==> numbered(final(self).connections@, final(self).next_id) && final(self).connections@.len() == old(self).connections@.len() + 1,
    {
        let id = self.next_id;
        self.next_id = self.next_id.wrapping_add(1);
        let metadata = ConnectionMetadata::new(id, client_ip, connected_at);
        proof {
            if numbered(old(self).connections@, old(self).next_id) && old(self).next_id
                < u64::MAX {
                lemma_numbers_stay_distinct(old(self).connections@, old(self).next_id, metadata, 0);
            }
        }
        match self.find(id) {
            Some(k) => {
                self.connections.set(k, metadata);
            },
            None => {
                self.connections.push(metadata);
            },
        }
        id
    }

    /// Takes the connection with the given number out of the register.
    pub fn unregister(&mut self, id: u64)
        ensures
            final(self).connections@ == without_connection(old(self).connections@, id),
            final(self).next_id == old(self).next_id,
    {
        match self.find(id) {
            Some(k) => {
                self.connections.remove(k);
            },
            None => {},
        }
    }

    /// The number of open connections.
    pub fn active_count(&self) -> (r: usize)
        ensures
            r == self.connections@.len(),
    {
        self.connections.len()
    }

    /// What is known of the connection with the given number.
    pub fn get_connection(&self, id: u64) -> (r: Option<ConnectionMetadata>)
        ensures
            match r {
                Some(c) => connection_at(self.connections@, id, 0) is Some && c
                    == self.connections@[connection_at(self.connections@, id, 0)->0],
                None => connection_at(self.connections@, id, 0) is None,
            },
    {
        match self.find(id) {
            Some(k) => Some(self.connections[k].clone()),
            None => None,
        }
    }

    /// The open connections, in the order they were opened.
    pub fn list_connections(&self) -> (r: Vec<ConnectionMetadata>)
        ensures
            r@ == self.connections@,
    {
        let mut r: Vec<ConnectionMetadata> = Vec::new();
        let mut i: usize = 0;
        while i < self.connections.len()
            invariant
                i <= self.connections@.len(),
                r@ == self.connections@.take(i as int),
            decreases self.connections@.len() - i,
        {
            r.push(self.connections[i].clone());
            proof {
                assert(self.connections@.take(i + 1) == self.connections@.take(i as int).push(
                    self.connections@[i as int],
                ));
            }
            i += 1;
        }
        r
    }
}

impl Default for WsConnectionManager {
    fn default() -> (r: WsConnectionManager)
        ensures
            r.connections@ == Seq::<ConnectionMetadata>::empty(),
            r.next_id == 1,
    {
        WsConnectionManager::new()
    }
}

} // verus!
