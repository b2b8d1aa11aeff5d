//! The display's client registry and the listening endpoint it is bound
//! to. One compositor owns one listening socket; a second bind of the
//! same path fails while the first stays usable. Clients are added when
//! the socket accepts a connection and removed on disconnect.

use vstd::prelude::*;
use crate::textutil::string_eq;

verus! {

/// The error of binding a listening endpoint on a path already taken:
/// fatal to compositor startup.
#[derive(Debug, Clone, Copy, PartialEq, Eq, Structural)]
pub struct SocketBindError;

/// The local endpoint paths that carry a listening socket.
#[derive(Debug)]
pub struct SocketNamespace {
    /// The bound paths, in bind order.
    pub bound: Vec<String>,
}

impl SocketNamespace {
    /// Whether `path` already carries a listening socket.
    pub open spec fn spec_is_bound(self, path: Seq<char>) -> bool {
        exists|i: int| 0 <= i < self.bound@.len() && (#[trigger] self.bound@[i])@ == path
    }

    /// No path bound yet.
    pub fn new() -> (r: SocketNamespace)
        ensures
            r.bound@.len() == 0,
    {
        SocketNamespace { bound: Vec::new() }
    }

    /// Whether `path` already carries a listening socket.
    pub fn is_bound(&self, path: &String) -> (r: bool)
        ensures
            r == self.spec_is_bound(path@),
    {
        let mut i: usize = 0;
        while i < self.bound.len()
            invariant
                i <= self.bound@.len(),
                forall|j: int| 0 <= j < i ==> (#[trigger] self.bound@[j])@ != path@,
            decreases self.bound@.len() - i,
        {
            if string_eq(&self.bound[i], path) {
                return true;
            }
            i = i + 1;
        }
        false
    }

    /// Bind a listening endpoint at `path`. The first bind of a path
    /// succeeds and returns its handle; a second bind of the same path
    /// fails, and the endpoint bound first remains usable.
    pub fn bind(&mut self, path: String) -> (r: Result<usize, SocketBindError>)
        ensures
            match r {
                Ok(handle) => {
                    &&& !old(self).spec_is_bound(path@)
                    &&& final(self).bound@.len() == old(self).bound@.len() + 1
                    &&& final(self).bound@.take(old(self).bound@.len() as int) == old(self).bound@
                    &&& final(self).bound@.last()@ == path@
                    &&& handle == old(self).bound@.len()
                    &&& final(self).spec_is_bound(path@)
                },
                Err(e) => {
                    &&& old(self).spec_is_bound(path@)
                    &&& *final(self) == *old(self)
                },
            },
    {
        if self.is_bound(&path) {
            return Err(SocketBindError);
        }
        let handle = self.bound.len();
        self.bound.push(path);
        proof {
            assert(self.bound@.take(old(self).bound@.len() as int) =~= old(self).bound@);
            assert((self.bound@[old(self).bound@.len() as int])@ == self.bound@.last()@);
        }
        Ok(handle)
    }
}

/// How many of the clients are still connected.
pub open spec fn spec_alive_count(clients: Seq<ClientRec>) -> int
    decreases clients.len(),
{
    if clients.len() == 0 {
        0
    } else {
        spec_alive_count(clients.drop_last()) + (if clients.last().alive {
            1int
        } else {
            0int
        })
    }
}

/// One client connection known to the display.
#[derive(Debug, Clone, Copy, PartialEq, Eq, Structural)]
pub struct ClientRec {
    /// The client's identity.
    pub id: u64,
    /// Whether the client is still connected.
    pub alive: bool,
}

/// The registry of client connections of one display.
#[derive(Debug)]
pub struct ClientRegistry {
    /// The clients, in connection order.
    pub clients: Vec<ClientRec>,
    /// The id the next accepted client will carry.
    pub next_client_id: u64,
}

impl ClientRegistry {
    /// Ids handed out stay below the next one.
    pub open spec fn wf(self) -> bool {
        forall|i: int|
            0 <= i < self.clients@.len() ==> (#[trigger] self.clients@[i]).id
                < self.next_client_id
    }

    /// No client yet.
    pub fn new() -> (r: ClientRegistry)
        ensures
            r.wf(),
            r.clients@.len() == 0,
            r.next_client_id == 0u64,
    {
        ClientRegistry { clients: Vec::new(), next_client_id: 0 }
    }

    /// Register a freshly accepted connection as a client. Its id is
    /// fresh among this registry's clients.
    pub fn insert_client(&mut self) -> (r: u64)
        requires
            old(self).wf(),
            old(self).next_client_id < u64::MAX,
        ensures
            final(self).wf(),
            r == old(self).next_client_id,
            final(self).clients@ == old(self).clients@.push(ClientRec { id: r, alive: true }),
            forall|i: int|
                0 <= i < old(self).clients@.len() ==> (#[trigger] old(self).clients@[i]).id != r,
    {
        let id = self.next_client_id;
        self.next_client_id = id + 1;
        self.clients.push(ClientRec { id, alive: true });
        id
    }

    /// Record a disconnect: the client's resources are dropped; nothing
    /// is retried and no session resumes.
    pub fn disconnect_client(&mut self, id: u64)
        requires
            old(self).wf(),
        ensures
            final(self).wf(),
            final(self).clients@.len() == old(self).clients@.len(),
            forall|i: int|
                0 <= i < final(self).clients@.len() ==> #[trigger] final(self).clients@[i]
                    == if old(self).clients@[i].id == id {
                    ClientRec { id: old(self).clients@[i].id, alive: false }
                } else {
                    old(self).clients@[i]
                },
            final(self).next_client_id == old(self).next_client_id,
    {
        let mut i: usize = 0;
        while i < self.clients.len()
            invariant
                old(self).wf(),
                i <= self.clients@.len(),
                self.clients@.len() == old(self).clients@.len(),
                self.next_client_id == old(self).next_client_id,
                forall|j: int|
                    0 <= j < i ==> #[trigger] self.clients@[j]
                        == if old(self).clients@[j].id == id {
                        ClientRec { id: old(self).clients@[j].id, alive: false }
                    } else {
                        old(self).clients@[j]
                    },
                forall|j: int|
                    i <= j < self.clients@.len() ==> #[trigger] self.clients@[j] == old(
                    self).clients@[j],
            decreases self.clients@.len() - i,
        {
            if self.clients[i].id == id {
                let c = self.clients[i];
                self.clients.set(i, ClientRec { id: c.id, alive: false });
            }
            i = i + 1;
        }
    }

    /// How many clients are connected and alive.
    pub fn alive_count(&self) -> (r: usize)
        ensures
            r == spec_alive_count(self.clients@),
    {
        let mut count: usize = 0;
        let mut i: usize = 0;
        proof {
            assert(self.clients@.take(0).len() == 0);
        }
        while i < self.clients.len()
            invariant
                i <= self.clients@.len(),
                count == spec_alive_count(self.clients@.take(i as int)),
                count <= i,
            decreases self.clients@.len() - i,
        {
            proof {
                assert(self.clients@.take(i + 1).drop_last() =~= self.clients@.take(i as int));
                assert(self.clients@.take(i + 1).last() == self.clients@[i as int]);
            }
            if self.clients[i].alive {
                count = count + 1;
            }
            i = i + 1;
        }
        proof {
            assert(self.clients@.take(self.clients@.len() as int) =~= self.clients@);
        }
        count
    }
}

} // verus!
