use vstd::prelude::*;

verus! {

/// The broker's view of one client connection: a stable handle that the
/// embedding tasks allocate per accepted socket, the internal identifier of
/// the session the peer is bound to (if any), and the closing flag. Once the
/// flag is set no further command is accepted from this peer; packets
/// already queued may still be drained. The socket itself and the outbound
/// packet channel stay with the embedding tasks.
#[derive(Debug)]
pub struct Peer {
    id: u64,
    session: Option<String>,
    closing: bool,
}

impl Peer {
    /// The handle of this peer.
    pub closed spec fn spec_id(&self) -> u64 {
        self.id
    }

    /// The internal identifier of the bound session, if any.
    pub closed spec fn spec_session(&self) -> Option<Seq<char>> {
        match self.session {
            Some(s) => Some(s@),
            None => None,
        }
    }

    /// Whether the peer is closing.
    pub closed spec fn spec_closing(&self) -> bool {
        self.closing
    }

    /// Creates the representation of a freshly accepted connection: not
    /// closing, bound to no session.
    pub fn new(id: u64) -> (r: Peer)
        ensures
            r.spec_id() == id,
            r.spec_session() is None,
            !r.spec_closing(),
    {
        Peer { id, session: None, closing: false }
    }

    /// The handle of this peer.
    pub fn id(&self) -> (r: u64)
        ensures
            r == self.spec_id(),
    {
        self.id
    }

    /// Records the session this peer is bound to, replacing any prior
    /// binding. The argument is the session's internal identifier.
    pub fn bind(&mut self, session_id: String)
        ensures
            final(self).spec_id() == old(self).spec_id(),
            final(self).spec_session() == Some(session_id@),
            final(self).spec_closing() == old(self).spec_closing(),
    {
        self.session = Some(session_id);
    }

    /// The internal identifier of the session this peer is bound to, if
    /// any. Whether that session still exists is the registry's question:
    /// looking the identifier up there may find nothing.
    pub fn session(&self) -> (r: Option<&String>)
        ensures
            match r {
                Some(s) => self.spec_session() == Some(s@),
                None => self.spec_session() is None,
            },
    {
        self.session.as_ref()
    }

    /// Whether the peer is closing.
    pub fn closing(&self) -> (r: bool)
        ensures
            r == self.spec_closing(),
    {
        self.closing
    }

    /// Marks the peer as closing. Idempotent; the flag is never cleared.
    pub fn close(&mut self)
        ensures
            final(self).spec_id() == old(self).spec_id(),
            final(self).spec_session() == old(self).spec_session(),
            final(self).spec_closing(),
    {
        self.closing = true;
    }
}

} // verus!
