//! The session: its life cycle, the one GOAWAY that it may receive, and the
//! limit on request IDs that the peer raises over time.

use vstd::prelude::*;
use crate::error::Error;
use crate::message::{Goaway, MaxRequestId};
use crate::track::{TrackManager, TrackManagerView};

verus! {

/// Where a session stands in its life. A session only ever moves forward:
/// from `Initializing` to `Active` to `Closing`.
#[derive(Debug, Clone, Copy, PartialEq, Eq, Structural)]
pub enum State {
    /// The setup handshake is under way.
    Initializing,
    /// The handshake is done; requests flow.
    Active,
    /// The session is draining: a GOAWAY was sent or received, or the
    /// session failed.
    Closing,
}

impl State {
    /// How far along a state is.
    pub open spec fn rank(self) -> int {
        match self {
            State::Initializing => 0,
            State::Active => 1,
            State::Closing => 2,
        }
    }
}

/// Where a session stands, as the session keeps it: whether the peer's
/// GOAWAY has been received is a question only of a closing session.
enum Phase {
    Initializing,
    Active,
    Closing { received_goaway: bool },
}

/// The state of one session.
pub struct Session {
    phase: Phase,
    /// The tracks, aliases and requests of the session. The limit on request
    /// IDs lives here, and nowhere else.
    track_manager: TrackManager,
}

impl Session {
    /// Where the session stands in its life.
    pub closed spec fn spec_state(&self) -> State {
        match self.phase {
            Phase::Initializing => State::Initializing,
            Phase::Active => State::Active,
            Phase::Closing { .. } => State::Closing,
        }
    }

    /// Whether the peer's GOAWAY has been received.
    pub closed spec fn spec_received_goaway(&self) -> bool {
        self.phase matches Phase::Closing { received_goaway: true }
    }

    /// The state of the session's track manager.
    pub closed spec fn tracks(&self) -> TrackManagerView {
        self.track_manager@
    }

    /// The limit that the peer has set on request IDs.
    pub open spec fn spec_max_request_id(&self) -> u64 {
        self.tracks().max_request_id
    }

    /// A session that has received the peer's GOAWAY is closing.
    pub proof fn lemma_goaway_means_closing(&self)
        ensures
            self.spec_received_goaway() ==> self.spec_state() == State::Closing,
    {
    }

    /// A session whose handshake has yet to begin: no GOAWAY received, no
    /// request ID granted.
    pub fn new() -> (session: Session)
        ensures
            session.spec_state() == State::Initializing,
            !session.spec_received_goaway(),
            session.spec_max_request_id() == 0,
            session.tracks() == TrackManagerView::initial(),
    {
        Session { phase: Phase::Initializing, track_manager: TrackManager::new() }
    }

    /// Where the session stands in its life.
    #[verifier::when_used_as_spec(spec_state)]
    pub fn state(&self) -> (state: State)
        ensures
            state == self.spec_state(),
    {
        match self.phase {
            Phase::Initializing => State::Initializing,
            Phase::Active => State::Active,
            Phase::Closing { .. } => State::Closing,
        }
    }

    /// Whether the peer's GOAWAY has been received.
    #[verifier::when_used_as_spec(spec_received_goaway)]
    pub fn received_goaway(&self) -> (received: bool)
        ensures
            received == self.spec_received_goaway(),
    {
        match self.phase {
            Phase::Closing { received_goaway } => received_goaway,
            _ => false,
        }
    }

    /// The limit that the peer has set on request IDs.
    #[verifier::when_used_as_spec(spec_max_request_id)]
    pub fn max_request_id(&self) -> (limit: u64)
        ensures
            limit == self.spec_max_request_id(),
    {
        self.track_manager.max_request_id()
    }

    /// The session's track manager, to look at.
    pub fn track_manager(&self) -> (manager: &TrackManager)
        ensures
            manager@ == self.tracks(),
    {
        &self.track_manager
    }

    /// The session's track manager, to work on. Whatever is done to it, the
    /// rest of the session stays as it is.
    pub fn track_manager_mut(&mut self) -> (manager: &mut TrackManager)
        ensures
            manager@ == old(self).tracks(),
            final(self).tracks() == final(manager)@,
            final(self).spec_state() == old(self).spec_state(),
            final(self).spec_received_goaway() == old(self).spec_received_goaway(),
    {
        &mut self.track_manager
    }

    /// Whether new requests may be sent to the peer: only while the session
    /// is active.
    pub fn may_request(&self) -> (allowed: bool)
        ensures
            allowed == (self.spec_state() == State::Active),
    {
        match self.phase {
            Phase::Active => true,
            _ => false,
        }
    }

    /// Records that the setup handshake is done: a session that was
    /// initializing becomes active. Any other session stays as it is.
    pub fn setup_complete(&mut self)
        ensures
            final(self).spec_state() == if old(self).spec_state() == State::Initializing {
                State::Active
            } else {
                old(self).spec_state()
            },
            final(self).spec_state().rank() >= old(self).spec_state().rank(),
            final(self).spec_received_goaway() == old(self).spec_received_goaway(),
            final(self).tracks() == old(self).tracks(),
    {
        match self.phase {
            Phase::Initializing => {
                self.phase = Phase::Active;
            },
            _ => {},
        }
    }

    /// Starts the draining of the session, as after sending a GOAWAY or
    /// after a fatal error. A closing session stays closing.
    pub fn close(&mut self)
        ensures
            final(self).spec_state() == State::Closing,
            final(self).spec_state().rank() >= old(self).spec_state().rank(),
            final(self).spec_received_goaway() == old(self).spec_received_goaway(),
            final(self).tracks() == old(self).tracks(),
    {
        let received_goaway = self.received_goaway();
        self.phase = Phase::Closing { received_goaway };
    }

    /// Handles the peer's GOAWAY; `is_server` says whether this endpoint is
    /// the server. A second GOAWAY is a violation of the protocol, and so is
    /// a URI in a GOAWAY that a server receives: only a server may name one.
    /// Otherwise the GOAWAY is recorded and the session starts closing. A
    /// refused GOAWAY changes nothing.
    pub fn handle_goaway(&mut self, msg: &Goaway, is_server: bool) -> (r: Result<(), Error>)
        ensures
            final(self).tracks() == old(self).tracks(),
            final(self).spec_state().rank() >= old(self).spec_state().rank(),
            if old(self).spec_received_goaway() {
                &&& r matches Err(Error::ProtocolViolation { reason })
                &&& reason@ == "multiple GOAWAY"@
                &&& final(self).spec_state() == old(self).spec_state()
                &&& final(self).spec_received_goaway()
            } else if is_server && msg.new_session_uri is Some {
                &&& r matches Err(Error::ProtocolViolation { reason })
                &&& reason@ == "GOAWAY from client contained URI"@
                &&& final(self).spec_state() == old(self).spec_state()
                &&& !final(self).spec_received_goaway()
            } else {
                &&& r is Ok
                &&& final(self).spec_state() == State::Closing
                &&& final(self).spec_received_goaway()
            },
    {
        if self.received_goaway() {
            return Err(Error::violation("multiple GOAWAY"));
        }
        if is_server && msg.new_session_uri.is_some() {
            return Err(Error::violation("GOAWAY from client contained URI"));
        }
        self.phase = Phase::Closing { received_goaway: true };
        Ok(())
    }

    /// Handles the peer's MAX_REQUEST_ID. The limit must grow: a value that
    /// does not exceed the limit in force is a violation of the protocol and
    /// changes nothing.
    pub fn handle_max_request_id(&mut self, msg: &MaxRequestId) -> (r: Result<(), Error>)
        ensures
            final(self).spec_state() == old(self).spec_state(),
            final(self).spec_received_goaway() == old(self).spec_received_goaway(),
            final(self).spec_max_request_id() >= old(self).spec_max_request_id(),
            if msg.request_id <= old(self).spec_max_request_id() {
                &&& r matches Err(Error::ProtocolViolation { reason })
                &&& reason@ == "MAX_REQUEST_ID decreased"@
                &&& final(self).tracks() == old(self).tracks()
            } else {
                &&& r is Ok
                &&& final(self).tracks() == old(self).tracks().with_max(msg.request_id)
            },
    {
        self.track_manager.handle_max_request_id(msg.request_id)
    }
}

} // verus!
