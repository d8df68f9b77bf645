//! The track manager: which tracks are known, which alias stands for which
//! track, which subscription requests are waiting for an answer, and which
//! subscribers an object of a track goes to.

use vstd::prelude::*;
use std::collections::HashMap;
use bytes::Bytes;
use crate::error::Error;
use crate::message::{SubscribeError, SubscribeOk};

verus! {

broadcast use vstd::std_specs::hash::group_hash_axioms;

/// The name of a track in full.
pub type FullTrackName = String;

/// The short number that stands for a track within one session.
pub type TrackAlias = u64;

/// What the manager knows of one track.
struct TrackState {
    name: FullTrackName,
    alias: Option<TrackAlias>,
    /// The subscriptions to the track, each named by its request ID.
    subscribers: Vec<u64>,
}

/// The model of what the manager knows of one track.
pub struct TrackStateView {
    pub name: Seq<char>,
    pub alias: Option<u64>,
    pub subscribers: Seq<u64>,
}

impl View for TrackState {
    type V = TrackStateView;

    closed spec fn view(&self) -> TrackStateView {
        TrackStateView { name: self.name@, alias: self.alias, subscribers: self.subscribers@ }
    }
}

/// The model of a [`TrackManager`].
pub struct TrackManagerView {
    /// The known tracks, in the order in which they became known.
    pub tracks: Seq<TrackStateView>,
    /// The track that each bound alias stands for.
    pub aliases: Map<u64, Seq<char>>,
    /// The track that each unanswered subscription request asks for.
    pub requests: Map<u64, Seq<char>>,
    /// The next request ID to hand out.
    pub request_counter: u64,
    /// The limit that the peer has set: request IDs stay below it.
    pub max_request_id: u64,
}

impl TrackManagerView {
    /// The state of a manager that knows nothing yet.
    pub open spec fn initial() -> TrackManagerView {
        TrackManagerView {
            tracks: Seq::empty(),
            aliases: Map::empty(),
            requests: Map::empty(),
            request_counter: 0,
            max_request_id: 0,
        }
    }

    /// What holds of every manager: no request ID beyond the limit has been
    /// handed out, and no track is known twice.
    pub open spec fn wf(self) -> bool {
        &&& self.request_counter <= self.max_request_id
        &&& forall|i: int, j: int|
            0 <= i < j < self.tracks.len() ==> self.tracks[i].name != self.tracks[j].name
    }

    /// Whether a track of this name is known.
    pub open spec fn has_track(self, name: Seq<char>) -> bool {
        exists|i: int| 0 <= i < self.tracks.len() && #[trigger] self.tracks[i].name == name
    }

    /// The subscribers of the track of this name; none where the track is
    /// not known.
    pub open spec fn subscribers_of(self, name: Seq<char>) -> Seq<u64> {
        if self.has_track(name) {
            let i = choose|i: int|
                0 <= i < self.tracks.len() && #[trigger] self.tracks[i].name == name;
            self.tracks[i].subscribers
        } else {
            Seq::empty()
        }
    }

    /// The subscribers that an object carrying `alias` goes to: those of the
    /// track that the alias stands for.
    pub open spec fn fan_out(self, alias: u64) -> Seq<u64> {
        if self.aliases.contains_key(alias) {
            self.subscribers_of(self.aliases[alias])
        } else {
            Seq::empty()
        }
    }

    /// The state once the track is known: as before where it already was.
    pub open spec fn with_track(self, name: Seq<char>) -> TrackManagerView {
        if self.has_track(name) {
            self
        } else {
            TrackManagerView {
                tracks: self.tracks.push(
                    TrackStateView { name, alias: None, subscribers: Seq::empty() },
                ),
                ..self
            }
        }
    }

    /// The state once `alias` stands for the track `name`.
    pub open spec fn with_alias(self, alias: u64, name: Seq<char>) -> TrackManagerView {
        TrackManagerView { aliases: self.aliases.insert(alias, name), ..self }
    }

    /// The state once `alias` stands for the track `name` and the track,
    /// where it is known, records the alias.
    pub open spec fn with_track_alias(self, name: Seq<char>, alias: u64) -> TrackManagerView {
        TrackManagerView {
            tracks: self.tracks.map_values(
                |t: TrackStateView|
                    if t.name == name {
                        TrackStateView { alias: Some(alias), ..t }
                    } else {
                        t
                    },
            ),
            aliases: self.aliases.insert(alias, name),
            ..self
        }
    }

    /// The state once the peer has raised the limit to `new_max`.
    pub open spec fn with_max(self, new_max: u64) -> TrackManagerView {
        TrackManagerView { max_request_id: new_max, ..self }
    }

    /// The state once the next request ID has been handed out.
    pub open spec fn with_request(self) -> TrackManagerView {
        TrackManagerView { request_counter: (self.request_counter + 1) as u64, ..self }
    }

    /// The state once a subscription to `name` has been started under the
    /// next request ID: the track is known, the subscription is among its
    /// subscribers, and the request waits for its answer.
    pub open spec fn with_subscription(self, name: Seq<char>) -> TrackManagerView {
        let id: u64 = self.request_counter;
        let known = self.with_track(name);
        TrackManagerView {
            tracks: known.tracks.map_values(
                |t: TrackStateView|
                    if t.name == name {
                        TrackStateView { subscribers: t.subscribers.push(id), ..t }
                    } else {
                        t
                    },
            ),
            requests: self.requests.insert(id, name),
            request_counter: (self.request_counter + 1) as u64,
            ..known
        }
    }

    /// The state once the request `id` has been answered.
    pub open spec fn without_request(self, id: u64) -> TrackManagerView {
        TrackManagerView { requests: self.requests.remove(id), ..self }
    }

    /// The state after `n` more request IDs have been asked for: each is
    /// handed out while the limit allows it.
    pub open spec fn after_requests(self, n: nat) -> TrackManagerView
        decreases n,
    {
        if n == 0 {
            self
        } else {
            let before = self.after_requests((n - 1) as nat);
            if before.request_counter < before.max_request_id {
                before.with_request()
            } else {
                before
            }
        }
    }
}

/// Every request for an ID succeeds until as many IDs have been handed out
/// as the limit allows, and none succeeds after that.
pub proof fn lemma_request_budget(v: TrackManagerView, n: nat)
    requires
        v.wf(),
    ensures
        v.after_requests(n).wf(),
        v.request_counter + n <= v.max_request_id ==> v.after_requests(n).request_counter
            == v.request_counter + n,
        v.request_counter + n >= v.max_request_id ==> v.after_requests(n).request_counter
            == v.max_request_id,
        v.after_requests(n).max_request_id == v.max_request_id,
    decreases n,
{
    if n > 0 {
        lemma_request_budget(v, (n - 1) as nat);
    }
}

/// A track that has been made known is known.
pub proof fn lemma_track_known(v: TrackManagerView, name: Seq<char>)
    ensures
        v.with_track(name).has_track(name),
        v.with_track(name).with_request().has_track(name),
{
    let known = v.with_track(name);
    if !v.has_track(name) {
        assert(known.tracks[v.tracks.len() as int].name == name);
    }
    let i = choose|i: int| 0 <= i < known.tracks.len() && #[trigger] known.tracks[i].name == name;
    assert(known.with_request().tracks[i].name == name);
}

/// An alias that has been bound stays bound: binding it again is refused.
pub proof fn lemma_alias_bound_once(v: TrackManagerView, alias: u64, name: Seq<char>)
    ensures
        v.with_alias(alias, name).aliases.contains_key(alias),
        v.with_alias(alias, name).aliases[alias] == name,
        v.with_track_alias(name, alias).aliases.contains_key(alias),
        v.with_track_alias(name, alias).aliases[alias] == name,
{
}

/// A subscription that is started and then accepted under an unused alias
/// leaves the alias bound to the track and the request answered.
pub proof fn lemma_subscribe_then_ok(v: TrackManagerView, name: Seq<char>, alias: u64)
    requires
        v.wf(),
        v.request_counter < v.max_request_id,
        !v.aliases.contains_key(alias),
    ensures
        ({
            let id = v.request_counter;
            let started = v.with_subscription(name);
            let accepted = started.without_request(id).with_track_alias(name, alias);
            &&& started.requests.contains_key(id)
            &&& started.requests[id] == name
            &&& !started.aliases.contains_key(alias)
            &&& accepted.aliases.contains_key(alias)
            &&& accepted.aliases[alias] == name
            &&& !accepted.requests.contains_key(id)
        }),
{
}

/// The model of names held as text.
pub open spec fn names(m: Map<u64, String>) -> Map<u64, Seq<char>> {
    m.map_values(|s: String| s@)
}

/// The track manager of one session.
///
/// Where a list or a map of the manager changes, it is taken out, changed
/// and put back, so that the manager is in order at every step.
pub struct TrackManager {
    tracks: Vec<TrackState>,
    aliases: HashMap<TrackAlias, FullTrackName>,
    requests: HashMap<u64, FullTrackName>,
    request_counter: u64,
    max_request_id: u64,
}

impl View for TrackManager {
    type V = TrackManagerView;

    closed spec fn view(&self) -> TrackManagerView {
        TrackManagerView {
            tracks: self.tracks@.map_values(|t: TrackState| t@),
            aliases: names(self.aliases@),
            requests: names(self.requests@),
            request_counter: self.request_counter,
            max_request_id: self.max_request_id,
        }
    }
}

impl Default for TrackManager {
    fn default() -> (manager: TrackManager)
        ensures
            manager@ == TrackManagerView::initial(),
    {
        TrackManager::new()
    }
}

impl TrackManager {
    #[verifier::type_invariant]
    spec fn valid(&self) -> bool {
        self@.wf()
    }

    /// What holds of every manager, for those who reason about one.
    pub fn check_valid(&self)
        ensures
            self@.wf(),
    {
        proof {
            use_type_invariant(self);
        }
    }

    /// A manager that knows no track and may hand out no request ID yet.
    pub fn new() -> (manager: TrackManager)
        ensures
            manager@ == TrackManagerView::initial(),
    {
        let manager = TrackManager {
            tracks: Vec::new(),
            aliases: HashMap::new(),
            requests: HashMap::new(),
            request_counter: 0,
            max_request_id: 0,
        };
        proof {
            assert(manager@.tracks =~= Seq::empty());
            assert(manager@.aliases =~= Map::empty());
            assert(manager@.requests =~= Map::empty());
        }
        manager
    }

    /// The position of the track of this name among the known tracks.
    fn find_track(&self, name: &FullTrackName) -> (r: Option<usize>)
        ensures
            match r {
                Some(i) => i < self@.tracks.len() && self@.tracks[i as int].name == name@,
                None => !self@.has_track(name@),
            },
    {
        let mut i: usize = 0;
        while i < self.tracks.len()
            invariant
                i <= self.tracks@.len(),
                forall|k: int| 0 <= k < i ==> self.tracks@[k].name@ != name@,
            decreases self.tracks@.len() - i,
        {
            if self.tracks[i].name == *name {
                return Some(i);
            }
            i += 1;
        }
        None
    }

    /// Makes the track known. A track that is already known stays as it is.
    pub fn add_track(&mut self, name: FullTrackName)
        ensures
            final(self)@ == old(self)@.with_track(name@),
    {
        proof {
            use_type_invariant(&*self);
        }
        if self.find_track(&name).is_none() {
            let ghost before = self@;
            let mut tracks = Vec::new();
            std::mem::swap(&mut self.tracks, &mut tracks);
            tracks.push(TrackState { name, alias: None, subscribers: Vec::new() });
            proof {
                assert(tracks@.map_values(|t: TrackState| t@) =~= before.with_track(name@).tracks);
            }
            self.tracks = tracks;
        }
    }

    /// Binds `alias` to the track `name`. An alias that is bound already is
    /// refused and nothing changes.
    pub fn assign_alias(&mut self, alias: TrackAlias, name: FullTrackName) -> (r: Result<(), Error>)
        ensures
            if old(self)@.aliases.contains_key(alias) {
                &&& r == Err::<(), Error>(Error::DuplicateTrackAlias(alias))
                &&& final(self)@ == old(self)@
            } else {
                r is Ok && final(self)@ == old(self)@.with_alias(alias, name@)
            },
    {
        proof {
            use_type_invariant(&*self);
        }
        if self.aliases.contains_key(&alias) {
            return Err(Error::DuplicateTrackAlias(alias));
        }
        let ghost before = self@;
        let mut aliases = HashMap::new();
        std::mem::swap(&mut self.aliases, &mut aliases);
        aliases.insert(alias, name);
        proof {
            assert(names(aliases@) =~= before.aliases.insert(alias, name@));
        }
        self.aliases = aliases;
        Ok(())
    }

    /// Hands out the next request ID, or refuses where the peer's limit has
    /// been reached.
    pub fn new_request_id(&mut self) -> (r: Result<u64, Error>)
        ensures
            if old(self)@.request_counter < old(self)@.max_request_id {
                &&& r == Ok::<u64, Error>(old(self)@.request_counter)
                &&& final(self)@ == old(self)@.with_request()
            } else {
                r == Err::<u64, Error>(Error::TooManyRequests) && final(self)@ == old(self)@
            },
    {
        proof {
            use_type_invariant(&*self);
        }
        if self.request_counter >= self.max_request_id {
            return Err(Error::TooManyRequests);
        }
        let id: u64 = self.request_counter;
        self.request_counter = id + 1;
        Ok(id)
    }

    /// Binds `alias` to the track `name` and records the alias with the
    /// track, where the track is known. An alias that is bound already is
    /// refused and nothing changes.
    pub fn set_track_alias(&mut self, name: &FullTrackName, alias: TrackAlias) -> (r: Result<
        (),
        Error,
    >)
        ensures
            if old(self)@.aliases.contains_key(alias) {
                &&& r == Err::<(), Error>(Error::DuplicateTrackAlias(alias))
                &&& final(self)@ == old(self)@
            } else {
                r is Ok && final(self)@ == old(self)@.with_track_alias(name@, alias)
            },
    {
        proof {
            use_type_invariant(&*self);
        }
        let ghost before = self@;
        self.assign_alias(alias, name.clone())?;
        proof {
            use_type_invariant(&*self);
        }
        match self.find_track(name) {
            Some(i) => {
                let mut tracks = Vec::new();
                std::mem::swap(&mut self.tracks, &mut tracks);
                tracks[i].alias = Some(alias);
                proof {
                    assert(tracks@.map_values(|t: TrackState| t@) =~= before.with_track_alias(
                        name@,
                        alias,
                    ).tracks);
                }
                self.tracks = tracks;
            },
            None => {
                proof {
                    assert(self@.tracks =~= before.with_track_alias(name@, alias).tracks);
                }
            },
        }
        Ok(())
    }

    /// The track that `alias` stands for, if it is bound.
    pub fn resolve_alias(&self, alias: TrackAlias) -> (r: Option<FullTrackName>)
        ensures
            match r {
                Some(name) => self@.aliases.contains_key(alias) && self@.aliases[alias] == name@,
                None => !self@.aliases.contains_key(alias),
            },
    {
        match self.aliases.get(&alias) {
            Some(name) => Some(name.clone()),
            None => None,
        }
    }

    /// Raises the limit on request IDs to `new_max`. A value that does not
    /// exceed the limit in force is a violation of the protocol.
    pub fn handle_max_request_id(&mut self, new_max: u64) -> (r: Result<(), Error>)
        ensures
            if new_max <= old(self)@.max_request_id {
                &&& r matches Err(Error::ProtocolViolation { reason })
                &&& reason@ == "MAX_REQUEST_ID decreased"@
                &&& final(self)@ == old(self)@
            } else {
                r is Ok && final(self)@ == old(self)@.with_max(new_max)
            },
    {
        proof {
            use_type_invariant(&*self);
        }
        if new_max <= self.max_request_id {
            return Err(Error::violation("MAX_REQUEST_ID decreased"));
        }
        self.max_request_id = new_max;
        Ok(())
    }

    /// Starts a subscription to the track `name` and returns its request ID,
    /// which also names the subscriber. The track becomes known in any case;
    /// where the peer's limit has been reached, nothing else changes.
    pub fn subscribe_track(&mut self, name: FullTrackName) -> (r: Result<u64, Error>)
        ensures
            if old(self)@.request_counter < old(self)@.max_request_id {
                &&& r == Ok::<u64, Error>(old(self)@.request_counter)
                &&& final(self)@ == old(self)@.with_subscription(name@)
            } else {
                &&& r == Err::<u64, Error>(Error::TooManyRequests)
                &&& final(self)@ == old(self)@.with_track(name@)
            },
    {
        let ghost before = self@;
        self.add_track(name.clone());
        let id: u64 = self.new_request_id()?;
        proof {
            use_type_invariant(&*self);
        }
        match self.find_track(&name) {
            Some(i) => {
                let mut tracks = Vec::new();
                std::mem::swap(&mut self.tracks, &mut tracks);
                tracks[i].subscribers.push(id);
                proof {
                    assert(tracks@.map_values(|t: TrackState| t@) =~= before.with_subscription(
                        name@,
                    ).tracks);
                }
                self.tracks = tracks;
            },
            None => {
                proof {
                    lemma_track_known(before, name@);
                }
            },
        }
        let mut requests = HashMap::new();
        std::mem::swap(&mut self.requests, &mut requests);
        requests.insert(id, name);
        proof {
            assert(names(requests@) =~= before.with_subscription(name@).requests);
        }
        self.requests = requests;
        Ok(id)
    }

    /// The track that the unanswered request `id` asks for, if there is such
    /// a request.
    pub fn pending_request(&self, id: u64) -> (r: Option<FullTrackName>)
        ensures
            match r {
                Some(name) => self@.requests.contains_key(id) && self@.requests[id] == name@,
                None => !self@.requests.contains_key(id),
            },
    {
        match self.requests.get(&id) {
            Some(name) => Some(name.clone()),
            None => None,
        }
    }

    /// Takes the unanswered request `id` off the list and returns its track.
    fn take_request(&mut self, id: u64) -> (r: Option<FullTrackName>)
        ensures
            match r {
                Some(name) => old(self)@.requests.contains_key(id) && old(self)@.requests[id]
                    == name@ && final(self)@ == old(self)@.without_request(id),
                None => !old(self)@.requests.contains_key(id) && final(self)@ == old(self)@,
            },
    {
        proof {
            use_type_invariant(&*self);
        }
        let ghost before = self@;
        let ghost waiting = self.requests@;
        let mut requests = HashMap::new();
        std::mem::swap(&mut self.requests, &mut requests);
        let taken = requests.remove(&id);
        proof {
            assert(names(requests@) =~= before.requests.remove(id));
            if taken is Some {
                assert(waiting.contains_key(id));
                assert(names(waiting)[id] == waiting[id]@);
            } else {
                assert(before.requests.remove(id) =~= before.requests);
            }
        }
        self.requests = requests;
        taken
    }

    /// Handles SUBSCRIBE_OK: the request is answered, and the alias that the
    /// message names is bound to the track that was asked for. An answer to
    /// no request is a violation of the protocol and changes nothing. An
    /// alias that is bound already is refused; the request is answered all
    /// the same.
    pub fn handle_subscribe_ok(&mut self, ok: &SubscribeOk) -> (r: Result<(), Error>)
        ensures
            if !old(self)@.requests.contains_key(ok.request_id) {
                &&& r matches Err(Error::ProtocolViolation { reason })
                &&& reason@ == "unknown request"@
                &&& final(self)@ == old(self)@
            } else {
                let name = old(self)@.requests[ok.request_id];
                let answered = old(self)@.without_request(ok.request_id);
                if answered.aliases.contains_key(ok.track_alias) {
                    &&& r == Err::<(), Error>(Error::DuplicateTrackAlias(ok.track_alias))
                    &&& final(self)@ == answered
                } else {
                    r is Ok && final(self)@ == answered.with_track_alias(name, ok.track_alias)
                }
            },
    {
        match self.take_request(ok.request_id) {
            Some(name) => self.set_track_alias(&name, ok.track_alias),
            None => Err(Error::violation("unknown request")),
        }
    }

    /// Handles SUBSCRIBE_ERROR: the request is answered and nothing else
    /// changes. An answer to no request is a violation of the protocol.
    pub fn handle_subscribe_error(&mut self, error: &SubscribeError) -> (r: Result<(), Error>)
        ensures
            if !old(self)@.requests.contains_key(error.request_id) {
                &&& r matches Err(Error::ProtocolViolation { reason })
                &&& reason@ == "unknown request"@
                &&& final(self)@ == old(self)@
            } else {
                r is Ok && final(self)@ == old(self)@.without_request(error.request_id)
            },
    {
        match self.take_request(error.request_id) {
            Some(_) => Ok(()),
            None => Err(Error::violation("unknown request")),
        }
    }

    /// The subscribers that `object` goes to: those of the track that its
    /// alias stands for, in the order in which they subscribed.
    pub fn route(&self, object: &Object) -> (r: Vec<u64>)
        ensures
            r@ == self@.fan_out(object.metadata.track_alias),
    {
        self.subscribers(object.metadata.track_alias)
    }

    /// The subscribers that an object carrying `alias` goes to, in the order
    /// in which they subscribed.
    pub fn subscribers(&self, alias: TrackAlias) -> (r: Vec<u64>)
        ensures
            r@ == self@.fan_out(alias),
    {
        proof {
            use_type_invariant(self);
        }
        match self.aliases.get(&alias) {
            Some(name) => match self.find_track(name) {
                Some(i) => self.tracks[i].subscribers.clone(),
                None => Vec::new(),
            },
            None => Vec::new(),
        }
    }

    /// The next request ID to hand out.
    pub fn request_counter(&self) -> (n: u64)
        ensures
            n == self@.request_counter,
    {
        self.request_counter
    }

    /// The limit that request IDs stay below.
    pub fn max_request_id(&self) -> (n: u64)
        ensures
            n == self@.max_request_id,
    {
        self.max_request_id
    }
}

/// A track, by its name.
pub struct Track {
    pub name: FullTrackName,
}

/// The publishing side of a track, by the alias that objects carry.
pub struct TrackPublisher {
    track_alias: TrackAlias,
}

impl TrackPublisher {
    /// The publisher of the track that `track_alias` stands for.
    pub fn new(track_alias: TrackAlias) -> (publisher: TrackPublisher)
        ensures
            publisher.spec_alias() == track_alias,
    {
        TrackPublisher { track_alias }
    }

    /// The alias that the objects of this track carry.
    pub closed spec fn spec_alias(&self) -> TrackAlias {
        self.track_alias
    }

    /// The alias that the objects of this track carry.
    #[verifier::when_used_as_spec(spec_alias)]
    pub fn alias(&self) -> (alias: TrackAlias)
        ensures
            alias == self.spec_alias(),
    {
        self.track_alias
    }
}

/// What an object says of itself.
#[derive(Debug, Clone, Copy, PartialEq, Eq)]
pub struct ObjectMetadata {
    pub track_alias: u64,
    pub group_id: u64,
    pub object_id: u64,
    pub priority: u8,
}

/// One object of a track: what it says of itself, and its content, which
/// the manager carries and never looks into.
pub struct Object {
    pub metadata: ObjectMetadata,
    pub payload: Bytes,
}

} // verus!
