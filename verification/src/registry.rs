//! The connection registry: the in-memory index from room identifiers to
//! the send handles of the currently connected device and user sessions.
//!
//! The registry itself never touches a socket. Each operation updates the
//! index and returns which handles the surrounding runtime must write to or
//! close; the runtime owns the actual socket writers and maps each
//! `WebSocketSender` identifier to one.

use vstd::prelude::*;
use crate::assoc_map::AssocMap;
use crate::assoc_map::has_key;

verus! {

/// Identifies the outbound half of one accepted connection. The runtime
/// maps each identifier to the exclusively-owned socket writer it stands
/// for.
pub type WebSocketSender = u64;

/// Why a registry operation could not be carried out.
#[derive(Clone, Copy, PartialEq, Eq, Structural, Debug)]
pub enum RegistryError {
    /// The registry has been shut down; registrations and sends fail.
    Closed,
    /// No entry exists for the named room.
    NoSuchRoom,
    /// The room exists but holds no entry for the named address.
    NoSuchConnection,
}

impl RegistryError {
    /// A short description of the error.
    pub fn describe(&self) -> (r: String)
        ensures
            self matches RegistryError::Closed ==> r@ == "the registry is shut down"@,
            self matches RegistryError::NoSuchRoom ==> r@
                == "there's no recorded web socket connection with that ID"@,
            self matches RegistryError::NoSuchConnection ==> r@
                == "there's no user data with that address in this room"@,
    {
        match self {
            RegistryError::Closed => String::from_str("the registry is shut down"),
            RegistryError::NoSuchRoom => String::from_str(
                "there's no recorded web socket connection with that ID",
            ),
            RegistryError::NoSuchConnection => String::from_str(
                "there's no user data with that address in this room",
            ),
        }
    }
}

/// One message the runtime must write to one device handle.
#[derive(Debug)]
pub struct OutboundMessage {
    /// The handle to write to.
    pub ws_sender: WebSocketSender,
    /// The text frame to send.
    pub text: String,
}

/// One message the runtime must write to one user session's handle.
#[derive(Debug)]
pub struct UserDelivery {
    /// The connection address the recipient registered under.
    pub addr: String,
    /// The handle to write to.
    pub ws_sender: WebSocketSender,
    /// The text frame to send.
    pub text: String,
}

/// The abstract state of the registry: the two room indexes and whether the
/// registry has been shut down.
pub ghost struct RegistryView {
    /// At most one device handle per room.
    pub device_senders: Map<Seq<char>, WebSocketSender>,
    /// Zero or more user handles per room, keyed by connection address; a
    /// room is present only while it holds at least one handle.
    pub user_senders: Map<Seq<char>, Map<Seq<char>, WebSocketSender>>,
    /// Set once by `shutdown`, after which registrations and sends fail.
    pub closed: bool,
}

impl RegistryView {
    /// The state of a freshly created registry.
    pub open spec fn initial() -> RegistryView {
        RegistryView {
            device_senders: Map::empty(),
            user_senders: Map::empty(),
            closed: false,
        }
    }

    /// The state after `shutdown`: empty and closed.
    pub open spec fn after_shutdown() -> RegistryView {
        RegistryView { device_senders: Map::empty(), user_senders: Map::empty(), closed: true }
    }

    /// The user handles of `room`, or the empty map if the room has none.
    pub open spec fn room_users(self, room: Seq<char>) -> Map<Seq<char>, WebSocketSender> {
        if self.user_senders.contains_key(room) {
            self.user_senders[room]
        } else {
            Map::empty()
        }
    }

    /// The state after registering a device handle for `room`.
    pub open spec fn with_device(self, room: Seq<char>, h: WebSocketSender) -> RegistryView {
        RegistryView { device_senders: self.device_senders.insert(room, h), ..self }
    }

    /// The state after registering a user handle for `room` under `addr`.
    pub open spec fn with_user(
        self,
        room: Seq<char>,
        addr: Seq<char>,
        h: WebSocketSender,
    ) -> RegistryView {
        RegistryView {
            user_senders: self.user_senders.insert(room, self.room_users(room).insert(addr, h)),
            ..self
        }
    }

    /// The state after deregistering the user handle of `room` at `addr`;
    /// a room emptied by the removal disappears.
    pub open spec fn without_user(self, room: Seq<char>, addr: Seq<char>) -> RegistryView {
        let remaining = self.room_users(room).remove(addr);
        RegistryView {
            user_senders: if remaining.dom().len() == 0 {
                self.user_senders.remove(room)
            } else {
                self.user_senders.insert(room, remaining)
            },
            ..self
        }
    }

    /// The state after deregistering the device handle of `room`.
    pub open spec fn without_device(self, room: Seq<char>) -> RegistryView {
        RegistryView { device_senders: self.device_senders.remove(room), ..self }
    }

    /// Some room's device slot holds `h`.
    pub open spec fn has_device_sender(self, h: WebSocketSender) -> bool {
        exists|r: Seq<char>| #[trigger] self.device_senders.contains_key(r)
            && self.device_senders[r] == h
    }

    /// Some room holds a user handle `h`.
    pub open spec fn has_user_sender(self, h: WebSocketSender) -> bool {
        exists|r: Seq<char>, a: Seq<char>|
            #[trigger] self.user_senders.contains_key(r) && #[trigger] self.user_senders[r].contains_key(a)
                && self.user_senders[r][a] == h
    }

    /// Some entry of the registry holds `h`.
    pub open spec fn has_sender(self, h: WebSocketSender) -> bool {
        self.has_device_sender(h) || self.has_user_sender(h)
    }
}

/// Entry `ri` of a room-entry sequence holds the handle `h` under some
/// address.
pub open spec fn room_entry_has(
    s: Seq<(String, AssocMap<WebSocketSender>)>,
    ri: int,
    h: WebSocketSender,
) -> bool {
    exists|a: Seq<char>| (#[trigger] s[ri].1@.contains_key(a)) && s[ri].1@[a] == h
}

/// What `push` does to sequence membership.
proof fn lemma_push_contains(s: Seq<WebSocketSender>, v: WebSocketSender)
    ensures
        forall|h: WebSocketSender| #[trigger] s.push(v).contains(h) <==> (s.contains(h) || h == v),
{
    assert forall|h: WebSocketSender| #[trigger] s.push(v).contains(h) implies (s.contains(h) || h
        == v) by {
        let x = choose|x: int| 0 <= x < s.push(v).len() && s.push(v)[x] == h;
        if x < s.len() {
            assert(s[x] == h);
        }
    }
    assert forall|h: WebSocketSender| (s.contains(h) || h == v) implies #[trigger] s.push(
        v,
    ).contains(h) by {
        if s.contains(h) {
            let x = choose|x: int| 0 <= x < s.len() && s[x] == h;
            assert(s.push(v)[x] == h);
        } else {
            assert(s.push(v)[s.len() as int] == h);
        }
    }
}

/// The connection registry. See the module documentation.
pub struct WebSocketManager {
    user_senders: AssocMap<AssocMap<WebSocketSender>>,
    device_senders: AssocMap<WebSocketSender>,
    closed: bool,
}

impl View for WebSocketManager {
    type V = RegistryView;

    closed spec fn view(&self) -> RegistryView {
        RegistryView {
            device_senders: self.device_senders@,
            user_senders: self.user_senders@,
            closed: self.closed,
        }
    }
}

impl WebSocketManager {
    #[verifier::type_invariant]
    spec fn wf(self) -> bool {
        forall|r: Seq<char>|
            #[trigger] self.user_senders@.contains_key(r) ==> self.user_senders@[r].dom().finite()
                && self.user_senders@[r].dom().len() > 0
    }

    /// A fresh registry: no rooms, not shut down.
    pub fn new() -> (m: Self)
        ensures
            m@ == RegistryView::initial(),
    {
        let m = WebSocketManager {
            user_senders: AssocMap::new(),
            device_senders: AssocMap::new(),
            closed: false,
        };
        proof {
            assert(m@ =~= RegistryView::initial());
        }
        m
    }

    /// Whether `shutdown` has run.
    pub fn is_shut_down(&self) -> (r: bool)
        ensures
            r == self@.closed,
    {
        self.closed
    }

    /// The number of user sessions currently registered in room `room_id`,
    /// or nothing when the room has no user index.
    pub fn user_connection_count(&self, room_id: &str) -> (r: Option<usize>)
        ensures
            match r {
                Some(n) => self@.user_senders.contains_key(room_id@) && n
                    == self@.user_senders[room_id@].dom().len(),
                None => !self@.user_senders.contains_key(room_id@),
            },
    {
        proof {
            use_type_invariant(&*self);
        }
        let key = String::from_str(room_id);
        match self.user_senders.get(&key) {
            Some(sub) => Some(sub.len()),
            None => None,
        }
    }

    /// Whether room `room_id` currently has a device handle.
    pub fn has_device_connection(&self, room_id: &str) -> (r: bool)
        ensures
            r == self@.device_senders.contains_key(room_id@),
    {
        proof {
            use_type_invariant(&*self);
        }
        let key = String::from_str(room_id);
        self.device_senders.contains_key(&key)
    }

    /// Registers `ws_sender` as the single device handle of room
    /// `device_id`, replacing any prior handle. On success the returned
    /// value carries the replaced handle, if there was one: the caller must
    /// close it, so that no stale socket leaks. After shutdown the
    /// registration fails and the registry is unchanged.
    pub fn new_device_connection(&mut self, device_id: String, ws_sender: WebSocketSender) -> (r:
        Result<Option<WebSocketSender>, RegistryError>)
        ensures
            old(self)@.closed ==> r == Err::<Option<WebSocketSender>, RegistryError>(
                RegistryError::Closed,
            ) && final(self)@ == old(self)@,
            !old(self)@.closed ==> {
                &&& final(self)@ == old(self)@.with_device(device_id@, ws_sender)
                &&& r matches Ok(prev)
                &&& match prev {
                    Some(h) => old(self)@.device_senders.contains_key(device_id@) && h == old(self)@.device_senders[device_id@],
                    None => !old(self)@.device_senders.contains_key(device_id@),
                }
            },
    {
        proof {
            use_type_invariant(&*self);
        }
        if self.closed {
            return Err(RegistryError::Closed);
        }
        let ghost room = device_id@;
        let mut devices: AssocMap<WebSocketSender> = AssocMap::new();
        std::mem::swap(&mut devices, &mut self.device_senders);
        let prev = devices.insert(device_id, ws_sender);
        std::mem::swap(&mut devices, &mut self.device_senders);
        proof {
            assert(final(self)@ =~= old(self)@.with_device(room, ws_sender));
        }
        Ok(prev)
    }

    /// Registers `ws_sender` as a user handle of room `device_id` under the
    /// connection address `addr`, creating the room's user index on first
    /// use. After shutdown the registration fails and the registry is
    /// unchanged.
    pub fn new_user_connection(
        &mut self,
        device_id: String,
        addr: String,
        ws_sender: WebSocketSender,
    ) -> (r: Result<(), RegistryError>)
        ensures
            old(self)@.closed ==> r == Err::<(), RegistryError>(RegistryError::Closed) && final(self)@ == old(self)@,
            !old(self)@.closed ==> r == Ok::<(), RegistryError>(()) && final(self)@ == old(self)@.with_user(device_id@, addr@, ws_sender),
    {
        proof {
            use_type_invariant(&*self);
        }
        if self.closed {
            return Err(RegistryError::Closed);
        }
        let ghost room = device_id@;
        let ghost av = addr@;
        let mut users: AssocMap<AssocMap<WebSocketSender>> = AssocMap::new();
        std::mem::swap(&mut users, &mut self.user_senders);
        let mut sub: AssocMap<WebSocketSender> = match users.remove(&device_id) {
            Some(existing) => existing,
            None => AssocMap::new(),
        };
        sub.insert(addr, ws_sender);
        users.insert(device_id, sub);
        std::mem::swap(&mut users, &mut self.user_senders);
        proof {
            assert(old(self)@.user_senders.remove(room).insert(
                room,
                old(self)@.room_users(room).insert(av, ws_sender),
            ) =~= old(self)@.user_senders.insert(
                room,
                old(self)@.room_users(room).insert(av, ws_sender),
            ));
            assert(final(self)@ =~= old(self)@.with_user(room, av, ws_sender));
        }
        Ok(())
    }

    /// The message the runtime must send to room `id`'s device handle, or
    /// why none can be sent: the registry is shut down, or no device is
    /// registered for that room.
    pub fn send_device_message(&self, id: &str, message: &str) -> (r: Result<
        OutboundMessage,
        RegistryError,
    >)
        ensures
            self@.closed ==> (r matches Err(e) && e == RegistryError::Closed),
            !self@.closed && !self@.device_senders.contains_key(id@) ==> (r matches Err(e) && e
                == RegistryError::NoSuchRoom),
            !self@.closed && self@.device_senders.contains_key(id@) ==> (r matches Ok(m)
                && m.ws_sender == self@.device_senders[id@] && m.text@ == message@),
    {
        proof {
            use_type_invariant(&*self);
        }
        if self.closed {
            return Err(RegistryError::Closed);
        }
        let key = String::from_str(id);
        match self.device_senders.get(&key) {
            Some(h) => Ok(OutboundMessage { ws_sender: *h, text: String::from_str(message) }),
            None => Err(RegistryError::NoSuchRoom),
        }
    }

    /// The messages the runtime must send to every user handle currently
    /// registered in room `id` — exactly one per registered address — or
    /// why none can be sent: the registry is shut down, or no user index
    /// exists for that room ("no such room"). A room with zero registered
    /// users has no user index, so broadcasting to it reports `NoSuchRoom`
    /// and produces no deliveries.
    #[verifier::rlimit(50)]
    #[verifier::spinoff_prover]
    pub fn send_user_message(&self, id: &str, message: &str) -> (r: Result<
        Vec<UserDelivery>,
        RegistryError,
    >)
        ensures
            self@.closed ==> (r matches Err(e) && e == RegistryError::Closed),
            !self@.closed && !self@.user_senders.contains_key(id@) ==> (r matches Err(e) && e
                == RegistryError::NoSuchRoom),
            !self@.closed && self@.user_senders.contains_key(id@) ==> (r matches Ok(ds) && {
                let room = self@.user_senders[id@];
                &&& ds@.len() == room.dom().len()
                &&& forall|i: int|
                    0 <= i < ds@.len() ==> room.contains_key((#[trigger] ds@[i]).addr@)
                        && ds@[i].ws_sender == room[ds@[i].addr@] && ds@[i].text@ == message@
                &&& forall|a: Seq<char>|
                    #[trigger] room.contains_key(a) ==> exists|i: int|
                        0 <= i < ds@.len() && (#[trigger] ds@[i]).addr@ == a
                &&& forall|i: int, j: int|
                    0 <= i < j < ds@.len() ==> (#[trigger] ds@[i]).addr@ != (
                    #[trigger] ds@[j]).addr@
            }),
    {
        proof {
            use_type_invariant(&*self);
        }
        if self.closed {
            return Err(RegistryError::Closed);
        }
        let key = String::from_str(id);
        let sub = match self.user_senders.get(&key) {
            Some(sub) => sub,
            None => {
                return Err(RegistryError::NoSuchRoom);
            },
        };
        let pairs = sub.entries_cloned();
        let ghost room = self@.user_senders[id@];
        let mut out: Vec<UserDelivery> = Vec::new();
        let n = pairs.len();
        let mut i: usize = 0;
        while i < n
            invariant
                n == pairs@.len(),
                i <= n,
                out@.len() == i,
                forall|j: int|
                    0 <= j < i ==> (#[trigger] out@[j]).addr@ == pairs@[j].0@ && out@[j].ws_sender
                        == pairs@[j].1 && out@[j].text@ == message@,
            decreases n - i,
        {
            let (addr, h) = (pairs[i].0.clone(), pairs[i].1);
            out.push(UserDelivery { addr, ws_sender: h, text: String::from_str(message) });
            i += 1;
        }
        proof {
            assert forall|i2: int| 0 <= i2 < out@.len() implies room.contains_key(
                (#[trigger] out@[i2]).addr@,
            ) && out@[i2].ws_sender == room[out@[i2].addr@] && out@[i2].text@ == message@ by {
                assert(pairs@[i2].0@ == out@[i2].addr@);
            }
            assert forall|a: Seq<char>| #[trigger] room.contains_key(a) implies exists|i2: int|
                0 <= i2 < out@.len() && (#[trigger] out@[i2]).addr@ == a by {
                let j = choose|j: int| 0 <= j < pairs@.len() && (#[trigger] pairs@[j]).0@ == a;
                assert((out@[j]).addr@ == a);
            }
            assert forall|a: int, b: int| 0 <= a < b < out@.len() implies (
            #[trigger] out@[a]).addr@ != (#[trigger] out@[b]).addr@ by {
                assert(pairs@[a].0@ != pairs@[b].0@);
            }
        }
        Ok(out)
    }

    /// Shuts the registry down: empties both room indexes, marks the
    /// registry closed, and returns every handle that was registered — the
    /// runtime must send a close frame on each, so that removal from the
    /// index and socket closure happen together. Later registrations and
    /// sends fail with `Closed`.
    pub fn shutdown(&mut self) -> (handles: Vec<WebSocketSender>)
        ensures
            final(self)@ == RegistryView::after_shutdown(),
            forall|h: WebSocketSender| #[trigger] handles@.contains(h) <==> old(self)@.has_sender(
                h,
            ),
    {
        proof {
            use_type_invariant(&*self);
        }
        let ghost uv = self.user_senders@;
        let ghost dv = self.device_senders@;
        let mut users: AssocMap<AssocMap<WebSocketSender>> = AssocMap::new();
        std::mem::swap(&mut users, &mut self.user_senders);
        let mut devices: AssocMap<WebSocketSender> = AssocMap::new();
        std::mem::swap(&mut devices, &mut self.device_senders);
        self.closed = true;
        proof {
            assert(final(self)@ =~= RegistryView::after_shutdown());
        }
        let mut handles: Vec<WebSocketSender> = Vec::new();
        let rooms = users.into_entries();
        let nrooms = rooms.len();
        let mut i: usize = 0;
        while i < nrooms
            invariant
                nrooms == rooms@.len(),
                i <= nrooms,
                forall|h: WebSocketSender| #[trigger] handles@.contains(h) <==> exists|ri: int|
                    0 <= ri < i && room_entry_has(rooms@, ri, h),
            decreases nrooms - i,
        {
            let pairs = rooms[i].1.entries_cloned();
            let np = pairs.len();
            let mut j: usize = 0;
            while j < np
                invariant
                    np == pairs@.len(),
                    j <= np,
                    nrooms == rooms@.len(),
                    i < nrooms,
                    forall|i2: int|
                        0 <= i2 < pairs@.len() ==> rooms@[i as int].1@.contains_key(
                            (#[trigger] pairs@[i2]).0@,
                        ) && pairs@[i2].1 == rooms@[i as int].1@[pairs@[i2].0@],
                    forall|h: WebSocketSender| #[trigger] handles@.contains(h) <==> (exists|
                        ri: int,
                    |
                        0 <= ri < i && room_entry_has(rooms@, ri, h)) || (exists|j2: int|
                        0 <= j2 < j && (#[trigger] pairs@[j2]).1 == h),
                decreases np - j,
            {
                let ghost before = handles@;
                let h = pairs[j].1;
                handles.push(h);
                proof {
                    lemma_push_contains(before, h);
                    assert(pairs@[j as int].1 == h);
                }
                j += 1;
            }
            proof {
                let ghost prev = i as int;
                assert forall|h: WebSocketSender| #[trigger] handles@.contains(h) implies exists|
                    ri: int,
                |
                    0 <= ri < prev + 1 && room_entry_has(rooms@, ri, h) by {
                    if exists|ri: int| 0 <= ri < prev && room_entry_has(rooms@, ri, h) {
                        let ri = choose|ri: int|
                            0 <= ri < prev && #[trigger] room_entry_has(rooms@, ri, h);
                        assert(room_entry_has(rooms@, ri, h));
                    } else {
                        let j2 = choose|j2: int|
                            0 <= j2 < pairs@.len() && (#[trigger] pairs@[j2]).1 == h;
                        assert(rooms@[prev].1@.contains_key(pairs@[j2].0@));
                        assert(room_entry_has(rooms@, prev, h));
                    }
                }
                assert forall|h: WebSocketSender|
                    (exists|ri: int| 0 <= ri < prev + 1 && room_entry_has(rooms@, ri, h)) implies
                    #[trigger] handles@.contains(h) by {
                    let ri = choose|ri: int|
                        0 <= ri < prev + 1 && #[trigger] room_entry_has(rooms@, ri, h);
                    if ri < prev {
                        assert(exists|ri2: int| 0 <= ri2 < prev && room_entry_has(rooms@, ri2, h));
                    } else {
                        let a = choose|a: Seq<char>|
                            (#[trigger] rooms@[prev].1@.contains_key(a)) && rooms@[prev].1@[a]
                                == h;
                        assert(crate::assoc_map::has_key(pairs@, a));
                        let j2 = choose|j2: int|
                            0 <= j2 < pairs@.len() && (#[trigger] pairs@[j2]).0@ == a;
                        assert(pairs@[j2].1 == h);
                    }
                }
            }
            i += 1;
        }
        proof {
            assert(uv == old(self)@.user_senders);
            assert forall|h: WebSocketSender| #[trigger] handles@.contains(h) implies old(
                self,
            )@.has_user_sender(h) by {
                let ri = choose|ri: int|
                    0 <= ri < rooms@.len() && #[trigger] room_entry_has(rooms@, ri, h);
                let a = choose|a: Seq<char>|
                    (#[trigger] rooms@[ri].1@.contains_key(a)) && rooms@[ri].1@[a] == h;
                let r = rooms@[ri].0@;
                assert(old(self)@.user_senders.contains_key(r));
                assert(old(self)@.user_senders[r].contains_key(a));
                assert(old(self)@.user_senders[r][a] == h);
            }
            assert forall|h: WebSocketSender| old(self)@.has_user_sender(h) implies
                #[trigger] handles@.contains(h) by {
                let (r, a) = choose|r: Seq<char>, a: Seq<char>|
                    (#[trigger] uv.contains_key(r)) && (#[trigger] uv[r].contains_key(a))
                        && uv[r][a] == h;
                assert(crate::assoc_map::has_key(rooms@, r));
                let ri = choose|ri: int|
                    0 <= ri < rooms@.len() && (#[trigger] rooms@[ri]).0@ == r;
                assert(rooms@[ri].1@ == uv[r]);
                assert(room_entry_has(rooms@, ri, h));
            }
        }
        let ghost user_part = handles@;
        let pairs = devices.entries_cloned();
        let np = pairs.len();
        let mut j: usize = 0;
        while j < np
            invariant
                np == pairs@.len(),
                j <= np,
                forall|i2: int|
                    0 <= i2 < pairs@.len() ==> dv.contains_key((#[trigger] pairs@[i2]).0@)
                        && pairs@[i2].1 == dv[pairs@[i2].0@],
                forall|k: Seq<char>| #[trigger] dv.contains_key(k) ==> has_key(pairs@, k),
                forall|h: WebSocketSender| #[trigger] handles@.contains(h) <==> (
                user_part.contains(h) || (exists|j2: int|
                    0 <= j2 < j && (#[trigger] pairs@[j2]).1 == h)),
            decreases np - j,
        {
            let ghost before = handles@;
            let h = pairs[j].1;
            handles.push(h);
            proof {
                lemma_push_contains(before, h);
                assert(pairs@[j as int].1 == h);
            }
            j += 1;
        }
        proof {
            assert(dv == old(self)@.device_senders);
            assert forall|h: WebSocketSender| #[trigger] handles@.contains(h) implies old(
                self,
            )@.has_sender(h) by {
                if !user_part.contains(h) {
                    let j2 = choose|j2: int|
                        0 <= j2 < pairs@.len() && (#[trigger] pairs@[j2]).1 == h;
                    let r = pairs@[j2].0@;
                    assert(old(self)@.device_senders.contains_key(r));
                    assert(old(self)@.device_senders[r] == h);
                    assert(old(self)@.has_device_sender(h));
                }
            }
            assert forall|h: WebSocketSender| old(self)@.has_sender(h) implies
                #[trigger] handles@.contains(h) by {
                if old(self)@.has_device_sender(h) {
                    let r = choose|r: Seq<char>|
                        (#[trigger] dv.contains_key(r)) && dv[r] == h;
                    assert(has_key(pairs@, r));
                    let j2 = choose|j2: int|
                        0 <= j2 < pairs@.len() && (#[trigger] pairs@[j2]).0@ == r;
                    assert(pairs@[j2].1 == h);
                } else {
                    assert(user_part.contains(h));
                }
            }
        }
        handles
    }

    /// Deregisters the device handle of room `room_id` only when it still
    /// is `ws_sender`: a session tearing down must not evict a replacement
    /// that registered meanwhile. Reports `NoSuchRoom` when the room has no
    /// device handle and `NoSuchConnection` when another handle holds the
    /// slot, leaving the registry unchanged either way.
    pub fn remove_own_device_connection(&mut self, room_id: &str, ws_sender: WebSocketSender) -> (r:
        Result<(), RegistryError>)
        ensures
            !old(self)@.device_senders.contains_key(room_id@) ==> r == Err::<(), RegistryError>(
                RegistryError::NoSuchRoom,
            ) && final(self)@ == old(self)@,
            old(self)@.device_senders.contains_key(room_id@)
                && old(self)@.device_senders[room_id@] != ws_sender ==> r == Err::<
                (),
                RegistryError,
            >(RegistryError::NoSuchConnection) && final(self)@ == old(self)@,
            old(self)@.device_senders.contains_key(room_id@)
                && old(self)@.device_senders[room_id@] == ws_sender ==> r == Ok::<
                (),
                RegistryError,
            >(()) && final(self)@ == old(self)@.without_device(room_id@),
    {
        proof {
            use_type_invariant(&*self);
        }
        let key = String::from_str(room_id);
        let current = match self.device_senders.get(&key) {
            Some(h) => *h,
            None => {
                return Err(RegistryError::NoSuchRoom);
            },
        };
        if current != ws_sender {
            return Err(RegistryError::NoSuchConnection);
        }
        self.remove_device_connection(room_id)
    }

    /// Deregisters the user handle of room `room_id` at address `addr`.
    /// Reports `NoSuchRoom` or `NoSuchConnection` — leaving the registry
    /// unchanged — when no such entry exists; a room emptied by the removal
    /// disappears.
    pub fn remove_user_connection(&mut self, room_id: &str, addr: &str) -> (r: Result<
        (),
        RegistryError,
    >)
        ensures
            !old(self)@.user_senders.contains_key(room_id@) ==> r == Err::<(), RegistryError>(
                RegistryError::NoSuchRoom,
            ) && final(self)@ == old(self)@,
            old(self)@.user_senders.contains_key(room_id@) && !old(self)@.user_senders[room_id@].contains_key(addr@) ==> r == Err::<(), RegistryError>(
                RegistryError::NoSuchConnection,
            ) && final(self)@ == old(self)@,
            old(self)@.user_senders.contains_key(room_id@) && old(self)@.user_senders[room_id@].contains_key(addr@) ==> r == Ok::<(), RegistryError>(())
                && final(self)@ == old(self)@.without_user(room_id@, addr@),
    {
        proof {
            use_type_invariant(&*self);
        }
        let ghost room = room_id@;
        let ghost av = addr@;
        let room_key = String::from_str(room_id);
        let addr_key = String::from_str(addr);
        let mut users: AssocMap<AssocMap<WebSocketSender>> = AssocMap::new();
        std::mem::swap(&mut users, &mut self.user_senders);
        let mut sub: AssocMap<WebSocketSender> = match users.remove(&room_key) {
            Some(existing) => existing,
            None => {
                std::mem::swap(&mut users, &mut self.user_senders);
                proof {
                    assert(old(self)@.user_senders.remove(room) =~= old(self)@.user_senders);
                    assert(final(self)@ =~= old(self)@);
                }
                return Err(RegistryError::NoSuchRoom);
            },
        };
        let removed = sub.remove(&addr_key);
        if removed.is_none() {
            users.insert(room_key, sub);
            std::mem::swap(&mut users, &mut self.user_senders);
            proof {
                assert(old(self)@.user_senders[room].remove(av) =~= old(self)@.user_senders[room]);
                assert(old(self)@.user_senders.remove(room).insert(
                    room,
                    old(self)@.user_senders[room],
                ) =~= old(self)@.user_senders);
                assert(final(self)@ =~= old(self)@);
            }
            return Err(RegistryError::NoSuchConnection);
        }
        if sub.len() == 0 {
            std::mem::swap(&mut users, &mut self.user_senders);
            proof {
                assert(old(self)@.user_senders[room].remove(av).dom().len() == 0);
                assert(final(self)@ =~= old(self)@.without_user(room, av));
            }
        } else {
            users.insert(room_key, sub);
            std::mem::swap(&mut users, &mut self.user_senders);
            proof {
                assert(old(self)@.user_senders[room].remove(av).dom().len() != 0);
                assert(old(self)@.user_senders.remove(room).insert(
                    room,
                    old(self)@.user_senders[room].remove(av),
                ) =~= old(self)@.user_senders.insert(
                    room,
                    old(self)@.user_senders[room].remove(av),
                ));
                assert(final(self)@ =~= old(self)@.without_user(room, av));
            }
        }
        Ok(())
    }

    /// Deregisters the device handle of room `room_id`. Reports
    /// `NoSuchRoom` — leaving the registry unchanged — when the room has no
    /// device handle.
    pub fn remove_device_connection(&mut self, room_id: &str) -> (r: Result<(), RegistryError>)
        ensures
            !old(self)@.device_senders.contains_key(room_id@) ==> r == Err::<(), RegistryError>(
                RegistryError::NoSuchRoom,
            ) && final(self)@ == old(self)@,
            old(self)@.device_senders.contains_key(room_id@) ==> r == Ok::<(), RegistryError>(())
                && final(self)@ == old(self)@.without_device(room_id@),
    {
        proof {
            use_type_invariant(&*self);
        }
        let ghost room = room_id@;
        let room_key = String::from_str(room_id);
        let mut devices: AssocMap<WebSocketSender> = AssocMap::new();
        std::mem::swap(&mut devices, &mut self.device_senders);
        let removed = devices.remove(&room_key);
        std::mem::swap(&mut devices, &mut self.device_senders);
        match removed {
            Some(_) => {
                proof {
                    assert(final(self)@ =~= old(self)@.without_device(room));
                }
                Ok(())
            },
            None => {
                proof {
                    assert(old(self)@.device_senders.remove(room) =~= old(self)@.device_senders);
                    assert(final(self)@ =~= old(self)@);
                }
                Err(RegistryError::NoSuchRoom)
            },
        }
    }
}

} // verus!
