//! The session supervisor's state machine: one connection's life from the
//! handshake gate through identity and topology resolution, registration,
//! the frame read-loop, and teardown.
//!
//! The machine is a pure step function from a phase and an event to the
//! next phase and the action the surrounding runtime must perform —
//! querying a resolver, registering handles, broadcasting a payload,
//! closing the socket. The runtime performs the action and feeds the
//! outcome back in as the next event. Terminal failures before the session
//! is active close the connection and never register anything.

use vstd::prelude::*;
use crate::handshake::UpgradeRejection;
use crate::model::Connection;
use crate::model::Device;
use crate::model::User;
use crate::text::find_from;
use crate::text::find_char_in;
use crate::text::lemma_find_from_unique;

verus! {

/// The resolved principal behind a connection's bearer token.
pub enum Identity {
    /// The token belongs to a user, an observer of rooms.
    User(User),
    /// The token belongs to a device, the sender of a room.
    Device(Device),
}

/// Which kind of principal an identity is.
#[derive(Clone, Copy, PartialEq, Eq, Structural, Debug)]
pub enum IdentityKind {
    /// A user connection.
    User,
    /// A device connection.
    Device,
}

impl Identity {
    /// Which kind of principal this is.
    pub open spec fn spec_kind(&self) -> IdentityKind {
        match self {
            Identity::User(_) => IdentityKind::User,
            Identity::Device(_) => IdentityKind::Device,
        }
    }

    /// The principal's stored identifier.
    pub open spec fn spec_id(&self) -> Seq<char> {
        match self {
            Identity::User(u) => u.id@,
            Identity::Device(d) => d.id@,
        }
    }

    /// Which kind of principal this is.
    pub fn kind(&self) -> (k: IdentityKind)
        ensures
            k == self.spec_kind(),
    {
        match self {
            Identity::User(_) => IdentityKind::User,
            Identity::Device(_) => IdentityKind::Device,
        }
    }

    /// The principal's stored identifier, cloned.
    pub fn id_cloned(&self) -> (r: String)
        ensures
            r@ == self.spec_id(),
    {
        match self {
            Identity::User(u) => u.id.clone(),
            Identity::Device(d) => d.id.clone(),
        }
    }
}

/// How a transport ended: an expected disconnect (peer closed or reset) or
/// an unexpected protocol error. Both end the session; the kind matters
/// only for logging severity.
#[derive(Clone, Copy, PartialEq, Eq, Structural, Debug)]
pub enum DisconnectKind {
    /// The peer closed or the connection reset.
    Expected,
    /// A protocol error.
    Unexpected,
}

/// The protocol-level close code a failing session sends.
#[derive(Clone, Copy, PartialEq, Eq, Structural, Debug)]
pub enum SessionCloseCode {
    /// Policy violation: the unauthorized case.
    Policy,
    /// A fault before registration.
    Error,
}

/// The close frame a failing session sends before it ends.
pub struct CloseDirective {
    /// The protocol-level close code.
    pub code: SessionCloseCode,
    /// The close reason.
    pub reason: String,
}

/// Where in its lifecycle a session stands. The protocol upgrade and the
/// first resolver query happen together, as do registration and entry into
/// the read-loop, so the momentary stages between them need no phase of
/// their own.
pub enum SessionPhase {
    /// Nothing has happened yet; the handshake gate is about to run.
    Connecting,
    /// The header check extracted a candidate token; the upgrade is completing.
    HeaderChecked {
        /// The raw token, not yet validated.
        access_token: String,
    },
    /// The upgrade completed; the identity resolver has been queried.
    Authenticating {
        /// The raw token the resolver was queried with.
        access_token: String,
    },
    /// The token resolved to a principal; the topology resolver has been
    /// queried for its room memberships.
    ResolvingTopology {
        /// The resolved principal.
        identity: Identity,
    },
    /// A non-empty membership set arrived; the handles are being
    /// registered.
    TopologyResolved {
        /// The resolved principal.
        identity: Identity,
        /// Its room memberships, one registration each.
        memberships: Vec<Connection>,
    },
    /// Registered and in the read-loop.
    Active {
        /// The resolved principal.
        identity: Identity,
        /// The memberships it registered under.
        memberships: Vec<Connection>,
    },
    /// The read-loop ended; the session's handles are being deregistered.
    Closing,
    /// The session is over.
    Closed,
}

/// What the runtime observed, handed to the step function.
pub enum SessionEvent {
    /// The handshake gate ran on the upgrade request's headers.
    HeaderInspected {
        /// The extracted token, or the rejection to answer with.
        outcome: Result<String, UpgradeRejection>,
    },
    /// The protocol upgrade completed.
    UpgradeCompleted,
    /// The protocol upgrade failed; no socket opened.
    UpgradeFailed,
    /// The identity resolver answered.
    IdentityResolved {
        /// What the token resolved to.
        outcome: ResolveOutcome,
    },
    /// The topology resolver answered.
    TopologyReturned {
        /// The memberships, or the lookup fault.
        outcome: TopologyOutcome,
    },
    /// Every membership was registered in the registry.
    RegistrationCompleted,
    /// A text frame arrived.
    TextFrameReceived {
        /// The frame's text.
        text: String,
    },
    /// A non-text frame arrived.
    NonTextFrameReceived,
    /// The transport ended the read-loop.
    TransportEnded {
        /// Whether the end was an expected disconnect.
        kind: DisconnectKind,
    },
    /// The session's handles were deregistered.
    DeregistrationCompleted,
}

/// What the identity resolver answered: the user space is tried first,
/// then the device space; only both empty is `NotFound`.
pub enum ResolveOutcome {
    /// The token belongs to this principal.
    Found {
        /// The resolved principal.
        identity: Identity,
    },
    /// Neither a user nor a device carries the token.
    NotFound,
    /// The lookup itself failed.
    Fault,
}

/// What the topology resolver answered.
pub enum TopologyOutcome {
    /// The memberships of the principal, possibly none.
    Memberships {
        /// One room connection per membership.
        connections: Vec<Connection>,
    },
    /// The lookup itself failed.
    Fault,
}

/// What the runtime must do after a step.
pub enum SessionAction {
    /// Let the protocol upgrade proceed.
    ProceedUpgrade,
    /// Answer the upgrade request with this rejection; no socket opens.
    RejectUpgrade {
        /// The status and body to answer with.
        rejection: UpgradeRejection,
    },
    /// Drop the connection without further protocol traffic.
    AbandonConnection,
    /// Query the identity resolver with the token.
    ResolveIdentity {
        /// The candidate bearer token.
        access_token: String,
    },
    /// Query the topology resolver for the principal's memberships.
    ResolveTopology {
        /// Which identity space the principal was found in.
        kind: IdentityKind,
        /// The principal's identifier.
        id: String,
    },
    /// Register the session's handle in each room, under the device or
    /// user rule for the kind.
    Register {
        /// Which slot rule to register under.
        kind: IdentityKind,
        /// The rooms to register in.
        rooms: Vec<String>,
    },
    /// Send a close frame and end the session.
    CloseConnection {
        /// The close code and reason.
        directive: CloseDirective,
    },
    /// Route the payload to every user handle of each room.
    Broadcast {
        /// The rooms to broadcast to.
        rooms: Vec<String>,
        /// The payload to deliver.
        payload: String,
    },
    /// Log the frame; nothing is routed.
    Observe,
    /// Await the next frame.
    Listen,
    /// Remove the session's handles from each room.
    Deregister {
        /// Which slot rule the handles were registered under.
        kind: IdentityKind,
        /// The rooms registered in.
        rooms: Vec<String>,
    },
    /// The session is fully over.
    Finished,
}

/// The room identifiers of a membership sequence.
pub open spec fn room_views(conns: Seq<Connection>) -> Seq<Seq<char>> {
    Seq::new(conns.len(), |i: int| conns[i].room_id@)
}

/// The views of a string sequence.
pub open spec fn str_views(v: Seq<String>) -> Seq<Seq<char>> {
    Seq::new(v.len(), |i: int| v[i]@)
}

/// The payload of a recognized device data frame: the prefix `data`, a
/// colon, then the payload up to the next colon or the frame's end.
pub open spec fn data_frame_payload(s: Seq<char>) -> Option<Seq<char>> {
    if s.len() >= 4 && s[0] == 'd' && s[1] == 'a' && s[2] == 't' && s[3] == 'a' && find_from(
        s,
        0,
        ':',
    ) < s.len() {
        let c1 = find_from(s, 0, ':');
        Some(s.subrange(c1 + 1, find_from(s, c1 + 1, ':')))
    } else {
        None
    }
}

/// Parses a device data frame, exactly as `data_frame_payload` describes.
pub fn parse_data_frame(text: &str) -> (r: Option<String>)
    ensures
        match r {
            Some(p) => data_frame_payload(text@) == Some(p@),
            None => data_frame_payload(text@) is None,
        },
{
    let n = text.unicode_len();
    if n < 4 {
        return None;
    }
    if text.get_char(0) != 'd' || text.get_char(1) != 'a' || text.get_char(2) != 't'
        || text.get_char(3) != 'a' {
        return None;
    }
    let c1 = find_char_in(text, 0, n, ':');
    proof {
        lemma_find_from_unique(text@, 0, ':', c1 as int);
    }
    if c1 == n {
        return None;
    }
    let c2 = find_char_in(text, c1 + 1, n, ':');
    proof {
        lemma_find_from_unique(text@, c1 + 1, ':', c2 as int);
    }
    let payload = text.substring_char(c1 + 1, c2);
    Some(String::from_str(payload))
}

/// The room identifiers of each membership, cloned.
pub fn membership_rooms(conns: &Vec<Connection>) -> (out: Vec<String>)
    ensures
        str_views(out@) == room_views(conns@),
{
    let n = conns.len();
    let mut out: Vec<String> = Vec::new();
    let mut i: usize = 0;
    while i < n
        invariant
            n == conns@.len(),
            i <= n,
            out@.len() == i,
            forall|j: int| 0 <= j < i ==> (#[trigger] out@[j])@ == conns@[j].room_id@,
        decreases n - i,
    {
        out.push(conns[i].room_id.clone());
        i += 1;
    }
    proof {
        assert(str_views(out@) =~= room_views(conns@));
    }
    out
}

/// Whether the machine expects `event` in `phase`; any other pairing is a
/// runtime fault and abandons the connection.
pub open spec fn expected_event(phase: &SessionPhase, event: &SessionEvent) -> bool {
    ||| (phase matches SessionPhase::Connecting && event matches SessionEvent::HeaderInspected {
        ..
    })
    ||| (phase matches SessionPhase::HeaderChecked { .. } && (event
        matches SessionEvent::UpgradeCompleted || event matches SessionEvent::UpgradeFailed))
    ||| (phase matches SessionPhase::Authenticating { .. } && event
        matches SessionEvent::IdentityResolved { .. })
    ||| (phase matches SessionPhase::ResolvingTopology { .. } && event
        matches SessionEvent::TopologyReturned { .. })
    ||| (phase matches SessionPhase::TopologyResolved { .. } && event
        matches SessionEvent::RegistrationCompleted)
    ||| (phase matches SessionPhase::Active { .. } && (event
        matches SessionEvent::TextFrameReceived { .. } || event
        matches SessionEvent::NonTextFrameReceived || event matches SessionEvent::TransportEnded {
        ..
    }))
    ||| (phase matches SessionPhase::Closing && event
        matches SessionEvent::DeregistrationCompleted)
}

/// One step of the session machine: from the current phase and the
/// observed event to the next phase and the runtime's next action.
pub fn step(phase: SessionPhase, event: SessionEvent) -> (r: (SessionPhase, SessionAction))
    ensures
        !expected_event(&phase, &event) ==> r == (
            SessionPhase::Closed,
            SessionAction::AbandonConnection,
        ),
        phase matches SessionPhase::Connecting ==> event
            matches SessionEvent::HeaderInspected { outcome } ==> match outcome {
            Ok(token) => r == (
                SessionPhase::HeaderChecked { access_token: token },
                SessionAction::ProceedUpgrade,
            ),
            Err(rejection) => r == (
                SessionPhase::Closed,
                SessionAction::RejectUpgrade { rejection },
            ),
        },
        phase matches SessionPhase::HeaderChecked { access_token } ==> event
            matches SessionEvent::UpgradeCompleted ==> {
            &&& r.0 == SessionPhase::Authenticating { access_token }
            &&& r.1 matches SessionAction::ResolveIdentity { access_token: queried } && queried@
                == access_token@
        },
        phase matches SessionPhase::HeaderChecked { .. } ==> event
            matches SessionEvent::UpgradeFailed ==> r == (
            SessionPhase::Closed,
            SessionAction::AbandonConnection,
        ),
        phase matches SessionPhase::Authenticating { .. } ==> event
            matches SessionEvent::IdentityResolved { outcome } ==> match outcome {
            ResolveOutcome::Found { identity } => {
                &&& r.0 == SessionPhase::ResolvingTopology { identity }
                &&& r.1 matches SessionAction::ResolveTopology { kind, id } && kind
                    == identity.spec_kind() && id@ == identity.spec_id()
            },
            ResolveOutcome::NotFound => r.0 == SessionPhase::Closed && is_policy_close(&r.1),
            ResolveOutcome::Fault => r.0 == SessionPhase::Closed && is_error_close(&r.1),
        },
        phase matches SessionPhase::ResolvingTopology { identity } ==> event
            matches SessionEvent::TopologyReturned { outcome } ==> match outcome {
            TopologyOutcome::Memberships { connections } => {
                if connections@.len() == 0 {
                    r.0 == SessionPhase::Closed && is_policy_close(&r.1)
                } else {
                    &&& r.0 == SessionPhase::TopologyResolved { identity, memberships: connections }
                    &&& r.1 matches SessionAction::Register { kind, rooms } && kind
                        == identity.spec_kind() && str_views(rooms@) == room_views(connections@)
                }
            },
            TopologyOutcome::Fault => r.0 == SessionPhase::Closed && is_error_close(&r.1),
        },
        phase matches SessionPhase::TopologyResolved { identity, memberships } ==> event
            matches SessionEvent::RegistrationCompleted ==> r == (
            SessionPhase::Active { identity, memberships },
            SessionAction::Listen,
        ),
        phase matches SessionPhase::Active { identity, memberships } ==> event
            matches SessionEvent::TextFrameReceived { text } ==> {
            if identity.spec_kind() == IdentityKind::Device && data_frame_payload(text@) is Some {
                &&& r.0 == SessionPhase::Active { identity, memberships }
                &&& r.1 matches SessionAction::Broadcast { rooms, payload } && str_views(rooms@)
                    == room_views(memberships@) && Some(payload@) == data_frame_payload(text@)
            } else {
                r == (
                    SessionPhase::Active { identity, memberships },
                    SessionAction::Observe,
                )
            }
        },
        phase matches SessionPhase::Active { identity, memberships } ==> event
            matches SessionEvent::NonTextFrameReceived ==> r == (
            SessionPhase::Active { identity, memberships },
            SessionAction::Observe,
        ),
        phase matches SessionPhase::Active { identity, memberships } ==> event
            matches SessionEvent::TransportEnded { .. } ==> {
            &&& r.0 == SessionPhase::Closing
            &&& r.1 matches SessionAction::Deregister { kind, rooms } && kind
                == identity.spec_kind() && str_views(rooms@) == room_views(memberships@)
        },
        phase matches SessionPhase::Closing ==> event
            matches SessionEvent::DeregistrationCompleted ==> r == (
            SessionPhase::Closed,
            SessionAction::Finished,
        ),
{
    match (phase, event) {
        (SessionPhase::Connecting, SessionEvent::HeaderInspected { outcome }) => match outcome {
            Ok(token) => (
                SessionPhase::HeaderChecked { access_token: token },
                SessionAction::ProceedUpgrade,
            ),
            Err(rejection) => (SessionPhase::Closed, SessionAction::RejectUpgrade { rejection }),
        },
        (SessionPhase::HeaderChecked { access_token }, SessionEvent::UpgradeCompleted) => {
            let queried = access_token.clone();
            (
                SessionPhase::Authenticating { access_token },
                SessionAction::ResolveIdentity { access_token: queried },
            )
        },
        (SessionPhase::HeaderChecked { .. }, SessionEvent::UpgradeFailed) => (
            SessionPhase::Closed,
            SessionAction::AbandonConnection,
        ),
        (SessionPhase::Authenticating { .. }, SessionEvent::IdentityResolved { outcome }) => {
            match outcome {
                ResolveOutcome::Found { identity } => {
                    let kind = identity.kind();
                    let id = identity.id_cloned();
                    (
                        SessionPhase::ResolvingTopology { identity },
                        SessionAction::ResolveTopology { kind, id },
                    )
                },
                ResolveOutcome::NotFound => (SessionPhase::Closed, policy_close()),
                ResolveOutcome::Fault => (SessionPhase::Closed, error_close()),
            }
        },
        (SessionPhase::ResolvingTopology { identity }, SessionEvent::TopologyReturned {
            outcome,
        }) => {
            match outcome {
                TopologyOutcome::Memberships { connections } => {
                    if connections.len() == 0 {
                        (SessionPhase::Closed, policy_close())
                    } else {
                        let kind = identity.kind();
                        let rooms = membership_rooms(&connections);
                        (
                            SessionPhase::TopologyResolved { identity, memberships: connections },
                            SessionAction::Register { kind, rooms },
                        )
                    }
                },
                TopologyOutcome::Fault => (SessionPhase::Closed, error_close()),
            }
        },
        (
            SessionPhase::TopologyResolved { identity, memberships },
            SessionEvent::RegistrationCompleted,
        ) => (SessionPhase::Active { identity, memberships }, SessionAction::Listen),
        (SessionPhase::Active { identity, memberships }, SessionEvent::TextFrameReceived {
            text,
        }) => {
            let is_device = match &identity {
                Identity::Device(_) => true,
                Identity::User(_) => false,
            };
            if is_device {
                match parse_data_frame(text.as_str()) {
                    Some(payload) => {
                        let rooms = membership_rooms(&memberships);
                        (
                            SessionPhase::Active { identity, memberships },
                            SessionAction::Broadcast { rooms, payload },
                        )
                    },
                    None => (
                        SessionPhase::Active { identity, memberships },
                        SessionAction::Observe,
                    ),
                }
            } else {
                (SessionPhase::Active { identity, memberships }, SessionAction::Observe)
            }
        },
        (SessionPhase::Active { identity, memberships }, SessionEvent::NonTextFrameReceived) => (
            SessionPhase::Active { identity, memberships },
            SessionAction::Observe,
        ),
        (SessionPhase::Active { identity, memberships }, SessionEvent::TransportEnded {
            ..
        }) => {
            let kind = identity.kind();
            let rooms = membership_rooms(&memberships);
            (SessionPhase::Closing, SessionAction::Deregister { kind, rooms })
        },
        (SessionPhase::Closing, SessionEvent::DeregistrationCompleted) => (
            SessionPhase::Closed,
            SessionAction::Finished,
        ),
        (_, _) => (SessionPhase::Closed, SessionAction::AbandonConnection),
    }
}

/// Whether an action closes the connection with the policy-violation code
/// and the unauthorized reason.
pub open spec fn is_policy_close(a: &SessionAction) -> bool {
    a matches SessionAction::CloseConnection { directive } && directive.code
        == SessionCloseCode::Policy && directive.reason@ == "You're unauthorized"@
}

/// Whether an action closes the connection with the generic error code and
/// the unexpected-error reason.
pub open spec fn is_error_close(a: &SessionAction) -> bool {
    a matches SessionAction::CloseConnection { directive } && directive.code
        == SessionCloseCode::Error && directive.reason@ == "There's an unexpected error"@
}

/// The unauthorized close: policy-violation code, unauthorized reason.
fn policy_close() -> (a: SessionAction)
    ensures
        is_policy_close(&a),
{
    SessionAction::CloseConnection {
        directive: CloseDirective {
            code: SessionCloseCode::Policy,
            reason: String::from_str("You're unauthorized"),
        },
    }
}

/// The fault close: generic error code, unexpected-error reason.
fn error_close() -> (a: SessionAction)
    ensures
        is_error_close(&a),
{
    SessionAction::CloseConnection {
        directive: CloseDirective {
            code: SessionCloseCode::Error,
            reason: String::from_str("There's an unexpected error"),
        },
    }
}

} // verus!
