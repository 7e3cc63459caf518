//! The registry's laws: what sequences of registry operations guarantee,
//! stated over the abstract registry state that the operations' own
//! contracts speak of.

use vstd::prelude::*;
use crate::registry::RegistryView;
use crate::registry::WebSocketSender;

verus! {

/// Registering a second device handle for the same room replaces the
/// first and leaves exactly one device entry for that room: after both
/// registrations the room maps to the second handle, no other room
/// changed, and the first registration's state shows which handle the
/// second one reports for closing.
pub proof fn lemma_device_reregistration(
    v: RegistryView,
    room: Seq<char>,
    h1: WebSocketSender,
    h2: WebSocketSender,
)
    ensures
        ({
            let v1 = v.with_device(room, h1);
            let v2 = v1.with_device(room, h2);
            &&& v1.device_senders.contains_key(room) && v1.device_senders[room] == h1
            &&& v2.device_senders.contains_key(room) && v2.device_senders[room] == h2
            &&& v2.device_senders.dom() == v1.device_senders.dom()
            &&& forall|r: Seq<char>|
                r != room && #[trigger] v1.device_senders.contains_key(r)
                    ==> v2.device_senders.contains_key(r) && v2.device_senders[r]
                    == v1.device_senders[r]
            &&& v2.user_senders == v.user_senders
            &&& v2.closed == v.closed
        }),
{
    let v1 = v.with_device(room, h1);
    let v2 = v1.with_device(room, h2);
    assert(v2.device_senders.dom() =~= v1.device_senders.dom());
}

/// A room whose last user session deregisters disappears from the user
/// index: broadcasting to a room with zero registered users then reports
/// "no such room" and delivers nothing, as `send_user_message` ensures.
pub proof fn lemma_remove_last_user_drops_room(v: RegistryView, room: Seq<char>, addr: Seq<char>)
    requires
        v.user_senders.contains_key(room),
        v.user_senders[room].dom().finite(),
        v.user_senders[room].dom() =~= set![addr],
    ensures
        !v.without_user(room, addr).user_senders.contains_key(room),
{
    let remaining = v.room_users(room).remove(addr);
    assert(remaining.dom() =~= Set::<Seq<char>>::empty());
}

/// The registry after a sequence of user registrations to one room, one
/// per address/handle pair.
pub open spec fn register_users(
    v: RegistryView,
    room: Seq<char>,
    addrs: Seq<Seq<char>>,
    handles: Seq<WebSocketSender>,
) -> RegistryView
    decreases addrs.len(),
{
    if addrs.len() == 0 {
        v
    } else {
        register_users(v, room, addrs.drop_last(), handles.drop_last()).with_user(
            room,
            addrs.last(),
            handles.last(),
        )
    }
}

/// Any number of user registrations to the same room under pairwise
/// distinct addresses leaves exactly one entry per registration in the
/// room's user index — each address mapped to its own handle, and no
/// other — so a broadcast to the room then delivers to all of them, as
/// `send_user_message` ensures. Nothing else in the registry changes.
pub proof fn lemma_concurrent_user_registrations(
    v: RegistryView,
    room: Seq<char>,
    addrs: Seq<Seq<char>>,
    handles: Seq<WebSocketSender>,
)
    requires
        addrs.len() == handles.len(),
        forall|i: int, j: int| 0 <= i < j < addrs.len() ==> addrs[i] != addrs[j],
        !v.user_senders.contains_key(room),
    ensures
        ({
            let v2 = register_users(v, room, addrs, handles);
            &&& addrs.len() > 0 ==> {
                &&& v2.user_senders.contains_key(room)
                &&& v2.user_senders[room].dom().finite()
                &&& v2.user_senders[room].dom().len() == addrs.len()
                &&& forall|i: int|
                    0 <= i < addrs.len() ==> v2.user_senders[room].contains_key(#[trigger] addrs[i])
                        && v2.user_senders[room][addrs[i]] == handles[i]
                &&& forall|a: Seq<char>|
                    #[trigger] v2.user_senders[room].contains_key(a) ==> addrs.contains(a)
            }
            &&& v2.device_senders == v.device_senders
            &&& v2.closed == v.closed
            &&& forall|r: Seq<char>|
                r != room ==> #[trigger] v2.user_senders.contains_key(r)
                    == v.user_senders.contains_key(r)
        }),
    decreases addrs.len(),
{
    broadcast use vstd::set::axiom_set_insert_len;

    if addrs.len() > 0 {
        lemma_concurrent_user_registrations(v, room, addrs.drop_last(), handles.drop_last());
        let v1 = register_users(v, room, addrs.drop_last(), handles.drop_last());
        let v2 = register_users(v, room, addrs, handles);
        assert(v2 == v1.with_user(room, addrs.last(), handles.last()));
        if addrs.len() == 1 {
            assert(!v1.user_senders.contains_key(room));
            assert(v1.room_users(room) == Map::<Seq<char>, WebSocketSender>::empty());
            assert(v2.user_senders[room] == Map::<Seq<char>, WebSocketSender>::empty().insert(
                addrs.last(),
                handles.last(),
            ));
            assert(v2.user_senders[room].dom() =~= Set::empty().insert(addrs.last()));
        } else {
            let sub1 = v1.user_senders[room];
            let sub2 = v2.user_senders[room];
            assert(sub2 == sub1.insert(addrs.last(), handles.last()));
            assert(!sub1.contains_key(addrs.last())) by {
                if sub1.contains_key(addrs.last()) {
                    assert(addrs.drop_last().contains(addrs.last()));
                    let i = choose|i: int|
                        0 <= i < addrs.drop_last().len() && addrs.drop_last()[i] == addrs.last();
                    assert(addrs[i] == addrs[addrs.len() - 1]);
                }
            }
            assert(sub2.dom().len() == addrs.len());
            assert forall|i: int| 0 <= i < addrs.len() implies sub2.contains_key(
                #[trigger] addrs[i],
            ) && sub2[addrs[i]] == handles[i] by {
                if i < addrs.len() - 1 {
                    assert(addrs.drop_last()[i] == addrs[i]);
                    assert(handles.drop_last()[i] == handles[i]);
                    assert(addrs[i] != addrs[addrs.len() - 1]);
                }
            }
            assert forall|a: Seq<char>| #[trigger] sub2.contains_key(a) implies addrs.contains(
                a,
            ) by {
                if a != addrs.last() {
                    assert(sub1.contains_key(a));
                    assert(addrs.drop_last().contains(a));
                    let i = choose|i: int|
                        0 <= i < addrs.drop_last().len() && addrs.drop_last()[i] == a;
                    assert(addrs[i] == a);
                } else {
                    assert(addrs[addrs.len() - 1] == a);
                }
            }
        }
    }
}

/// Two user registrations to one room under distinct addresses commute:
/// whichever order two concurrent sessions register in, the registry ends
/// the same.
pub proof fn lemma_user_registration_commutes(
    v: RegistryView,
    room: Seq<char>,
    a1: Seq<char>,
    h1: WebSocketSender,
    a2: Seq<char>,
    h2: WebSocketSender,
)
    requires
        a1 != a2,
    ensures
        v.with_user(room, a1, h1).with_user(room, a2, h2) == v.with_user(room, a2, h2).with_user(
            room,
            a1,
            h1,
        ),
{
    let left = v.with_user(room, a1, h1).with_user(room, a2, h2);
    let right = v.with_user(room, a2, h2).with_user(room, a1, h1);
    assert(left.user_senders[room] =~= right.user_senders[room]);
    assert(left.user_senders =~= right.user_senders);
    assert(left =~= right);
}

/// Deregistering one user session leaves every other session of the room
/// registered with its handle untouched: removing one observer does not
/// affect later delivery to the rest.
pub proof fn lemma_remove_user_keeps_others(
    v: RegistryView,
    room: Seq<char>,
    a1: Seq<char>,
    a2: Seq<char>,
)
    requires
        v.user_senders.contains_key(room),
        v.user_senders[room].dom().finite(),
        v.user_senders[room].contains_key(a1),
        v.user_senders[room].contains_key(a2),
        a1 != a2,
    ensures
        ({
            let v2 = v.without_user(room, a1);
            &&& v2.user_senders.contains_key(room)
            &&& v2.user_senders[room].contains_key(a2)
            &&& v2.user_senders[room][a2] == v.user_senders[room][a2]
            &&& !v2.user_senders[room].contains_key(a1)
        }),
{
    let remaining = v.room_users(room).remove(a1);
    assert(remaining.contains_key(a2));
    assert(remaining.dom().len() != 0) by {
        if remaining.dom().len() == 0 {
            remaining.dom().lemma_len0_is_empty();
            assert(!remaining.dom().contains(a2));
        }
    }
}

} // verus!
