//! Properties of the connection that hold across several of its operations.

use vstd::prelude::*;

use crate::connection::{
    action_model, attach_model, detach_model, disconnect_model, has_slot, is_closing, is_subscribed,
    model_wf, open_model, refused_model, send_model, slot_index, sub_index, take_model, ActionStart,
    ConnectionModel, ConnectionState,
};
use crate::protocol::to_server::{action_frame, subscription_frame, ToServer, ToServerBody};

verus! {

/// A slot exists at most once per id, and taking it removes it for good: a
/// second take finds nothing, and the id stays below every id given later.
pub proof fn lemma_slot_removed_once<W, C>(m: ConnectionModel<W, C>, id: i64)
    requires
        model_wf(m),
        has_slot(m.slots, id),
    ensures
        forall|j: int, k: int|
            0 <= j < m.slots.len() && 0 <= k < m.slots.len() && m.slots[j].0 == id && m.slots[k].0
                == id ==> j == k,
        take_model(m, id).1 is Some,
        model_wf(take_model(m, id).0),
        !has_slot(take_model(m, id).0.slots, id),
        take_model(take_model(m, id).0, id) == (take_model(m, id).0, None::<W>),
        id < take_model(m, id).0.next_id,
{
    let k = slot_index(m.slots, id);
    let m1 = take_model(m, id).0;
    assert(m1.slots == m.slots.remove(k));
    assert forall|j: int| 0 <= j < m1.slots.len() implies #[trigger] m1.slots[j] == (if j < k {
        m.slots[j]
    } else {
        m.slots[j + 1]
    }) by {}
    assert forall|j: int| 0 <= j < m1.slots.len() implies #[trigger] m1.slots[j].0 != id by {
        if j < k {
            assert(m1.slots[j] == m.slots[j]);
        } else {
            assert(m1.slots[j] == m.slots[j + 1]);
        }
    }
    assert forall|a: int, b: int|
        0 <= a < m1.slots.len() && 0 <= b < m1.slots.len() && a != b implies #[trigger] m1.slots[a].0
            != #[trigger] m1.slots[b].0 by {
        let a2 = if a < k { a } else { a + 1 };
        let b2 = if b < k { b } else { b + 1 };
        assert(m1.slots[a] == m.slots[a2]);
        assert(m1.slots[b] == m.slots[b2]);
    }
    assert forall|j: int| 0 <= j < m1.slots.len() implies 0 <= #[trigger] m1.slots[j].0 < m1.next_id by {
        if j < k {
            assert(m1.slots[j] == m.slots[j]);
        } else {
            assert(m1.slots[j] == m.slots[j + 1]);
        }
    }
}

/// A new action's id has no slot before it starts and exactly one after.
pub proof fn lemma_action_slot_fresh<W, C>(
    m: ConnectionModel<W, C>,
    name: String,
    args: Vec<serde_json::Value>,
    waiter: W,
)
    requires
        model_wf(m),
        !is_closing(m.state),
        m.next_id < i64::MAX,
    ensures
        ({
            let (m1, start) = action_model(m, name, args, waiter);
            let id = m.next_id as i64;
            &&& !has_slot(m.slots, id)
            &&& m1.slots == m.slots.push((id, waiter))
            &&& forall|j: int| 0 <= j < m1.slots.len() && m1.slots[j].0 == id ==> j == m.slots.len()
            &&& m1.next_id == m.next_id + 1
            &&& (start matches ActionStart::Transmit { id: i, .. } && i == id) || (start matches ActionStart::Queued { id: i } && i == id)
        }),
{
    let id = m.next_id as i64;
    assert forall|k: int| 0 <= k < m.slots.len() implies #[trigger] m.slots[k].0 != id by {
        assert(m.slots[k].0 < m.next_id);
    }
    let m1 = action_model(m, name, args, waiter).0;
    assert forall|j: int| 0 <= j < m1.slots.len() && m1.slots[j].0 == id implies j == m.slots.len() by {
        if j < m.slots.len() {
            assert(m1.slots[j] == m.slots[j]);
        }
    }
}

/// Two actions in a row get ids one apart, so no two calls share an id; the
/// first one's slot is still the only one with its id after the second.
pub proof fn lemma_action_ids_increase<W, C>(
    m: ConnectionModel<W, C>,
    n1: String,
    a1: Vec<serde_json::Value>,
    w1: W,
    n2: String,
    a2: Vec<serde_json::Value>,
    w2: W,
)
    requires
        model_wf(m),
        !is_closing(m.state),
        m.next_id + 1 < i64::MAX,
    ensures
        ({
            let (m1, s1) = action_model(m, n1, a1, w1);
            let (m2, s2) = action_model(m1, n2, a2, w2);
            &&& m2.next_id == m.next_id + 2
            &&& m2.slots == m.slots.push((m.next_id as i64, w1)).push(((m.next_id + 1) as i64, w2))
            &&& (s1 matches ActionStart::Transmit { id, .. } ==> id == m.next_id)
            &&& (s1 matches ActionStart::Queued { id } ==> id == m.next_id)
            &&& (s2 matches ActionStart::Transmit { id, .. } ==> id == m.next_id + 1)
            &&& (s2 matches ActionStart::Queued { id } ==> id == m.next_id + 1)
            &&& model_wf(m2)
        }),
{
    lemma_action_slot_fresh(m, n1, a1, w1);
    let m1 = action_model(m, n1, a1, w1).0;
    lemma_action_keeps_wf(m, n1, a1, w1);
    lemma_action_slot_fresh(m1, n2, a2, w2);
    lemma_action_keeps_wf(m1, n2, a2, w2);
}

/// Starting an action keeps the connection well formed.
pub proof fn lemma_action_keeps_wf<W, C>(m: ConnectionModel<W, C>, name: String, args: Vec<serde_json::Value>, waiter: W)
    requires
        model_wf(m),
        m.next_id < i64::MAX,
    ensures
        model_wf(action_model(m, name, args, waiter).0),
{
    if !is_closing(m.state) {
        lemma_action_slot_fresh(m, name, args, waiter);
        let m1 = action_model(m, name, args, waiter).0;
        assert forall|j: int, k: int|
            0 <= j < m1.slots.len() && 0 <= k < m1.slots.len() && j != k implies #[trigger] m1.slots[j].0
                != #[trigger] m1.slots[k].0 by {
            if j < m.slots.len() && k < m.slots.len() {
                assert(m1.slots[j] == m.slots[j]);
                assert(m1.slots[k] == m.slots[k]);
            } else if j < m.slots.len() {
                assert(m1.slots[j] == m.slots[j]);
                assert(m.slots[j].0 < m.next_id);
            } else {
                assert(m1.slots[k] == m.slots[k]);
                assert(m.slots[k].0 < m.next_id);
            }
        }
        assert forall|k: int| 0 <= k < m1.slots.len() implies 0 <= #[trigger] m1.slots[k].0 < m1.next_id by {
            if k < m.slots.len() {
                assert(m1.slots[k] == m.slots[k]);
            }
        }
    }
}

/// On Open the subscription requests come first, exactly one per name of the
/// table and none besides; the queued frames follow. An empty table sends no
/// subscription frame.
pub proof fn lemma_rehydration<W, C>(m: ConnectionModel<W, C>)
    requires
        model_wf(m),
        m.attached,
        !is_closing(m.state),
    ensures
        ({
            let (m1, subs, queued) = open_model(m);
            &&& m1.state == ConnectionState::Open
            &&& subs.len() == m.subs.len()
            &&& forall|i: int| 0 <= i < subs.len() ==> subs[i] == subscription_frame(m.subs[i].0, true)
            &&& forall|name: Seq<char>|
                is_subscribed(m.subs, name) ==> exists|i: int|
                    0 <= i < subs.len() && #[trigger] sub_frame_for(subs[i], name)
            &&& forall|name: Seq<char>, i: int, j: int|
                0 <= i < subs.len() && 0 <= j < subs.len() && sub_frame_for(subs[i], name)
                    && sub_frame_for(subs[j], name) ==> i == j
            &&& queued == m.queue
            &&& (m.subs.len() == 0 ==> subs.len() == 0)
        }),
{
    let subs = open_model(m).1;
    assert forall|name: Seq<char>| is_subscribed(m.subs, name) implies exists|i: int|
        0 <= i < subs.len() && #[trigger] sub_frame_for(subs[i], name) by {
        let k = sub_index(m.subs, name);
        assert(sub_frame_for(subs[k], name));
    }
    assert forall|name: Seq<char>, i: int, j: int|
        0 <= i < subs.len() && 0 <= j < subs.len() && sub_frame_for(subs[i], name)
            && sub_frame_for(subs[j], name) implies i == j by {
        if i != j {
            assert(m.subs[i].0@ != m.subs[j].0@);
        }
    }
}

/// `f` asks for the events of `name`.
pub open spec fn sub_frame_for(f: ToServer, name: Seq<char>) -> bool {
    f.b matches ToServerBody::SubscriptionRequest { sr } && sr.e@ == name && sr.s
}

/// Sends of frames that are not ephemeral, one after the other.
pub open spec fn send_all<W, C>(m: ConnectionModel<W, C>, frames: Seq<ToServer>) -> ConnectionModel<W, C>
    decreases frames.len(),
{
    if frames.len() == 0 {
        m
    } else {
        send_all(send_model(m, frames[0], false).0, frames.skip(1))
    }
}

/// Frames sent while no driver is attached are kept in order and, once a
/// driver is attached and Init arrives, handed out in that order after what
/// was queued before.
pub proof fn lemma_queue_fifo<W, C>(m: ConnectionModel<W, C>, frames: Seq<ToServer>)
    requires
        model_wf(m),
        !m.attached,
        !is_closing(m.state),
    ensures
        send_all(m, frames).queue == m.queue + frames,
        open_model(attach_model(send_all(m, frames)).0).2 == m.queue + frames,
    decreases frames.len(),
{
    if frames.len() == 0 {
        assert(m.queue + frames =~= m.queue);
    } else {
        let m1 = send_model(m, frames[0], false).0;
        lemma_queue_fifo(m1, frames.skip(1));
        assert(m1.queue + frames.skip(1) =~= m.queue + frames);
    }
    lemma_send_all_keeps(m, frames);
}

/// Sends while detached change nothing but the queue.
pub proof fn lemma_send_all_keeps<W, C>(m: ConnectionModel<W, C>, frames: Seq<ToServer>)
    requires
        !m.attached,
        !is_closing(m.state),
    ensures
        send_all(m, frames) == (ConnectionModel { queue: send_all(m, frames).queue, ..m }),
    decreases frames.len(),
{
    if frames.len() > 0 {
        lemma_send_all_keeps(send_model(m, frames[0], false).0, frames.skip(1));
    }
}

/// `disconnect` stops once: a second call hands out nothing and changes
/// nothing, and from then on no frame is handed to a driver, no driver is
/// attached and no action is registered.
pub proof fn lemma_disconnect_idempotent<W, C>(m: ConnectionModel<W, C>)
    requires
        model_wf(m),
    ensures
        ({
            let m1 = disconnect_model(m).0;
            &&& model_wf(m1)
            &&& is_closing(m1.state)
            &&& disconnect_model(m1) == (m1, None::<(Seq<W>, bool)>)
            &&& forall|f: ToServer, e: bool| #[trigger] send_model(m1, f, e) == (m1, None::<ToServer>)
            &&& forall|f: ToServer, e: bool| #[trigger] refused_model(m1, f, e) == m1
            &&& open_model(m1) == (m1, Seq::<ToServer>::empty(), Seq::<ToServer>::empty())
            &&& attach_model(m1) == (m1, false)
            &&& forall|n: String, a: Vec<serde_json::Value>, w: W| #[trigger] action_model(m1, n, a, w)
                == (m1, ActionStart::Refused { waiter: w })
            &&& m1.slots.len() == 0
        }),
{
    let m1 = disconnect_model(m).0;
    assert(model_wf(m1));
    assert(disconnect_model(m1) == (m1, None::<(Seq<W>, bool)>));
    assert(open_model(m1) == (m1, Seq::<ToServer>::empty(), Seq::<ToServer>::empty()));
    assert(attach_model(m1) == (m1, false));
    assert forall|f: ToServer, e: bool| #[trigger] send_model(m1, f, e) == (m1, None::<ToServer>) by {}
    assert forall|f: ToServer, e: bool| #[trigger] refused_model(m1, f, e) == m1 by {}
    assert forall|n: String, a: Vec<serde_json::Value>, w: W| #[trigger] action_model(m1, n, a, w)
        == (m1, ActionStart::Refused { waiter: w }) by {}
}

/// Every action pending at `disconnect` has its waiter handed out, once.
pub proof fn lemma_disconnect_releases<W, C>(m: ConnectionModel<W, C>)
    requires
        model_wf(m),
        !is_closing(m.state),
    ensures
        ({
            let (m1, t) = disconnect_model(m);
            &&& t is Some
            &&& t->Some_0.0.len() == m.slots.len()
            &&& forall|k: int| 0 <= k < m.slots.len() ==> t->Some_0.0[k] == m.slots[k].1
            &&& m1.slots.len() == 0
            &&& m1.subs.len() == 0
            &&& m1.state == ConnectionState::Draining
        }),
{
}

/// An action started before any Open is queued, goes out after the
/// subscriptions once a driver is attached and Init arrives, and its reply
/// reaches its waiter.
pub proof fn lemma_action_before_open<W, C>(
    m: ConnectionModel<W, C>,
    name: String,
    args: Vec<serde_json::Value>,
    waiter: W,
)
    requires
        model_wf(m),
        !m.attached,
        !is_closing(m.state),
        m.next_id < i64::MAX,
    ensures
        ({
            let id = m.next_id as i64;
            let (m1, start) = action_model(m, name, args, waiter);
            let (m2, subs, queued) = open_model(attach_model(m1).0);
            &&& start == ActionStart::<W>::Queued { id }
            &&& queued == m.queue.push(action_frame(id, name, args))
            &&& take_model(m2, id).1 == Some(waiter)
        }),
{
    let id = m.next_id as i64;
    lemma_action_slot_fresh(m, name, args, waiter);
    let m1 = action_model(m, name, args, waiter).0;
    let m2 = open_model(attach_model(m1).0).0;
    assert(m2.slots == m.slots.push((id, waiter)));
    let k = m.slots.len() as int;
    assert(m2.slots[k].0 == id);
    assert(has_slot(m2.slots, id));
    let c = slot_index(m2.slots, id);
    assert(c == k);
}

/// A driver that ends right after Init leaves the pending actions and the
/// queue as they were; the connection is Connecting again and a reply that
/// arrives on the next Open still reaches the waiter.
pub proof fn lemma_pending_survive_reconnect<W, C>(m: ConnectionModel<W, C>, id: i64)
    requires
        model_wf(m),
        m.attached,
        !is_closing(m.state),
    ensures
        ({
            let m1 = detach_model(open_model(m).0);
            let m2 = open_model(attach_model(m1).0).0;
            &&& model_wf(m1)
            &&& m1.state == ConnectionState::Connecting
            &&& !m1.attached
            &&& m1.slots == m.slots
            &&& m2.slots == m.slots
            &&& take_model(m2, id).1 == take_model(m, id).1
        }),
{
}

} // verus!
