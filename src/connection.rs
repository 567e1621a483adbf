//! The persistent actor connection: correlation of actions with their replies,
//! the event subscription table, the outbound queue kept while no transport is
//! attached, and the lifecycle `New -> Connecting -> Open -> Draining -> Closed`.
//!
//! `ConnectionCore` makes every decision and holds every table; the code that
//! owns sockets and tasks feeds it what happened and carries out what it returns.
//! It is generic over the waiter `W` that receives an action's outcome and the
//! callback `C` that receives an event's arguments.

use vstd::prelude::*;

use crate::protocol::to_client::{Error as ErrorFrame, ToClient, ToClientBody};
use crate::protocol::to_server::{action_frame, subscription_frame, ToServer};

verus! {

#[derive(Debug, Clone, Copy, PartialEq, Eq, Structural)]
pub enum ConnectionState {
    New,
    Connecting,
    Open,
    Draining,
    Closed,
}

/// Draining and Closed: the connection has been told to stop.
pub open spec fn is_closing(s: ConnectionState) -> bool {
    s is Draining || s is Closed
}

/// An event name with its callbacks, in the order they were registered.
pub struct Subscription<C> {
    pub name: String,
    pub callbacks: Vec<C>,
}

/// What the connection holds, as mathematical values.
pub struct ConnectionModel<W, C> {
    pub state: ConnectionState,
    /// A transport driver is attached and takes frames.
    pub attached: bool,
    /// The id the next action gets.
    pub next_id: int,
    /// Pending actions: id and waiter.
    pub slots: Seq<(i64, W)>,
    /// Subscription table: event name and callbacks.
    pub subs: Seq<(String, Seq<C>)>,
    /// Frames kept while no driver takes them, oldest first.
    pub queue: Seq<ToServer>,
}

pub open spec fn has_slot<W>(slots: Seq<(i64, W)>, id: i64) -> bool {
    exists|k: int| 0 <= k < slots.len() && slots[k].0 == id
}

pub open spec fn slot_index<W>(slots: Seq<(i64, W)>, id: i64) -> int {
    choose|k: int| 0 <= k < slots.len() && slots[k].0 == id
}

pub open spec fn is_subscribed<C>(subs: Seq<(String, Seq<C>)>, name: Seq<char>) -> bool {
    exists|k: int| 0 <= k < subs.len() && subs[k].0@ == name
}

pub open spec fn sub_index<C>(subs: Seq<(String, Seq<C>)>, name: Seq<char>) -> int {
    choose|k: int| 0 <= k < subs.len() && subs[k].0@ == name
}

/// The callbacks registered for `name`, empty where there are none.
pub open spec fn callbacks_of<C>(subs: Seq<(String, Seq<C>)>, name: Seq<char>) -> Seq<C> {
    if is_subscribed(subs, name) {
        subs[sub_index(subs, name)].1
    } else {
        Seq::empty()
    }
}

/// Ids are fresh and unique, names are unique, and a stopped connection holds
/// no driver and no pending action.
pub open spec fn model_wf<W, C>(m: ConnectionModel<W, C>) -> bool {
    &&& 0 <= m.next_id <= i64::MAX
    &&& forall|k: int| 0 <= k < m.slots.len() ==> 0 <= #[trigger] m.slots[k].0 < m.next_id
    &&& forall|j: int, k: int|
        0 <= j < m.slots.len() && 0 <= k < m.slots.len() && j != k ==> #[trigger] m.slots[j].0
            != #[trigger] m.slots[k].0
    &&& forall|j: int, k: int|
        0 <= j < m.subs.len() && 0 <= k < m.subs.len() && j != k ==> #[trigger] m.subs[j].0@
            != #[trigger] m.subs[k].0@
    &&& is_closing(m.state) ==> !m.attached && m.slots.len() == 0
}

/// Sending a frame: handed to the attached driver (the frame is returned);
/// otherwise kept in the queue unless ephemeral or stopped (nothing returned).
pub open spec fn send_model<W, C>(m: ConnectionModel<W, C>, frame: ToServer, ephemeral: bool) -> (
    ConnectionModel<W, C>,
    Option<ToServer>,
) {
    if m.attached && !is_closing(m.state) {
        (m, Some(frame))
    } else if !ephemeral && !is_closing(m.state) {
        (ConnectionModel { queue: m.queue.push(frame), ..m }, None)
    } else {
        (m, None)
    }
}

/// The driver did not take a frame: it is kept unless ephemeral or stopped.
pub open spec fn refused_model<W, C>(m: ConnectionModel<W, C>, frame: ToServer, ephemeral: bool) -> ConnectionModel<W, C> {
    if !ephemeral && !is_closing(m.state) {
        ConnectionModel { queue: m.queue.push(frame), ..m }
    } else {
        m
    }
}

/// How an action begins.
pub enum ActionStart<W> {
    /// The connection is stopping: the waiter is handed back, to be told so.
    Refused { waiter: W },
    /// The request is registered; hand `frame` to the driver.
    Transmit { id: i64, frame: ToServer },
    /// The request is registered and queued until a driver is attached.
    Queued { id: i64 },
}

/// Registering an action under a fresh id and sending its request.
pub open spec fn action_model<W, C>(
    m: ConnectionModel<W, C>,
    name: String,
    args: Vec<serde_json::Value>,
    waiter: W,
) -> (ConnectionModel<W, C>, ActionStart<W>) {
    if is_closing(m.state) {
        (m, ActionStart::Refused { waiter })
    } else {
        let id = m.next_id as i64;
        let m1 = ConnectionModel { next_id: m.next_id + 1, slots: m.slots.push((id, waiter)), ..m };
        let (m2, sent) = send_model(m1, action_frame(id, name, args), false);
        (
            m2,
            match sent {
                Some(f) => ActionStart::Transmit { id, frame: f },
                None => ActionStart::Queued { id },
            },
        )
    }
}

/// Registering a callback; a name new to the table also sends an ephemeral
/// subscription request.
pub open spec fn subscribe_model<W, C>(m: ConnectionModel<W, C>, name: String, callback: C) -> (
    ConnectionModel<W, C>,
    Option<ToServer>,
) {
    if is_subscribed(m.subs, name@) {
        let k = sub_index(m.subs, name@);
        (
            ConnectionModel { subs: m.subs.update(k, (m.subs[k].0, m.subs[k].1.push(callback))), ..m },
            None,
        )
    } else {
        let m1 = ConnectionModel { subs: m.subs.push((name, seq![callback])), ..m };
        send_model(m1, subscription_frame(name, true), true)
    }
}

/// The subscription requests sent on Open: one per name of the table, in order.
pub open spec fn rehydration_frames<C>(subs: Seq<(String, Seq<C>)>) -> Seq<ToServer> {
    subs.map_values(|s: (String, Seq<C>)| subscription_frame(s.0, true))
}

/// Receiving `Init` on the attached driver: the connection is Open, every
/// subscription is sent again, then the queue is drained in order.
pub open spec fn open_model<W, C>(m: ConnectionModel<W, C>) -> (
    ConnectionModel<W, C>,
    Seq<ToServer>,
    Seq<ToServer>,
) {
    if m.attached && !is_closing(m.state) {
        (
            ConnectionModel { state: ConnectionState::Open, queue: Seq::empty(), ..m },
            rehydration_frames(m.subs),
            m.queue,
        )
    } else {
        (m, Seq::empty(), Seq::empty())
    }
}

/// Removing the slot of `id`, and the waiter it held.
pub open spec fn take_model<W, C>(m: ConnectionModel<W, C>, id: i64) -> (ConnectionModel<W, C>, Option<W>) {
    if has_slot(m.slots, id) {
        let k = slot_index(m.slots, id);
        (ConnectionModel { slots: m.slots.remove(k), ..m }, Some(m.slots[k].1))
    } else {
        (m, None)
    }
}

/// Stopping: Draining, driver released, every waiter handed out, table cleared.
/// A second call changes nothing and hands out nothing.
pub open spec fn disconnect_model<W, C>(m: ConnectionModel<W, C>) -> (
    ConnectionModel<W, C>,
    Option<(Seq<W>, bool)>,
) {
    if is_closing(m.state) {
        (m, None)
    } else {
        (
            ConnectionModel {
                state: ConnectionState::Draining,
                attached: false,
                slots: Seq::empty(),
                subs: Seq::empty(),
                ..m
            },
            Some((m.slots.map_values(|p: (i64, W)| p.1), m.attached)),
        )
    }
}

/// A driver ended: it is released, and a live connection goes back to Connecting.
/// Pending actions and the queue stay.
pub open spec fn detach_model<W, C>(m: ConnectionModel<W, C>) -> ConnectionModel<W, C> {
    if is_closing(m.state) {
        ConnectionModel { attached: false, ..m }
    } else {
        ConnectionModel { attached: false, state: ConnectionState::Connecting, ..m }
    }
}

/// A driver connected: it is attached unless the connection is stopping.
pub open spec fn attach_model<W, C>(m: ConnectionModel<W, C>) -> (ConnectionModel<W, C>, bool) {
    if is_closing(m.state) {
        (m, false)
    } else {
        (ConnectionModel { attached: true, ..m }, true)
    }
}

/// A connection attempt starts: Connecting unless the connection is stopping.
pub open spec fn begin_model<W, C>(m: ConnectionModel<W, C>) -> (ConnectionModel<W, C>, bool) {
    if is_closing(m.state) {
        (m, false)
    } else {
        (ConnectionModel { state: ConnectionState::Connecting, ..m }, true)
    }
}

/// What a frame from the actor calls for.
pub enum Dispatch<W> {
    /// Init: send `subscriptions` (ephemeral), then `queued` (kept if refused).
    Opened { subscriptions: Vec<ToServer>, queued: Vec<ToServer> },
    /// A reply to a pending action: its waiter and outcome.
    Answered { waiter: W, outcome: Result<serde_json::Value, ErrorFrame> },
    /// A reply whose id has no pending action; dropped.
    Unmatched { id: i64 },
    /// An event for the callbacks of `name`.
    Event { name: String, args: Vec<serde_json::Value> },
    /// An error not tied to an action, for diagnostics.
    ConnectionError { error: ErrorFrame },
}

/// What the teardown of `disconnect` leaves to do.
pub struct Teardown<W> {
    /// Waiters of the pending actions, each to be told the connection closed.
    pub waiters: Vec<W>,
    /// Whether a driver was attached and must be aborted.
    pub stop_driver: bool,
}

pub struct ConnectionCore<W, C> {
    state: ConnectionState,
    attached: bool,
    next_id: i64,
    slots: Vec<(i64, W)>,
    subscriptions: Vec<Subscription<C>>,
    queue: Vec<ToServer>,
}

pub open spec fn sub_view<C>(s: Subscription<C>) -> (String, Seq<C>) {
    (s.name, s.callbacks@)
}

impl<W, C> View for ConnectionCore<W, C> {
    type V = ConnectionModel<W, C>;

    closed spec fn view(&self) -> ConnectionModel<W, C> {
        ConnectionModel {
            state: self.state,
            attached: self.attached,
            next_id: self.next_id as int,
            slots: self.slots@,
            subs: self.subscriptions@.map_values(|s: Subscription<C>| sub_view(s)),
            queue: self.queue@,
        }
    }
}

impl<W, C> ConnectionCore<W, C> {
    pub open spec fn wf(&self) -> bool {
        model_wf(self@)
    }

    pub fn new() -> (r: Self)
        ensures
            r.wf(),
            r@.state == ConnectionState::New,
            !r@.attached,
            r@.next_id == 0,
            r@.slots.len() == 0,
            r@.subs.len() == 0,
            r@.queue.len() == 0,
    {
        let r = ConnectionCore {
            state: ConnectionState::New,
            attached: false,
            next_id: 0,
            slots: Vec::new(),
            subscriptions: Vec::new(),
            queue: Vec::new(),
        };
        proof {
            assert(r@.subs =~= Seq::empty());
        }
        r
    }

    pub fn state(&self) -> (r: ConnectionState)
        ensures
            r == self@.state,
    {
        self.state
    }

    pub fn is_disconnecting(&self) -> (r: bool)
        ensures
            r == is_closing(self@.state),
    {
        match self.state {
            ConnectionState::Draining | ConnectionState::Closed => true,
            _ => false,
        }
    }

    /// Whether a fresh action id is left.
    pub fn can_start_action(&self) -> (r: bool)
        ensures
            r == (self@.next_id < i64::MAX),
    {
        self.next_id < i64::MAX
    }

    pub fn pending_count(&self) -> (r: usize)
        ensures
            r == self@.slots.len(),
    {
        self.slots.len()
    }

    pub fn queued_count(&self) -> (r: usize)
        ensures
            r == self@.queue.len(),
    {
        self.queue.len()
    }

    pub fn subscription_count(&self) -> (r: usize)
        ensures
            r == self@.subs.len(),
    {
        self.subscriptions.len()
    }

    /// A connection attempt starts; refused once stopping.
    pub fn begin_attempt(&mut self) -> (r: bool)
        requires
            old(self).wf(),
        ensures
            final(self).wf(),
            (final(self)@, r) == begin_model(old(self)@),
    {
        if self.is_disconnecting() {
            false
        } else {
            self.state = ConnectionState::Connecting;
            proof {
                assert(self@.slots == old(self)@.slots);
                assert(self@.subs == old(self)@.subs);
            }
            true
        }
    }

    /// A driver connected; refused once stopping (the caller then aborts it).
    pub fn attach_driver(&mut self) -> (r: bool)
        requires
            old(self).wf(),
        ensures
            final(self).wf(),
            (final(self)@, r) == attach_model(old(self)@),
    {
        if self.is_disconnecting() {
            false
        } else {
            self.attached = true;
            proof {
                assert(self@.slots == old(self)@.slots);
                assert(self@.subs == old(self)@.subs);
            }
            true
        }
    }

    /// The attached driver ended without being asked to.
    pub fn detach_driver(&mut self)
        requires
            old(self).wf(),
        ensures
            final(self).wf(),
            final(self)@ == detach_model(old(self)@),
    {
        self.attached = false;
        if !self.is_disconnecting() {
            self.state = ConnectionState::Connecting;
        }
    }

    /// Offers a frame for sending. `Some` returns it to be handed to the driver.
    pub fn send_msg(&mut self, frame: ToServer, ephemeral: bool) -> (r: Option<ToServer>)
        requires
            old(self).wf(),
        ensures
            final(self).wf(),
            (final(self)@, r) == send_model(old(self)@, frame, ephemeral),
    {
        if self.attached && !self.is_disconnecting() {
            Some(frame)
        } else {
            if !ephemeral && !self.is_disconnecting() {
                self.queue.push(frame);
                proof {
                    assert(self@.slots == old(self)@.slots);
                    assert(self@.subs == old(self)@.subs);
                }
            }
            None
        }
    }

    /// The driver did not take a frame that `send_msg` handed out.
    pub fn send_refused(&mut self, frame: ToServer, ephemeral: bool)
        requires
            old(self).wf(),
        ensures
            final(self).wf(),
            final(self)@ == refused_model(old(self)@, frame, ephemeral),
    {
        if !ephemeral && !self.is_disconnecting() {
            self.queue.push(frame);
        }
    }

    /// Starts an action: a slot under a fresh id, and its request sent as a
    /// frame that is not ephemeral.
    pub fn action(&mut self, method: String, args: Vec<serde_json::Value>, waiter: W) -> (r:
        ActionStart<W>)
        requires
            old(self).wf(),
            old(self)@.next_id < i64::MAX,
        ensures
            final(self).wf(),
            (final(self)@, r) == action_model(old(self)@, method, args, waiter),
    {
        if self.is_disconnecting() {
            return ActionStart::Refused { waiter };
        }
        let ghost m = self@;
        let id = self.next_id;
        self.next_id = id + 1;
        self.slots.push((id, waiter));
        proof {
            assert(self@.slots == m.slots.push((id, waiter)));
            assert(self@.subs == m.subs);
            assert forall|j: int, k: int|
                0 <= j < self@.slots.len() && 0 <= k < self@.slots.len() && j != k implies #[trigger] self@.slots[j].0
                    != #[trigger] self@.slots[k].0 by {
                if j < m.slots.len() && k < m.slots.len() {
                    assert(self@.slots[j] == m.slots[j]);
                    assert(self@.slots[k] == m.slots[k]);
                } else if j < m.slots.len() {
                    assert(self@.slots[j] == m.slots[j]);
                    assert(m.slots[j].0 < m.next_id);
                } else {
                    assert(self@.slots[k] == m.slots[k]);
                    assert(m.slots[k].0 < m.next_id);
                }
            }
            assert forall|k: int| 0 <= k < self@.slots.len() implies 0 <= #[trigger] self@.slots[k].0 < self@.next_id by {
                if k < m.slots.len() {
                    assert(self@.slots[k] == m.slots[k]);
                }
            }
        }
        let frame = ToServer::action(id, method, args);
        match self.send_msg(frame, false) {
            Some(f) => ActionStart::Transmit { id, frame: f },
            None => ActionStart::Queued { id },
        }
    }

    fn find_subscription(&self, name: &String) -> (r: Option<usize>)
        ensures
            match r {
                Some(k) => k < self@.subs.len() && self@.subs[k as int].0@ == name@,
                None => !is_subscribed(self@.subs, name@),
            },
    {
        let mut k: usize = 0;
        while k < self.subscriptions.len()
            invariant
                k <= self.subscriptions@.len(),
                self@.subs.len() == self.subscriptions@.len(),
                forall|j: int| 0 <= j < k ==> #[trigger] self@.subs[j].0@ != name@,
            decreases self.subscriptions@.len() - k,
        {
            proof {
                assert(self@.subs[k as int] == sub_view(self.subscriptions@[k as int]));
            }
            if self.subscriptions[k].name == *name {
                return Some(k);
            }
            k = k + 1;
        }
        None
    }

    /// Registers `callback` for `name`. The first callback of a name also
    /// yields an ephemeral subscription request, returned when a driver is
    /// attached to take it.
    pub fn on_event(&mut self, name: String, callback: C) -> (r: Option<ToServer>)
        requires
            old(self).wf(),
        ensures
            final(self).wf(),
            (final(self)@, r) == subscribe_model(old(self)@, name, callback),
    {
        let ghost m = self@;
        match self.find_subscription(&name) {
            Some(k) => {
                proof {
                    assert(m.subs[sub_index(m.subs, name@)].0@ == name@);
                    assert(sub_index(m.subs, name@) == k);
                }
                let mut sub = self.subscriptions.remove(k);
                sub.callbacks.push(callback);
                self.subscriptions.insert(k, sub);
                proof {
                    let k2 = sub_index(m.subs, name@);
                    assert(self@.subs =~= m.subs.update(k2, (m.subs[k2].0, m.subs[k2].1.push(callback))));
                    assert(self@.slots == m.slots);
                    assert forall|j: int| 0 <= j < self@.subs.len() implies #[trigger] self@.subs[j].0@ == m.subs[j].0@ by {
                        if j != k2 {
                            assert(self@.subs[j] == m.subs[j]);
                        }
                    }
                }
                None
            },
            None => {
                let frame = ToServer::subscription(name.clone(), true);
                let mut callbacks: Vec<C> = Vec::new();
                callbacks.push(callback);
                self.subscriptions.push(Subscription { name, callbacks });
                proof {
                    assert(callbacks@ =~= seq![callback]);
                    assert(self@.subs =~= m.subs.push((name, seq![callback])));
                    assert(self@.slots == m.slots);
                    assert forall|j: int, k: int|
                        0 <= j < self@.subs.len() && 0 <= k < self@.subs.len() && j != k implies #[trigger] self@.subs[j].0@
                            != #[trigger] self@.subs[k].0@ by {
                        if j < m.subs.len() && k < m.subs.len() {
                            assert(self@.subs[j] == m.subs[j]);
                            assert(self@.subs[k] == m.subs[k]);
                        } else if j < m.subs.len() {
                            assert(self@.subs[j] == m.subs[j]);
                        } else {
                            assert(self@.subs[k] == m.subs[k]);
                        }
                    }
                }
                self.send_msg(frame, true)
            },
        }
    }

    /// The callbacks of `name`, in registration order.
    pub fn callbacks(&self, name: &String) -> (r: Option<&Vec<C>>)
        requires
            self.wf(),
        ensures
            match r {
                Some(cbs) => is_subscribed(self@.subs, name@) && cbs@ == callbacks_of(self@.subs, name@),
                None => !is_subscribed(self@.subs, name@),
            },
    {
        match self.find_subscription(name) {
            Some(k) => {
                proof {
                    let m = self@;
                    assert(m.subs[sub_index(m.subs, name@)].0@ == name@);
                    assert(sub_index(m.subs, name@) == k);
                    assert(m.subs[k as int] == sub_view(self.subscriptions@[k as int]));
                }
                Some(&self.subscriptions[k].callbacks)
            },
            None => None,
        }
    }

    /// Init arrived: Open, every subscription again, then the drained queue.
    pub fn on_open(&mut self) -> (r: (Vec<ToServer>, Vec<ToServer>))
        requires
            old(self).wf(),
        ensures
            final(self).wf(),
            (final(self)@, r.0@, r.1@) == open_model(old(self)@),
    {
        let ghost m = self@;
        let mut subs: Vec<ToServer> = Vec::new();
        if !self.attached || self.is_disconnecting() {
            proof {
                assert(subs@ =~= Seq::empty());
            }
            return (subs, Vec::new());
        }
        let mut k: usize = 0;
        while k < self.subscriptions.len()
            invariant
                self@ == m,
                k <= self.subscriptions@.len(),
                m.subs.len() == self.subscriptions@.len(),
                subs@ =~= rehydration_frames(m.subs).take(k as int),
            decreases self.subscriptions@.len() - k,
        {
            proof {
                assert(m.subs[k as int] == sub_view(self.subscriptions@[k as int]));
            }
            subs.push(ToServer::subscription(self.subscriptions[k].name.clone(), true));
            k = k + 1;
            proof {
                assert(subs@ =~= rehydration_frames(m.subs).take(k as int));
            }
        }
        proof {
            assert(rehydration_frames(m.subs).take(k as int) =~= rehydration_frames(m.subs));
        }
        let mut queued: Vec<ToServer> = Vec::new();
        std::mem::swap(&mut self.queue, &mut queued);
        self.state = ConnectionState::Open;
        proof {
            assert(self@.queue =~= Seq::empty());
            assert(self@.subs == m.subs);
            assert(self@.slots == m.slots);
        }
        (subs, queued)
    }

    fn find_slot(&self, id: i64) -> (r: Option<usize>)
        ensures
            match r {
                Some(k) => k < self@.slots.len() && self@.slots[k as int].0 == id,
                None => !has_slot(self@.slots, id),
            },
    {
        let mut k: usize = 0;
        while k < self.slots.len()
            invariant
                k <= self.slots@.len(),
                self@.slots == self.slots@,
                forall|j: int| 0 <= j < k ==> #[trigger] self.slots@[j].0 != id,
            decreases self.slots@.len() - k,
        {
            if self.slots[k].0 == id {
                return Some(k);
            }
            k = k + 1;
        }
        None
    }

    /// Removes the slot of `id` and returns its waiter.
    pub fn take_slot(&mut self, id: i64) -> (r: Option<W>)
        requires
            old(self).wf(),
        ensures
            final(self).wf(),
            (final(self)@, r) == take_model(old(self)@, id),
            !has_slot(final(self)@.slots, id),
            forall|k: int|
                0 <= k < old(self)@.slots.len() && #[trigger] old(self)@.slots[k].0 == id ==> r == Some(
                    old(self)@.slots[k].1,
                ),
    {
        let ghost m = self@;
        match self.find_slot(id) {
            Some(k) => {
                proof {
                    assert(m.slots[slot_index(m.slots, id)].0 == id);
                    assert(slot_index(m.slots, id) == k);
                }
                let (_, w) = self.slots.remove(k);
                proof {
                    assert(self@.slots =~= m.slots.remove(k as int));
                    assert(self@.subs == m.subs);
                    assert forall|j: int| 0 <= j < self@.slots.len() implies #[trigger] self@.slots[j] == (if j < k { m.slots[j] } else { m.slots[j + 1] }) by {}
                    assert forall|j: int| 0 <= j < self@.slots.len() implies self@.slots[j].0 != id by {
                        if j < k {
                            assert(self@.slots[j] == m.slots[j]);
                        } else {
                            assert(self@.slots[j] == m.slots[j + 1]);
                        }
                    }
                }
                Some(w)
            },
            None => None,
        }
    }

    /// What a frame from the actor calls for; slots are removed on the replies
    /// they await.
    pub fn handle_message(&mut self, msg: ToClient) -> (r: Dispatch<W>)
        requires
            old(self).wf(),
        ensures
            final(self).wf(),
            match msg.b {
                ToClientBody::Init { .. } => {
                    let (m, s, q) = open_model(old(self)@);
                    &&& final(self)@ == m
                    &&& r matches Dispatch::Opened { subscriptions, queued }
                    &&& subscriptions@ == s
                    &&& queued@ == q
                },
                ToClientBody::ActionResponse { ar } => {
                    let (m, w) = take_model(old(self)@, ar.i);
                    &&& final(self)@ == m
                    &&& match w {
                        Some(w) => r == (Dispatch::Answered { waiter: w, outcome: Ok(ar.o) }),
                        None => r == Dispatch::<W>::Unmatched { id: ar.i },
                    }
                },
                ToClientBody::Error { e } => match e.ai {
                    Some(id) => {
                        let (m, w) = take_model(old(self)@, id);
                        &&& final(self)@ == m
                        &&& match w {
                            Some(w) => r == (Dispatch::Answered { waiter: w, outcome: Err(e) }),
                            None => r == Dispatch::<W>::Unmatched { id },
                        }
                    },
                    None => final(self)@ == old(self)@ && r == Dispatch::<W>::ConnectionError {
                        error: e,
                    },
                },
                ToClientBody::EventMessage { ev } => final(self)@ == old(self)@ && r
                    == Dispatch::<W>::Event { name: ev.n, args: ev.a },
            },
    {
        match msg.b {
            ToClientBody::Init { .. } => {
                let (subscriptions, queued) = self.on_open();
                Dispatch::Opened { subscriptions, queued }
            },
            ToClientBody::ActionResponse { ar } => match self.take_slot(ar.i) {
                Some(waiter) => Dispatch::Answered { waiter, outcome: Ok(ar.o) },
                None => Dispatch::Unmatched { id: ar.i },
            },
            ToClientBody::Error { e } => match e.ai {
                Some(id) => match self.take_slot(id) {
                    Some(waiter) => Dispatch::Answered { waiter, outcome: Err(e) },
                    None => Dispatch::Unmatched { id },
                },
                None => Dispatch::ConnectionError { error: e },
            },
            ToClientBody::EventMessage { ev } => Dispatch::Event { name: ev.n, args: ev.a },
        }
    }

    /// Stops the connection. The first call moves to Draining and returns the
    /// teardown; later calls return `None` and change nothing.
    pub fn disconnect(&mut self) -> (r: Option<Teardown<W>>)
        requires
            old(self).wf(),
        ensures
            final(self).wf(),
            ({
                let (m, t) = disconnect_model(old(self)@);
                &&& final(self)@ == m
                &&& match (r, t) {
                    (Some(x), Some(y)) => x.waiters@ == y.0 && x.stop_driver == y.1,
                    (None, None) => true,
                    _ => false,
                }
            }),
    {
        if self.is_disconnecting() {
            return None;
        }
        let ghost m = self@;
        let stop_driver = self.attached;
        let mut waiters: Vec<W> = Vec::new();
        let mut slots: Vec<(i64, W)> = Vec::new();
        std::mem::swap(&mut self.slots, &mut slots);
        let ghost all = slots@;
        while slots.len() > 0
            invariant
                all == m.slots,
                all.len() == waiters@.len() + slots@.len(),
                waiters@ =~= all.map_values(|p: (i64, W)| p.1).take(waiters@.len() as int),
                slots@ =~= all.skip(waiters@.len() as int),
            decreases slots@.len(),
        {
            let (_, w) = slots.remove(0);
            waiters.push(w);
            proof {
                assert(waiters@ =~= all.map_values(|p: (i64, W)| p.1).take(waiters@.len() as int));
                assert(slots@ =~= all.skip(waiters@.len() as int));
            }
        }
        proof {
            assert(waiters@ =~= all.map_values(|p: (i64, W)| p.1));
        }
        self.subscriptions = Vec::new();
        self.attached = false;
        self.state = ConnectionState::Draining;
        proof {
            assert(self@.slots =~= Seq::empty());
            assert(self@.subs =~= Seq::empty());
        }
        Some(Teardown { waiters, stop_driver })
    }

    /// The supervisor ended after a stop: Draining becomes Closed.
    pub fn finish(&mut self)
        requires
            old(self).wf(),
        ensures
            final(self).wf(),
            final(self)@ == (if old(self)@.state is Draining {
                ConnectionModel { state: ConnectionState::Closed, ..old(self)@ }
            } else {
                old(self)@
            }),
    {
        if let ConnectionState::Draining = self.state {
            self.state = ConnectionState::Closed;
        }
    }
}

} // verus!
