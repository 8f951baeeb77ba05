//! Publish/subscribe bus for control events.
//!
//! A subscription channel is created per event kind on first subscribe and
//! reused afterwards; any number of listeners receive every event, whatever
//! its kind. Only subscriptions and listeners present when an event is
//! published receive it.
use vstd::prelude::*;

verus! {

/// Kinds of control events.
#[derive(Clone, Copy, Debug, PartialEq, Eq, Hash, Structural)]
pub enum EventType {
    /// Recreate every update service from its current configuration.
    RestartDdnsService,
    /// Run a forced update of one record, or of all when no name is given.
    ForceUpdateDns,
    /// The stored configuration changed.
    ConfigChanged,
}

/// A control event: its kind and an optional payload.
#[derive(Debug)]
pub struct EventData {
    pub event_type: EventType,
    pub data: Option<String>,
}

impl EventType {
    pub open spec fn name(self) -> Seq<char> {
        match self {
            EventType::RestartDdnsService => "RestartDdnsService"@,
            EventType::ForceUpdateDns => "ForceUpdateDns"@,
            EventType::ConfigChanged => "ConfigChanged"@,
        }
    }

    pub fn to_string(&self) -> (r: String)
        ensures
            r@ == self.name(),
    {
        match self {
            EventType::RestartDdnsService => "RestartDdnsService".to_string(),
            EventType::ForceUpdateDns => "ForceUpdateDns".to_string(),
            EventType::ConfigChanged => "ConfigChanged".to_string(),
        }
    }
}

impl EventData {
    pub fn duplicate(&self) -> (r: EventData)
        ensures
            r == *self,
    {
        let data = match &self.data {
            Some(s) => Some(s.clone()),
            None => None,
        };
        EventData { event_type: self.event_type, data }
    }
}

/// Receives every published event, in publication order.
pub trait EventListener {
    fn handle_event(&mut self, event: EventData);
}

/// A receiver on the channel of one kind: it reads the events published on
/// the channel from `cursor` on.
#[derive(Debug)]
pub struct Subscription {
    pub kind: EventType,
    pub channel: usize,
    pub cursor: usize,
}

/// The channel of one kind: the last events published on it, at most
/// `CHANNEL_CAPACITY` of them.
#[derive(Debug)]
pub struct Channel {
    pub kind: EventType,
    pub log: Vec<EventData>,
    /// How many earlier events were dropped from the front of `log`; a
    /// subscription counts its position from the channel's first event.
    pub start: usize,
}

/// How many events a channel keeps for subscriptions that have not read
/// them yet.
pub const CHANNEL_CAPACITY: usize = 16;

impl Channel {
    /// Position, counted from the channel's first event, after the last one.
    pub open spec fn end(&self) -> int {
        self.start + self.log.len()
    }
}

/// The events a channel keeps after `event` is appended to `log`: the oldest
/// is dropped once the capacity is exceeded.
pub open spec fn kept_after(log: Seq<EventData>, event: EventData) -> Seq<EventData> {
    if log.len() < CHANNEL_CAPACITY {
        log.push(event)
    } else {
        log.push(event).drop_first()
    }
}

/// The event bus.
#[derive(Debug)]
pub struct EventManager {
    pub channels: Vec<Channel>,
    /// Events delivered to each listener and not yet taken, one queue per
    /// listener in registration order.
    pub listeners: Vec<Vec<EventData>>,
}

impl EventManager {
    /// At most one channel per kind, each within its capacity.
    pub open spec fn wf(&self) -> bool {
        &&& forall|i: int, j: int|
            0 <= i < j < self.channels.len() ==> self.channels@[i].kind != self.channels@[j].kind
        &&& forall|i: int|
            0 <= i < self.channels.len() ==> #[trigger] self.channels@[i].log.len()
                <= CHANNEL_CAPACITY && self.channels@[i].end() <= usize::MAX
    }

    /// Whether a channel of `kind` exists.
    pub open spec fn has_channel(&self, kind: EventType) -> bool {
        exists|i: int| 0 <= i < self.channels.len() && self.channels@[i].kind == kind
    }

    pub open spec fn valid_subscription(&self, sub: Subscription) -> bool {
        &&& sub.channel < self.channels.len()
        &&& self.channels@[sub.channel as int].kind == sub.kind
        &&& sub.cursor <= self.channels@[sub.channel as int].end()
    }

    /// The events a subscription has yet to read: those still kept from its
    /// position on. A subscription that fell behind further than the
    /// capacity has lost the events dropped meanwhile.
    pub open spec fn pending(&self, sub: Subscription) -> Seq<EventData> {
        let ch = self.channels@[sub.channel as int];
        let from = if sub.cursor < ch.start {
            0
        } else {
            sub.cursor - ch.start
        };
        ch.log@.subrange(from, ch.log.len() as int)
    }

    /// The queue of each listener.
    pub open spec fn inboxes(&self) -> Seq<Seq<EventData>> {
        self.listeners@.map_values(|v: Vec<EventData>| v@)
    }

    pub fn new() -> (r: EventManager)
        ensures
            r.wf(),
            r.channels.len() == 0,
            r.listeners.len() == 0,
    {
        EventManager { channels: Vec::new(), listeners: Vec::new() }
    }

    /// Registers a listener and returns its number; it receives the events
    /// published from now on.
    pub fn register_listener(&mut self) -> (r: usize)
        requires
            old(self).wf(),
        ensures
            final(self).wf(),
            r == old(self).listeners.len(),
            final(self).inboxes() == old(self).inboxes().push(Seq::empty()),
            final(self).channels == old(self).channels,
    {
        let r = self.listeners.len();
        self.listeners.push(Vec::new());
        assert(self.inboxes() =~= old(self).inboxes().push(Seq::empty()));
        r
    }

    fn find_channel(&self, kind: EventType) -> (r: Option<usize>)
        requires
            self.wf(),
        ensures
            r is Some <==> self.has_channel(kind),
            r matches Some(i) ==> i < self.channels.len() && self.channels@[i as int].kind == kind,
    {
        let mut i: usize = 0;
        while i < self.channels.len()
            invariant
                i <= self.channels.len(),
                forall|j: int| 0 <= j < i ==> self.channels@[j].kind != kind,
            decreases self.channels.len() - i,
        {
            if self.channels[i].kind == kind {
                return Some(i);
            }
            i = i + 1;
        }
        None
    }

    /// Subscribes to one kind. The first subscription creates the channel;
    /// later ones reuse it. The new subscription has nothing pending.
    pub fn subscribe(&mut self, kind: EventType) -> (r: Subscription)
        requires
            old(self).wf(),
        ensures
            final(self).wf(),
            final(self).valid_subscription(r),
            r.kind == kind,
            final(self).pending(r).len() == 0,
            final(self).listeners == old(self).listeners,
            old(self).has_channel(kind) ==> final(self).channels == old(self).channels,
            !old(self).has_channel(kind) ==> final(self).channels.len() == old(self).channels.len() + 1,
            forall|i: int|
                0 <= i < old(self).channels.len() ==> #[trigger] final(self).channels@[i]
                    == old(self).channels@[i],
            final(self).has_channel(kind),
    {
        match self.find_channel(kind) {
            Some(i) => {
                let cursor = self.channels[i].start + self.channels[i].log.len();
                Subscription { kind, channel: i, cursor }
            },
            None => {
                let i = self.channels.len();
                self.channels.push(Channel { kind, log: Vec::new(), start: 0 });
                proof {
                    assert(self.channels@[i as int].kind == kind);
                }
                Subscription { kind, channel: i, cursor: 0 }
            },
        }
    }

    /// Publishes an event: it is appended to the channel of its kind, if
    /// there is one, and delivered to every listener. A kind nobody
    /// subscribed to is not an error.
    pub fn publish(&mut self, event: EventData)
        requires
            old(self).wf(),
        ensures
            final(self).wf(),
            final(self).channels.len() == old(self).channels.len(),
            forall|i: int|
                #![trigger final(self).channels@[i]]
                0 <= i < old(self).channels.len() ==> final(self).channels@[i].kind == old(
                    self,
                ).channels@[i].kind && if old(self).channels@[i].kind == event.event_type
                    && old(self).channels@[i].end() < usize::MAX {
                    &&& final(self).channels@[i].log@ == kept_after(old(self).channels@[i].log@, event)
                    &&& final(self).channels@[i].end() == old(self).channels@[i].end() + 1
                } else {
                    final(self).channels@[i] == old(self).channels@[i]
                },
            final(self).listeners.len() == old(self).listeners.len(),
            forall|i: int|
                0 <= i < old(self).listeners.len() ==> #[trigger] final(self).listeners@[i]@ == old(
                    self,
                ).listeners@[i]@.push(event),
    {
        if let Some(c) = self.find_channel(event.event_type) {
            if self.channels[c].start < usize::MAX - self.channels[c].log.len() {
                let copy = event.duplicate();
                let mut channel = self.channels.remove(c);
                channel.log.push(copy);
                if channel.log.len() > CHANNEL_CAPACITY {
                    channel.log.remove(0);
                    channel.start = channel.start + 1;
                }
                assert(channel.log@ =~= kept_after(old(self).channels@[c as int].log@, event));
                self.channels.insert(c, channel);
            }
            assert forall|i: int, j: int|
                0 <= i < j < self.channels.len() implies self.channels@[i].kind
                != self.channels@[j].kind by {
                assert(old(self).channels@[i].kind != old(self).channels@[j].kind);
            }
        }
        let ghost mid = self.channels;
        let n = self.listeners.len();
        let mut i: usize = 0;
        while i < n
            invariant
                self.channels == mid,
                n == self.listeners.len(),
                n == old(self).listeners.len(),
                i <= n,
                forall|j: int|
                    0 <= j < i ==> #[trigger] self.listeners@[j]@ == old(self).listeners@[j]@.push(
                        event,
                    ),
                forall|j: int| i <= j < n ==> #[trigger] self.listeners@[j] == old(self).listeners@[j],
            decreases n - i,
        {
            let copy = event.duplicate();
            let mut inbox = self.listeners.remove(i);
            inbox.push(copy);
            self.listeners.insert(i, inbox);
            i = i + 1;
        }
    }

    /// Reads the next pending event of a subscription, if any.
    pub fn recv(&self, sub: &mut Subscription) -> (r: Option<EventData>)
        requires
            self.wf(),
            self.valid_subscription(*old(sub)),
        ensures
            self.valid_subscription(*final(sub)),
            final(sub).kind == old(sub).kind,
            final(sub).channel == old(sub).channel,
            self.pending(*old(sub)).len() == 0 ==> r is None && *final(sub) == *old(sub),
            self.pending(*old(sub)).len() > 0 ==> r == Some(self.pending(*old(sub))[0])
                && self.pending(*final(sub)) == self.pending(*old(sub)).drop_first(),
    {
        let channel = &self.channels[sub.channel];
        let from = if sub.cursor < channel.start {
            0
        } else {
            sub.cursor - channel.start
        };
        if from < channel.log.len() {
            let e = channel.log[from].duplicate();
            sub.cursor = channel.start + from + 1;
            assert(self.pending(*sub) =~= self.pending(*old(sub)).drop_first());
            Some(e)
        } else {
            None
        }
    }

    /// Hands over, in delivery order, the events delivered to a listener
    /// since it last took them.
    pub fn take_events(&mut self, listener: usize) -> (r: Vec<EventData>)
        requires
            old(self).wf(),
            listener < old(self).listeners.len(),
        ensures
            final(self).wf(),
            r == old(self).listeners@[listener as int],
            final(self).channels == old(self).channels,
            final(self).inboxes() == old(self).inboxes().update(listener as int, Seq::empty()),
    {
        let r = self.listeners.remove(listener);
        self.listeners.insert(listener, Vec::new());
        assert(self.inboxes() =~= old(self).inboxes().update(listener as int, Seq::empty()));
        r
    }

    /// Hands the events delivered to listener `listener` to `handler`, in
    /// delivery order, and empties its queue.
    pub fn dispatch<L: EventListener>(&mut self, listener: usize, handler: &mut L) -> (r: usize)
        requires
            old(self).wf(),
            listener < old(self).listeners.len(),
        ensures
            final(self).wf(),
            r == old(self).inboxes()[listener as int].len(),
            final(self).channels == old(self).channels,
            final(self).inboxes() == old(self).inboxes().update(listener as int, Seq::empty()),
    {
        let events = self.take_events(listener);
        let n = events.len();
        let mut events = events;
        let mut i: usize = 0;
        while i < n
            invariant
                i <= n,
                events.len() == n - i,
            decreases n - i,
        {
            let event = events.remove(0);
            handler.handle_event(event);
            i = i + 1;
        }
        n
    }

    /// Publishes a restart of every update service.
    pub fn restart_ddns_service(&mut self)
        requires
            old(self).wf(),
        ensures
            final(self).wf(),
            final(self).listeners.len() == old(self).listeners.len(),
            forall|i: int|
                0 <= i < old(self).listeners.len() ==> #[trigger] final(self).listeners@[i]@ == old(
                    self,
                ).listeners@[i]@.push(EventData { event_type: EventType::RestartDdnsService, data: None }),
    {
        self.publish(EventData { event_type: EventType::RestartDdnsService, data: None });
    }

    /// Publishes a forced update of one record, or of all when `record_name`
    /// is None.
    pub fn force_update_dns(&mut self, record_name: Option<String>)
        requires
            old(self).wf(),
        ensures
            final(self).wf(),
            final(self).listeners.len() == old(self).listeners.len(),
            forall|i: int|
                0 <= i < old(self).listeners.len() ==> #[trigger] final(self).listeners@[i]@ == old(
                    self,
                ).listeners@[i]@.push(EventData { event_type: EventType::ForceUpdateDns, data: record_name }),
    {
        self.publish(EventData { event_type: EventType::ForceUpdateDns, data: record_name });
    }
}

/// Asks every update service to restart, by publishing the restart event on
/// the bus.
pub fn restart_ddns_service(bus: &mut EventManager)
    requires
        old(bus).wf(),
    ensures
        final(bus).wf(),
        final(bus).listeners.len() == old(bus).listeners.len(),
        forall|i: int|
            0 <= i < old(bus).listeners.len() ==> #[trigger] final(bus).listeners@[i]@ == old(
                bus,
            ).listeners@[i]@.push(EventData { event_type: EventType::RestartDdnsService, data: None }),
{
    bus.restart_ddns_service();
}

} // verus!
