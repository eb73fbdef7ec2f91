//! The consumer's per-session view: connection status, the packet log it
//! renders, its subscriptions, and the command-relay handle it received
//! with the session-ready notification.

use vstd::prelude::*;

use crate::message::{Event, FromClient, Packet, ToBackend, ToClient, Topic};
use crate::options::MqttOpts;
use crate::relay::{send_effect, Relay};
use crate::subscription::Subcribe;

verus! {

/// One session as the consumer sees it.
pub struct Client {
    pub connected: bool,
    pub options: MqttOpts,
    pub packets: Vec<Event>,
    pub publish_tx: Option<Relay<ToClient>>,
    pub subscriptions: Vec<Subcribe>,
    pub recv: u32,
}

/// The received-publish counter after one event: it counts incoming
/// publishes and wraps at the type's bound.
pub open spec fn recv_after(recv: u32, ev: Event) -> u32 {
    if ev matches Event::Incoming(Packet::Publish(_)) {
        if recv < u32::MAX {
            (recv + 1) as u32
        } else {
            0
        }
    } else {
        recv
    }
}

/// The connection flag after one event: a connection acknowledgment sets
/// it, a disconnect packet clears it, nothing else moves it.
pub open spec fn connected_after(connected: bool, ev: Event) -> bool {
    match ev {
        Event::Incoming(Packet::ConnAck) => true,
        Event::Incoming(Packet::Disconnect) => false,
        _ => connected,
    }
}

/// The command relay after re-issuing every held subscription in order,
/// each with a non-blocking send.
pub open spec fn resubscribed(q: Seq<ToClient>, cap: int, subs: Seq<Subcribe>) -> Seq<ToClient>
    decreases subs.len(),
{
    if subs.len() == 0 {
        q
    } else {
        resubscribed(
            send_effect(q, cap, ToClient::Subscribe(subs[0].topic, subs[0].qos)),
            cap,
            subs.drop_first(),
        )
    }
}

/// Builds the consumer-side view of a fresh session, not yet connected
/// and without a command handle, together with the creation request to
/// put on the orchestrator's control channel.
pub fn create_client(options: MqttOpts) -> (r: (Client, ToBackend))
    ensures
        r.1 == ToBackend::NewClient(options),
        !r.0.connected,
        r.0.options == options,
        r.0.packets@ == Seq::<Event>::empty(),
        r.0.publish_tx is None,
        r.0.subscriptions@ == Seq::<Subcribe>::empty(),
        r.0.recv == 0,
        r.0.wf(),
{
    let request = ToBackend::NewClient(options.duplicate());
    let client = Client {
        connected: false,
        options,
        packets: Vec::new(),
        publish_tx: None,
        subscriptions: Vec::new(),
        recv: 0,
    };
    (client, request)
}

impl Client {
    /// The command-relay handle, when held, is well formed.
    pub open spec fn wf(&self) -> bool {
        self.publish_tx matches Some(q) ==> q.wf()
    }

    /// Applies one session-originated message to the view: a raw event is
    /// appended to the packet log and drives the connection flag and the
    /// counter; the connection acknowledgment re-issues every held
    /// subscription; a publish result changes nothing here; the terminal
    /// notification clears the connection flag.
    pub fn handle_msg(&mut self, msg: FromClient)
        requires
            old(self).wf(),
        ensures
            final(self).wf(),
            final(self).options == old(self).options,
            msg matches FromClient::Disconnected(_) ==> {
                &&& !final(self).connected
                &&& final(self).packets == old(self).packets
                &&& final(self).recv == old(self).recv
                &&& final(self).subscriptions == old(self).subscriptions
                &&& final(self).publish_tx == old(self).publish_tx
            },
            msg matches FromClient::PublishReslt(_, _) ==> {
                &&& final(self).connected == old(self).connected
                &&& final(self).packets == old(self).packets
                &&& final(self).recv == old(self).recv
                &&& final(self).subscriptions == old(self).subscriptions
                &&& final(self).publish_tx == old(self).publish_tx
            },
            msg matches FromClient::Event(ev) ==> {
                &&& final(self).packets@ == old(self).packets@.push(ev)
                &&& final(self).recv == recv_after(old(self).recv, ev)
                &&& final(self).connected == connected_after(old(self).connected, ev)
                &&& final(self).subscriptions == old(self).subscriptions
                &&& match old(self).publish_tx {
                    Option::None => final(self).publish_tx is None,
                    Option::Some(q) => final(self).publish_tx matches Some(p) && p.capacity()
                        == q.capacity() && p.contents() == if ev == Event::Incoming(
                        Packet::ConnAck,
                    ) {
                        resubscribed(q.contents(), q.capacity(), old(self).subscriptions@)
                    } else {
                        q.contents()
                    },
                }
            },
    {
        match msg {
            FromClient::Event(ev) => {
                if matches!(ev, Event::Incoming(Packet::ConnAck)) {
                    self.connected = true;
                    self.subcribe_fresh();
                }
                if matches!(ev, Event::Incoming(Packet::Disconnect)) {
                    self.connected = false;
                }
                if matches!(ev, Event::Incoming(Packet::Publish(_))) {
                    if self.recv < u32::MAX {
                        self.recv = self.recv + 1;
                    } else {
                        self.recv = 0;
                    }
                }
                self.packets.push(ev);
            },
            FromClient::PublishReslt(_, _) => {},
            FromClient::Disconnected(_) => {
                self.connected = false;
            },
        }
    }

    /// Registers a subscription: the subscribe command is sent through
    /// the held handle with a non-blocking send — dropped without notice
    /// on a full relay or without a handle — and the subscription is
    /// remembered either way.
    pub fn subscribe(&mut self, subcribe: Subcribe)
        requires
            old(self).wf(),
        ensures
            final(self).wf(),
            final(self).connected == old(self).connected,
            final(self).options == old(self).options,
            final(self).packets == old(self).packets,
            final(self).recv == old(self).recv,
            final(self).subscriptions@ == old(self).subscriptions@.push(subcribe),
            match old(self).publish_tx {
                Option::None => final(self).publish_tx is None,
                Option::Some(q) => final(self).publish_tx matches Some(p) && p.capacity()
                    == q.capacity() && p.contents() == send_effect(
                    q.contents(),
                    q.capacity(),
                    ToClient::Subscribe(subcribe.topic, subcribe.qos),
                ),
            },
    {
        match &mut self.publish_tx {
            None => {},
            Some(tx) => {
                let _ = tx.try_send(ToClient::Subscribe(subcribe.topic.clone(), subcribe.qos));
            },
        }
        self.subscriptions.push(subcribe);
    }

    /// Re-issues every held subscription, oldest first, through the held
    /// handle, each with a non-blocking send.
    fn subcribe_fresh(&mut self)
        requires
            old(self).wf(),
        ensures
            final(self).wf(),
            final(self).connected == old(self).connected,
            final(self).options == old(self).options,
            final(self).packets == old(self).packets,
            final(self).recv == old(self).recv,
            final(self).subscriptions == old(self).subscriptions,
            match old(self).publish_tx {
                Option::None => final(self).publish_tx is None,
                Option::Some(q) => final(self).publish_tx matches Some(p) && p.capacity()
                    == q.capacity() && p.contents() == resubscribed(
                    q.contents(),
                    q.capacity(),
                    old(self).subscriptions@,
                ),
            },
    {
        let ghost subs = self.subscriptions@;
        match &mut self.publish_tx {
            None => {},
            Some(tx) => {
                let ghost q0 = tx.contents();
                let ghost cap = tx.capacity();
                let mut i: usize = 0;
                proof {
                    assert(subs.skip(0) =~= subs);
                }
                while i < self.subscriptions.len()
                    invariant
                        i <= subs.len(),
                        self.subscriptions@ == subs,
                        tx.wf(),
                        tx.capacity() == cap,
                        resubscribed(q0, cap, subs) == resubscribed(
                            tx.contents(),
                            cap,
                            subs.skip(i as int),
                        ),
                    decreases subs.len() - i,
                {
                    proof {
                        assert(subs.skip(i as int)[0] == subs[i as int]);
                        assert(subs.skip(i as int).drop_first() =~= subs.skip(i as int + 1));
                    }
                    let s = &self.subscriptions[i];
                    let _ = tx.try_send(ToClient::Subscribe(s.topic.clone(), s.qos));
                    i = i + 1;
                }
                proof {
                    assert(subs.skip(subs.len() as int) =~= Seq::<Subcribe>::empty());
                }
            },
        }
    }

    /// Withdraws the subscriptions for a topic filter: the unsubscribe
    /// command is sent through the held handle with a non-blocking send,
    /// and exactly when the relay accepted it, every subscription with
    /// that filter is dropped from the view, keeping the others in order.
    /// Without a handle nothing changes.
    pub fn unsubscribe(&mut self, topic: Topic)
        requires
            old(self).wf(),
        ensures
            final(self).wf(),
            final(self).connected == old(self).connected,
            final(self).options == old(self).options,
            final(self).packets == old(self).packets,
            final(self).recv == old(self).recv,
            match old(self).publish_tx {
                Option::None => final(self).publish_tx is None && final(self).subscriptions == old(
                    self,
                ).subscriptions,
                Option::Some(q) => final(self).publish_tx matches Some(p) && p.capacity()
                    == q.capacity() && p.contents() == send_effect(
                    q.contents(),
                    q.capacity(),
                    ToClient::Unsubscribe(topic),
                ) && if q.contents().len() < q.capacity() {
                    final(self).subscriptions@ == old(self).subscriptions@.filter(
                        |s: Subcribe| s.topic@ != topic@,
                    )
                } else {
                    final(self).subscriptions == old(self).subscriptions
                },
            },
    {
        let accepted: bool;
        match &mut self.publish_tx {
            None => {
                return ;
            },
            Some(tx) => {
                accepted = tx.try_send(ToClient::Unsubscribe(topic.clone())).is_ok();
            },
        }
        if accepted {
            let ghost subs = self.subscriptions@;
            let ghost pred = |s: Subcribe| s.topic@ != topic@;
            let mut kept: Vec<Subcribe> = Vec::new();
            let mut i: usize = 0;
            proof {
                assert(subs.take(0) =~= Seq::<Subcribe>::empty());
                reveal(Seq::filter);
            }
            while i < self.subscriptions.len()
                invariant
                    i <= subs.len(),
                    self.subscriptions@ == subs,
                    kept@ == subs.take(i as int).filter(pred),
                    pred == (|s: Subcribe| s.topic@ != topic@),
                decreases subs.len() - i,
            {
                proof {
                    reveal(Seq::filter);
                    assert(subs.take(i as int + 1).drop_last() =~= subs.take(i as int));
                    assert(subs.take(i as int + 1).last() == subs[i as int]);
                }
                let s = &self.subscriptions[i];
                if !topics_equal(&s.topic, &topic) {
                    kept.push(s.duplicate());
                } else {
                    proof {
                        assert(!pred(subs[i as int]));
                    }
                }
                i = i + 1;
            }
            proof {
                assert(subs.take(subs.len() as int) =~= subs);
            }
            self.subscriptions = kept;
        }
    }
}

/// Whether two topics read the same.
fn topics_equal(a: &String, b: &String) -> (r: bool)
    ensures
        r == (a@ == b@),
{
    *a == *b
}

} // verus!
