//! The session orchestrator: accepts creation and shutdown requests,
//! allocates a command relay and an event relay per session, starts the
//! session's driver, and multiplexes every event relay into the single
//! bounded channel the consumer drains.
//!
//! The ghost `history` records every envelope accepted onto the consumer
//! channel, in order, and is never truncated; the well-formedness
//! invariant pins the ready-before-command guarantee to it.

use vstd::prelude::*;

use crate::driver::{action_of, Driver, DriverAction, DriverInput};
use crate::message::{ClientId, FromClient, ToBackend, ToClient, ToFrontend};
use crate::options::MqttOpts;
use crate::relay::{send_effect, Relay};

verus! {

/// One live session: its identifier, its driver's control state, and the
/// relay pair allocated for it.
pub struct Session {
    pub client_id: ClientId,
    pub driver: Driver,
    pub commands: Relay<ToClient>,
    pub events: Relay<FromClient>,
}

impl Session {
    /// Both relays are well formed and carry the bounds the orchestrator
    /// allocates.
    pub open spec fn wf(&self, cmd_cap: int, evt_cap: int) -> bool {
        &&& self.commands.wf()
        &&& self.events.wf()
        &&& self.commands.capacity() == cmd_cap
        &&& self.events.capacity() == evt_cap
    }
}

/// Why a control request was refused. A refusal is fatal to that request
/// alone, never to the orchestrator.
#[derive(Clone, Copy, Debug, PartialEq, Eq, Structural)]
pub enum RequestError {
    Unimplemented,
    DuplicateSession,
}

/// Whether some live session carries the identifier.
pub open spec fn has_session(sessions: Seq<Session>, id: Seq<char>) -> bool {
    exists|k: int| 0 <= k < sessions.len() && (#[trigger] sessions[k]).client_id@ == id
}

/// No two live sessions share an identifier.
pub open spec fn ids_unique(sessions: Seq<Session>) -> bool {
    forall|i: int, j: int|
        0 <= i < j < sessions.len() ==> (#[trigger] sessions[i]).client_id@ != (
        #[trigger] sessions[j]).client_id@
}

/// Whether an envelope is the ready notification for the identifier.
pub open spec fn is_created_for(m: ToFrontend, id: Seq<char>) -> bool {
    m matches ToFrontend::ClientCreated(c) && c@ == id
}

/// Whether an envelope is a session-originated message for the
/// identifier.
pub open spec fn is_msg_for(m: ToFrontend, id: Seq<char>) -> bool {
    m matches ToFrontend::ClientMsg(c, _) && c@ == id
}

/// The ready notification for the identifier stands in the log before
/// position `j`.
pub open spec fn created_before(h: Seq<ToFrontend>, j: int, id: Seq<char>) -> bool {
    exists|i: int| 0 <= i < j && is_created_for(#[trigger] h[i], id)
}

/// Every session-originated envelope in the log is preceded by the ready
/// notification of its session.
pub open spec fn ready_before(h: Seq<ToFrontend>) -> bool {
    forall|j: int, id: Seq<char>|
        0 <= j < h.len() && #[trigger] is_msg_for(h[j], id) ==> created_before(h, j, id)
}

/// Every live session's ready notification stands in the log.
pub open spec fn created_logged(h: Seq<ToFrontend>, sessions: Seq<Session>) -> bool {
    forall|k: int|
        0 <= k < sessions.len() ==> created_before(
            h,
            h.len() as int,
            (#[trigger] sessions[k]).client_id@,
        )
}

/// The orchestrator: the set of live sessions, the consumer's single
/// bounded inbound channel, the relay bounds it allocates, and the ghost
/// log of everything ever accepted onto that channel.
pub struct Backend {
    pub sessions: Vec<Session>,
    pub out: Relay<ToFrontend>,
    pub cmd_cap: usize,
    pub evt_cap: usize,
    pub history: Ghost<Seq<ToFrontend>>,
}

impl Backend {
    /// The orchestrator's invariant: positive bounds with the event bound
    /// at least the command bound, well-formed relays, unique session
    /// identifiers, every live session's ready notification logged, and
    /// the log ready-before-command throughout.
    pub open spec fn wf(&self) -> bool {
        &&& 1 <= self.cmd_cap <= self.evt_cap
        &&& self.out.wf()
        &&& ids_unique(self.sessions@)
        &&& forall|k: int|
            0 <= k < self.sessions@.len() ==> (#[trigger] self.sessions@[k]).wf(
                self.cmd_cap as int,
                self.evt_cap as int,
            )
        &&& created_logged(self.history@, self.sessions@)
        &&& ready_before(self.history@)
    }

    /// A fresh orchestrator with no sessions. The relay bounds are
    /// tunable; events are typically more voluminous than commands, so
    /// the event bound must not be smaller.
    pub fn new(cmd_cap: usize, evt_cap: usize, out_cap: usize) -> (b: Backend)
        requires
            1 <= cmd_cap <= evt_cap,
            out_cap >= 1,
        ensures
            b.wf(),
            b.sessions@.len() == 0,
            b.out.contents() == Seq::<ToFrontend>::empty(),
            b.out.capacity() == out_cap,
            b.cmd_cap == cmd_cap,
            b.evt_cap == evt_cap,
            b.history@ == Seq::<ToFrontend>::empty(),
    {
        Backend {
            sessions: Vec::new(),
            out: Relay::new(out_cap),
            cmd_cap,
            evt_cap,
            history: Ghost(Seq::empty()),
        }
    }

    /// Finds the live session carrying the identifier, if any.
    fn find(&self, id: &ClientId) -> (r: Option<usize>)
        ensures
            r matches Some(k) ==> k < self.sessions@.len() && self.sessions@[k as int].client_id@
                == id@,
            r is None ==> !has_session(self.sessions@, id@),
    {
        let mut k: usize = 0;
        while k < self.sessions.len()
            invariant
                k <= self.sessions@.len(),
                forall|j: int| 0 <= j < k ==> (#[trigger] self.sessions@[j]).client_id@ != id@,
            decreases self.sessions@.len() - k,
        {
            if self.sessions[k].client_id == *id {
                return Some(k);
            }
            k = k + 1;
        }
        None
    }

    /// Creates a session for the configuration: allocates the relay pair,
    /// starts the driver connecting, and accepts the ready notification
    /// onto the consumer channel before any command for the session can
    /// exist. The reserved configuration revision is refused as
    /// unimplemented, and an identifier still in use is refused so that
    /// each identifier maps to at most one live session.
    ///
    /// The ready notification is delivered with a blocking send; the
    /// precondition models the state after that send found room.
    pub fn request(&mut self, opts: &MqttOpts) -> (r: Result<(), RequestError>)
        requires
            old(self).wf(),
            old(self).out.contents().len() < old(self).out.capacity(),
        ensures
            final(self).wf(),
            final(self).cmd_cap == old(self).cmd_cap,
            final(self).evt_cap == old(self).evt_cap,
            final(self).out.capacity() == old(self).out.capacity(),
            opts matches MqttOpts::V5(_) ==> r == Result::<(), RequestError>::Err(
                RequestError::Unimplemented,
            ) && unchanged_backend(*old(self), *final(self)),
            opts matches MqttOpts::V3(v3) ==> if has_session(old(self).sessions@, v3.client_id@) {
                r == Result::<(), RequestError>::Err(RequestError::DuplicateSession)
                    && unchanged_backend(*old(self), *final(self))
            } else {
                r is Ok && created_session(*old(self), *final(self), v3.client_id@)
            },
    {
        match opts {
            MqttOpts::V5(_) => Err(RequestError::Unimplemented),
            MqttOpts::V3(v3) => {
                if self.find(&v3.client_id).is_some() {
                    return Err(RequestError::DuplicateSession);
                }
                let session = Session {
                    client_id: v3.client_id.clone(),
                    driver: Driver::new(),
                    commands: Relay::new(self.cmd_cap),
                    events: Relay::new(self.evt_cap),
                };
                self.sessions.push(session);
                let ready = ToFrontend::ClientCreated(v3.client_id.clone());
                let ghost logged = ready;
                let sent = self.out.try_send(ready);
                proof {
                    assert(sent is Ok);
                }
                self.history = Ghost(self.history@.push(logged));
                proof {
                    assert(self.sessions@.subrange(0, old(self).sessions@.len() as int) =~= old(self).sessions@);
                    assert(self.out.contents().subrange(0, old(self).out.contents().len() as int)
                        =~= old(self).out.contents());
                    assert(self.history@.subrange(0, old(self).history@.len() as int) =~= old(self).history@);
                    self.lemma_request_wf(*old(self), v3.client_id@);
                }
                Ok(())
            },
        }
    }

    /// The well-formedness bookkeeping behind `request`: appending one
    /// session together with its logged ready notification preserves the
    /// invariant.
    proof fn lemma_request_wf(self, pre: Backend, id: Seq<char>)
        requires
            pre.wf(),
            !has_session(pre.sessions@, id),
            self.cmd_cap == pre.cmd_cap,
            self.evt_cap == pre.evt_cap,
            self.sessions@.len() == pre.sessions@.len() + 1,
            self.sessions@.subrange(0, pre.sessions@.len() as int) == pre.sessions@,
            self.sessions@.last().client_id@ == id,
            self.sessions@.last().wf(self.cmd_cap as int, self.evt_cap as int),
            self.out.wf(),
            self.history@.len() == pre.history@.len() + 1,
            self.history@.subrange(0, pre.history@.len() as int) == pre.history@,
            is_created_for(self.history@.last(), id),
        ensures
            self.wf(),
    {
        let pres = pre.sessions@;
        let posts = self.sessions@;
        let preh = pre.history@;
        let posth = self.history@;
        assert forall|j: int| 0 <= j < pres.len() implies posts[j] == pres[j] by {
            assert(pres[j] == pre.sessions@.subrange(0, pres.len() as int)[j]);
        }
        assert forall|j: int| 0 <= j < preh.len() implies posth[j] == preh[j] by {
            assert(preh[j] == pre.history@.subrange(0, preh.len() as int)[j]);
        }
        assert(ids_unique(posts)) by {
            assert forall|i: int, j: int| 0 <= i < j < posts.len() implies posts[i].client_id@
                != posts[j].client_id@ by {
                if j < pres.len() {
                    assert(pres[i].client_id@ != pres[j].client_id@);
                } else {
                    assert(posts[j].client_id@ == id);
                    assert(!has_session(pres, id));
                    assert(pres[i].client_id@ != id);
                }
            }
        }
        assert(created_logged(posth, posts)) by {
            assert forall|k: int| 0 <= k < posts.len() implies created_before(
                posth,
                posth.len() as int,
                posts[k].client_id@,
            ) by {
                if k < pres.len() {
                    assert(created_before(preh, preh.len() as int, pres[k].client_id@));
                    let i = choose|i: int|
                        0 <= i < preh.len() && is_created_for(#[trigger] preh[i], pres[k].client_id@);
                    assert(is_created_for(posth[i], posts[k].client_id@));
                } else {
                    assert(is_created_for(posth[posth.len() - 1], id));
                }
            }
        }
        assert(ready_before(posth)) by {
            assert forall|j: int, mid: Seq<char>|
                0 <= j < posth.len() && #[trigger] is_msg_for(posth[j], mid) implies created_before(
                posth,
                j,
                mid,
            ) by {
                if j < preh.len() {
                    assert(is_msg_for(preh[j], mid));
                    assert(created_before(preh, j, mid));
                    let i = choose|i: int| 0 <= i < j && is_created_for(#[trigger] preh[i], mid);
                    assert(is_created_for(posth[i], mid));
                } else {
                    assert(!is_msg_for(posth[j], mid));
                }
            }
        }
    }
}

impl Backend {
    /// Submits a command toward the session's driver through the
    /// session's bounded command relay: accepted exactly when the session
    /// lives and its relay has room; dropped without blocking otherwise.
    /// No other session is touched and nothing reaches the consumer
    /// channel.
    pub fn submit_command(&mut self, id: &ClientId, cmd: ToClient) -> (accepted: bool)
        requires
            old(self).wf(),
        ensures
            final(self).wf(),
            final(self).cmd_cap == old(self).cmd_cap,
            final(self).evt_cap == old(self).evt_cap,
            final(self).out.capacity() == old(self).out.capacity(),
            submitted_command(*old(self), *final(self), id@, cmd, accepted),
    {
        match self.find(id) {
            None => false,
            Some(k) => {
                let session = &mut self.sessions[k];
                let r = session.commands.try_send(cmd);
                proof {
                    lemma_update_keeps_wf(*old(self), *self, k as int);
                }
                r.is_ok()
            },
        }
    }

    /// Shuts a session down gracefully: sends the disconnect command on
    /// the matching command relay. A session that is already gone, or a
    /// full relay, makes this a silent no-op; the consumer learns of
    /// termination only through the terminal event.
    pub fn shutdown(&mut self, id: &ClientId)
        requires
            old(self).wf(),
        ensures
            final(self).wf(),
            final(self).cmd_cap == old(self).cmd_cap,
            final(self).evt_cap == old(self).evt_cap,
            final(self).out.capacity() == old(self).out.capacity(),
            submitted_command(
                *old(self),
                *final(self),
                id@,
                ToClient::Disconnect,
                has_session(old(self).sessions@, id@) && session_has_room(old(self).sessions@, id@),
            ),
    {
        let accepted = self.submit_command(id, ToClient::Disconnect);
        proof {
            if has_session(old(self).sessions@, id@) {
                let k = choose|k: int|
                    0 <= k < old(self).sessions@.len() && (#[trigger] old(self).sessions@[k]).client_id@ == id@;
                assert(accepted == (old(self).sessions@[k].commands.contents().len() < old(self).sessions@[k].commands.capacity()));
            }
        }
    }

    /// One step of a session's command loop: takes the oldest relayed
    /// command, if any, and returns the protocol call it maps to, in
    /// submission order. The driver and every other session are
    /// untouched; the caller performs the call and feeds its outcome back
    /// through `driver_step`.
    pub fn command_step(&mut self, i: usize) -> (a: Option<DriverAction>)
        requires
            old(self).wf(),
            i < old(self).sessions@.len(),
        ensures
            final(self).wf(),
            final(self).cmd_cap == old(self).cmd_cap,
            final(self).evt_cap == old(self).evt_cap,
            final(self).out.contents() == old(self).out.contents(),
            final(self).out.capacity() == old(self).out.capacity(),
            final(self).history@ == old(self).history@,
            final(self).sessions@.len() == old(self).sessions@.len(),
            forall|j: int|
                0 <= j < old(self).sessions@.len() && j != i ==> final(self).sessions@[j] == old(self).sessions@[j],
            ({
                let s = old(self).sessions@[i as int];
                let p = final(self).sessions@[i as int];
                &&& p.client_id == s.client_id
                &&& p.driver == s.driver
                &&& p.events == s.events
                &&& p.commands.capacity() == s.commands.capacity()
                &&& if s.commands.contents().len() == 0 {
                    a is None && p.commands.contents() == s.commands.contents()
                } else {
                    a == Some(action_of(s.commands.contents()[0])) && p.commands.contents()
                        == s.commands.contents().drop_first()
                }
            }),
    {
        let session = &mut self.sessions[i];
        let cmd = session.commands.try_recv();
        proof {
            lemma_update_keeps_wf(*old(self), *self, i as int);
        }
        match cmd {
            None => None,
            Some(c) => Some(crate::driver::on_command(c)),
        }
    }

    /// Feeds one driver input into a session: the driver's state machine
    /// advances and whatever it emits is forwarded onto the session's
    /// bounded event relay, dropped there if the relay is full — the
    /// event path never blocks. No other session and nothing of the
    /// consumer channel is touched.
    pub fn driver_step(&mut self, i: usize, input: DriverInput)
        requires
            old(self).wf(),
            i < old(self).sessions@.len(),
        ensures
            final(self).wf(),
            final(self).cmd_cap == old(self).cmd_cap,
            final(self).evt_cap == old(self).evt_cap,
            final(self).out.contents() == old(self).out.contents(),
            final(self).out.capacity() == old(self).out.capacity(),
            final(self).history@ == old(self).history@,
            final(self).sessions@.len() == old(self).sessions@.len(),
            forall|j: int|
                0 <= j < old(self).sessions@.len() && j != i ==> final(self).sessions@[j] == old(self).sessions@[j],
            ({
                let s = old(self).sessions@[i as int];
                let p = final(self).sessions@[i as int];
                &&& p.client_id == s.client_id
                &&& p.commands == s.commands
                &&& p.driver == s.driver.next(input)
                &&& p.events.capacity() == s.events.capacity()
                &&& p.events.contents() == match s.driver.output(input) {
                    Option::None => s.events.contents(),
                    Option::Some(m) => send_effect(
                        s.events.contents(),
                        s.events.capacity(),
                        m,
                    ),
                }
            }),
    {
        let session = &mut self.sessions[i];
        let emitted = session.driver.observe(input);
        match emitted {
            None => {},
            Some(m) => {
                let _ = session.events.try_send(m);
            },
        }
        proof {
            lemma_update_keeps_wf(*old(self), *self, i as int);
        }
    }

    /// One fan-in step for one session: pulls the oldest event from its
    /// relay without blocking, wraps it with the session's identifier and
    /// forwards it to the consumer channel with a non-blocking send — on
    /// a full channel the envelope is dropped rather than stalling the
    /// fan-in. Only this session's event relay and the consumer channel
    /// change.
    pub fn fan_in_one(&mut self, i: usize)
        requires
            old(self).wf(),
            i < old(self).sessions@.len(),
        ensures
            final(self).wf(),
            final(self).cmd_cap == old(self).cmd_cap,
            final(self).evt_cap == old(self).evt_cap,
            final(self).out.capacity() == old(self).out.capacity(),
            final(self).sessions@.len() == old(self).sessions@.len(),
            forall|j: int|
                0 <= j < old(self).sessions@.len() && j != i ==> final(self).sessions@[j] == old(self).sessions@[j],
            ({
                let s = old(self).sessions@[i as int];
                let p = final(self).sessions@[i as int];
                &&& p.client_id == s.client_id
                &&& p.driver == s.driver
                &&& p.commands == s.commands
                &&& p.events.capacity() == s.events.capacity()
                &&& if s.events.contents().len() == 0 {
                    &&& p.events.contents() == s.events.contents()
                    &&& final(self).out.contents() == old(self).out.contents()
                    &&& final(self).history@ == old(self).history@
                } else {
                    let m = ToFrontend::ClientMsg(s.client_id, s.events.contents()[0]);
                    &&& p.events.contents() == s.events.contents().drop_first()
                    &&& final(self).out.contents() == send_effect(
                        old(self).out.contents(),
                        old(self).out.capacity(),
                        m,
                    )
                    &&& final(self).history@ == if old(self).out.contents().len() < old(self).out.capacity() {
                        old(self).history@.push(m)
                    } else {
                        old(self).history@
                    }
                }
            }),
    {
        let session = &mut self.sessions[i];
        let popped = session.events.try_recv();
        proof {
            lemma_update_keeps_wf(*old(self), *self, i as int);
        }
        match popped {
            None => {},
            Some(ev) => {
                let msg = ToFrontend::ClientMsg(self.sessions[i].client_id.clone(), ev);
                let ghost logged = msg;
                let ghost mid = *old(self);
                let sent = self.out.try_send(msg);
                if sent.is_ok() {
                    self.history = Ghost(self.history@.push(logged));
                    proof {
                        lemma_logged_msg_keeps_wf(mid, *self, i as int, logged);
                    }
                }
            },
        }
    }

    /// One consumer pull from the single inbound channel, oldest first.
    pub fn consume(&mut self) -> (m: Option<ToFrontend>)
        requires
            old(self).wf(),
        ensures
            final(self).wf(),
            final(self).cmd_cap == old(self).cmd_cap,
            final(self).evt_cap == old(self).evt_cap,
            final(self).sessions@ == old(self).sessions@,
            final(self).history@ == old(self).history@,
            final(self).out.capacity() == old(self).out.capacity(),
            old(self).out.contents().len() == 0 ==> m is None && final(self).out.contents() == old(self).out.contents(),
            old(self).out.contents().len() > 0 ==> m == Some(old(self).out.contents()[0]) && final(self).out.contents() == old(self).out.contents().drop_first(),
    {
        self.out.try_recv()
    }

    /// Removes a session whose driver has terminated and whose event
    /// relay has drained: an event relay never outlives its driver plus
    /// this finite drain window. A live or still-draining session is left
    /// alone.
    pub fn reap(&mut self, i: usize) -> (removed: bool)
        requires
            old(self).wf(),
            i < old(self).sessions@.len(),
        ensures
            final(self).wf(),
            final(self).cmd_cap == old(self).cmd_cap,
            final(self).evt_cap == old(self).evt_cap,
            final(self).out.contents() == old(self).out.contents(),
            final(self).out.capacity() == old(self).out.capacity(),
            final(self).history@ == old(self).history@,
            removed == (old(self).sessions@[i as int].driver.state is Terminated && old(self).sessions@[i as int].events.contents().len() == 0),
            removed ==> final(self).sessions@ == old(self).sessions@.remove(i as int),
            !removed ==> final(self).sessions@ == old(self).sessions@,
    {
        let terminated = matches!(
            self.sessions[i].driver.state,
            crate::driver::DriverState::Terminated
        );
        let drained = self.sessions[i].events.is_empty();
        if terminated && drained {
            self.sessions.remove(i);
            proof {
                lemma_remove_keeps_wf(*old(self), *self, i as int);
            }
            true
        } else {
            false
        }
    }

    /// Handles one envelope from the control channel. Session creation is
    /// delegated to `request`; the legacy startup request is refused as
    /// unimplemented rather than tearing the control loop down; the
    /// legacy global shutdown request is accepted and does nothing, as it
    /// always has.
    pub fn handle_request(&mut self, req: &ToBackend) -> (r: Result<(), RequestError>)
        requires
            old(self).wf(),
            old(self).out.contents().len() < old(self).out.capacity(),
        ensures
            final(self).wf(),
            final(self).cmd_cap == old(self).cmd_cap,
            final(self).evt_cap == old(self).evt_cap,
            final(self).out.capacity() == old(self).out.capacity(),
            req matches ToBackend::Startup ==> r == Result::<(), RequestError>::Err(
                RequestError::Unimplemented,
            ) && unchanged_backend(*old(self), *final(self)),
            req matches ToBackend::Shutdown ==> r is Ok && unchanged_backend(
                *old(self),
                *final(self),
            ),
            req matches ToBackend::NewClient(opts) ==> {
                &&& opts matches MqttOpts::V5(_) ==> r == Result::<(), RequestError>::Err(
                    RequestError::Unimplemented,
                ) && unchanged_backend(*old(self), *final(self))
                &&& opts matches MqttOpts::V3(v3) ==> if has_session(
                    old(self).sessions@,
                    v3.client_id@,
                ) {
                    r == Result::<(), RequestError>::Err(RequestError::DuplicateSession)
                        && unchanged_backend(*old(self), *final(self))
                } else {
                    r is Ok && created_session(*old(self), *final(self), v3.client_id@)
                }
            },
    {
        match req {
            ToBackend::Startup => Err(RequestError::Unimplemented),
            ToBackend::Shutdown => Ok(()),
            ToBackend::NewClient(opts) => self.request(opts),
        }
    }
}

/// The command relay of the session carrying `id` has room for one more
/// command.
pub open spec fn session_has_room(sessions: Seq<Session>, id: Seq<char>) -> bool {
    exists|k: int|
        0 <= k < sessions.len() && (#[trigger] sessions[k]).client_id@ == id
            && sessions[k].commands.contents().len() < sessions[k].commands.capacity()
}

/// The effect of submitting one command toward the session carrying
/// `id`: nothing reaches the consumer channel or the log, no other
/// session changes in any way, and the addressed session's command relay
/// takes the command exactly when it has room. A missing session makes
/// the submission a silent no-op.
pub open spec fn submitted_command(
    pre: Backend,
    post: Backend,
    id: Seq<char>,
    cmd: ToClient,
    accepted: bool,
) -> bool {
    &&& post.out.contents() == pre.out.contents()
    &&& post.history@ == pre.history@
    &&& post.sessions@.len() == pre.sessions@.len()
    &&& !has_session(pre.sessions@, id) ==> post.sessions@ == pre.sessions@ && !accepted
    &&& forall|j: int|
        0 <= j < pre.sessions@.len() && (#[trigger] pre.sessions@[j]).client_id@ != id ==> post.sessions@[j]
            == pre.sessions@[j]
    &&& forall|j: int|
        0 <= j < pre.sessions@.len() && (#[trigger] pre.sessions@[j]).client_id@ == id ==> {
            let s = pre.sessions@[j];
            let p = post.sessions@[j];
            &&& p.client_id == s.client_id
            &&& p.driver == s.driver
            &&& p.events == s.events
            &&& p.commands.capacity() == s.commands.capacity()
            &&& p.commands.contents() == send_effect(
                s.commands.contents(),
                s.commands.capacity(),
                cmd,
            )
            &&& accepted == (s.commands.contents().len() < s.commands.capacity())
        }
}

/// Ready before command: in everything the consumer can ever have been
/// handed, the ready notification of a session stands before every
/// session-originated envelope of that session. The orchestrator's
/// operations each preserve the invariant this law unfolds, so it holds
/// in every reachable state.
pub proof fn law_ready_before_command(b: Backend)
    requires
        b.wf(),
    ensures
        ready_before(b.history@),
        forall|j: int, id: Seq<char>|
            0 <= j < b.history@.len() && #[trigger] is_msg_for(b.history@[j], id)
                ==> created_before(b.history@, j, id),
{
}

/// Session isolation under creation: creating a session never touches
/// another session's driver or relays, and everything it hands the
/// consumer is tagged with the created session's identifier, never with
/// another's.
pub proof fn law_create_isolation(pre: Backend, post: Backend, id: Seq<char>, other: int)
    requires
        created_session(pre, post, id),
        0 <= other < pre.sessions@.len(),
        pre.sessions@[other].client_id@ != id,
    ensures
        post.sessions@[other] == pre.sessions@[other],
        forall|j: int|
            pre.out.contents().len() <= j < post.out.contents().len() ==> (
            #[trigger] post.out.contents()[j]).tag() == id,
        forall|j: int|
            0 <= j < pre.out.contents().len() ==> post.out.contents()[j]
                == pre.out.contents()[j],
{
    assert(post.sessions@[other] == post.sessions@.subrange(0, pre.sessions@.len() as int)[other]);
    assert forall|j: int| 0 <= j < pre.out.contents().len() implies post.out.contents()[j]
        == pre.out.contents()[j] by {
        assert(pre.out.contents()[j] == post.out.contents().subrange(
            0,
            pre.out.contents().len() as int,
        )[j]);
    }
    assert forall|j: int|
        pre.out.contents().len() <= j < post.out.contents().len() implies (
    #[trigger] post.out.contents()[j]).tag() == id by {
        assert(j == post.out.contents().len() - 1);
        assert(is_created_for(post.out.contents().last(), id));
    }
}

/// Session isolation under command submission and shutdown: a command
/// submitted toward one session, including the graceful-shutdown
/// disconnect, leaves every other session untouched and hands the
/// consumer nothing at all.
pub proof fn law_command_isolation(
    pre: Backend,
    post: Backend,
    id: Seq<char>,
    cmd: ToClient,
    accepted: bool,
    other: int,
)
    requires
        submitted_command(pre, post, id, cmd, accepted),
        0 <= other < pre.sessions@.len(),
        pre.sessions@[other].client_id@ != id,
    ensures
        post.sessions@[other] == pre.sessions@[other],
        post.out.contents() == pre.out.contents(),
        post.history@ == pre.history@,
{
}

/// Replacing one session by another with the same identifier and
/// well-formed relays, while the log and the consumer channel stay as
/// they were, preserves the orchestrator invariant.
proof fn lemma_update_keeps_wf(pre: Backend, post: Backend, i: int)
    requires
        pre.wf(),
        0 <= i < pre.sessions@.len(),
        post.cmd_cap == pre.cmd_cap,
        post.evt_cap == pre.evt_cap,
        post.out == pre.out,
        post.history@ == pre.history@,
        post.sessions@.len() == pre.sessions@.len(),
        forall|j: int| 0 <= j < pre.sessions@.len() && j != i ==> post.sessions@[j] == pre.sessions@[j],
        post.sessions@[i].client_id@ == pre.sessions@[i].client_id@,
        post.sessions@[i].wf(pre.cmd_cap as int, pre.evt_cap as int),
    ensures
        post.wf(),
{
    assert forall|k: int| 0 <= k < post.sessions@.len() implies (#[trigger] post.sessions@[k]).wf(
        post.cmd_cap as int,
        post.evt_cap as int,
    ) by {
        if k != i {
            assert(post.sessions@[k] == pre.sessions@[k]);
        }
    }
    assert forall|a: int, b: int| 0 <= a < b < post.sessions@.len() implies (
    #[trigger] post.sessions@[a]).client_id@ != (#[trigger] post.sessions@[b]).client_id@ by {
        assert(post.sessions@[a].client_id@ == pre.sessions@[a].client_id@);
        assert(post.sessions@[b].client_id@ == pre.sessions@[b].client_id@);
    }
    assert forall|k: int| 0 <= k < post.sessions@.len() implies created_before(
        post.history@,
        post.history@.len() as int,
        (#[trigger] post.sessions@[k]).client_id@,
    ) by {
        assert(post.sessions@[k].client_id@ == pre.sessions@[k].client_id@);
        assert(created_before(pre.history@, pre.history@.len() as int, pre.sessions@[k].client_id@));
    }
}

/// Appending one session-originated envelope for a live session to the
/// log preserves the orchestrator invariant: the session's ready
/// notification already stands in the log, so the log stays
/// ready-before-command.
proof fn lemma_logged_msg_keeps_wf(pre: Backend, post: Backend, i: int, m: ToFrontend)
    requires
        pre.wf(),
        0 <= i < pre.sessions@.len(),
        post.cmd_cap == pre.cmd_cap,
        post.evt_cap == pre.evt_cap,
        post.out.wf(),
        post.sessions@.len() == pre.sessions@.len(),
        forall|j: int|
            0 <= j < pre.sessions@.len() ==> (#[trigger] post.sessions@[j]).client_id@
                == pre.sessions@[j].client_id@ && post.sessions@[j].wf(
                pre.cmd_cap as int,
                pre.evt_cap as int,
            ),
        is_msg_for(m, pre.sessions@[i].client_id@),
        post.history@ == pre.history@.push(m),
    ensures
        post.wf(),
{
    let preh = pre.history@;
    let posth = post.history@;
    assert forall|a: int, b: int| 0 <= a < b < post.sessions@.len() implies (
    #[trigger] post.sessions@[a]).client_id@ != (#[trigger] post.sessions@[b]).client_id@ by {
        assert(pre.sessions@[a].client_id@ != pre.sessions@[b].client_id@);
    }
    assert forall|k: int| 0 <= k < post.sessions@.len() implies created_before(
        posth,
        posth.len() as int,
        (#[trigger] post.sessions@[k]).client_id@,
    ) by {
        let kid = pre.sessions@[k].client_id@;
        assert(created_before(preh, preh.len() as int, kid));
        let w = choose|w: int| 0 <= w < preh.len() && is_created_for(#[trigger] preh[w], kid);
        assert(is_created_for(posth[w], kid));
    }
    assert(ready_before(posth)) by {
        assert forall|j: int, mid: Seq<char>|
            0 <= j < posth.len() && #[trigger] is_msg_for(posth[j], mid) implies created_before(
            posth,
            j,
            mid,
        ) by {
            if j < preh.len() {
                assert(is_msg_for(preh[j], mid));
                assert(created_before(preh, j, mid));
                let w = choose|w: int| 0 <= w < j && is_created_for(#[trigger] preh[w], mid);
                assert(is_created_for(posth[w], mid));
            } else {
                assert(posth[j] == m);
                assert(mid == pre.sessions@[i].client_id@);
                assert(created_before(preh, preh.len() as int, mid));
                let w = choose|w: int| 0 <= w < preh.len() && is_created_for(#[trigger] preh[w], mid);
                assert(is_created_for(posth[w], mid));
            }
        }
    }
}

/// Removing one session, with the log and the consumer channel
/// untouched, preserves the orchestrator invariant.
proof fn lemma_remove_keeps_wf(pre: Backend, post: Backend, i: int)
    requires
        pre.wf(),
        0 <= i < pre.sessions@.len(),
        post.cmd_cap == pre.cmd_cap,
        post.evt_cap == pre.evt_cap,
        post.out == pre.out,
        post.history@ == pre.history@,
        post.sessions@ == pre.sessions@.remove(i),
    ensures
        post.wf(),
{
    assert forall|k: int| 0 <= k < post.sessions@.len() implies (#[trigger] post.sessions@[k]).wf(
        post.cmd_cap as int,
        post.evt_cap as int,
    ) && created_before(
        post.history@,
        post.history@.len() as int,
        post.sessions@[k].client_id@,
    ) by {
        if k < i {
            assert(post.sessions@[k] == pre.sessions@[k]);
        } else {
            assert(post.sessions@[k] == pre.sessions@[k + 1]);
        }
    }
    assert forall|a: int, b: int| 0 <= a < b < post.sessions@.len() implies (
    #[trigger] post.sessions@[a]).client_id@ != (#[trigger] post.sessions@[b]).client_id@ by {
        let pa = if a < i { a } else { a + 1 };
        let pb = if b < i { b } else { b + 1 };
        assert(post.sessions@[a] == pre.sessions@[pa]);
        assert(post.sessions@[b] == pre.sessions@[pb]);
    }
}

/// Nothing about the orchestrator changed: sessions, consumer channel and
/// log are as they were.
pub open spec fn unchanged_backend(pre: Backend, post: Backend) -> bool {
    &&& post.sessions@ == pre.sessions@
    &&& post.out.contents() == pre.out.contents()
    &&& post.history@ == pre.history@
}

/// Exactly one session for `id` was appended, with fresh empty relays and
/// a connecting driver, and exactly its ready notification was accepted
/// onto the consumer channel and the log. Every other session and every
/// earlier log entry are untouched: creating a session emits nothing
/// tagged with any other session's identifier.
pub open spec fn created_session(pre: Backend, post: Backend, id: Seq<char>) -> bool {
    &&& post.sessions@.len() == pre.sessions@.len() + 1
    &&& post.sessions@.subrange(0, pre.sessions@.len() as int) == pre.sessions@
    &&& post.sessions@.last().client_id@ == id
    &&& post.sessions@.last().driver == Driver::spec_new()
    &&& post.sessions@.last().commands.contents() == Seq::<ToClient>::empty()
    &&& post.sessions@.last().events.contents() == Seq::<FromClient>::empty()
    &&& post.out.contents().len() == pre.out.contents().len() + 1
    &&& post.out.contents().subrange(0, pre.out.contents().len() as int) == pre.out.contents()
    &&& is_created_for(post.out.contents().last(), id)
    &&& post.history@.len() == pre.history@.len() + 1
    &&& post.history@.subrange(0, pre.history@.len() as int) == pre.history@
    &&& is_created_for(post.history@.last(), id)
}

} // verus!
