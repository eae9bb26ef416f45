use vstd::prelude::*;
use crate::command::Command;
use crate::command::OpKind;
use crate::command::RemoteOp;
use crate::command::Response;
use crate::command::SlotId;
use crate::mailbox::Mailbox;
use crate::mailbox::RecvAttempt;
use crate::oneshot::Oneshot;
use crate::oneshot::RecvOutcome;
use crate::probe::Probe;

verus! {

/// The table of single-use response channels, indexed by `SlotId`. The
/// sender half of slot `i` travels with the command that carries `i`; the
/// issuing caller keeps the receiver half of the same slot.
pub struct SlotTable {
    pub slots: Vec<Oneshot<Response>>,
}

impl SlotTable {
    /// Every slot obeys the one-shot channel invariant.
    pub open spec fn wf(self) -> bool {
        forall|i: int| 0 <= i < self.slots@.len() ==> self.slots@[i].wf()
    }

    pub fn new() -> (t: SlotTable)
        ensures
            t.wf(),
            t.slots@ == Seq::<Oneshot<Response>>::empty(),
    {
        SlotTable { slots: Vec::new() }
    }

    /// Construct one fresh single-use response channel and return its
    /// identifier; the caller keeps the receiver role, the sender role
    /// travels with the command.
    pub fn fresh_slot(&mut self) -> (id: SlotId)
        requires
            old(self).wf(),
        ensures
            (*final(self)).wf(),
            id == old(self).slots@.len(),
            final(self).slots@ == old(self).slots@.push(
                Oneshot { value: None, sender_live: true, receiver_live: true },
            ),
    {
        let id = self.slots.len();
        self.slots.push(Oneshot::new());
        id
    }

    /// Complete slot `id` with `resp`, consuming its sender half. When the
    /// receiver was already destroyed the value is silently discarded: the
    /// requester abandoned interest, which is not an error.
    pub fn complete(&mut self, id: SlotId, resp: Response)
        requires
            old(self).wf(),
            id < old(self).slots@.len(),
            old(self).slots@[id as int].sender_live,
        ensures
            (*final(self)).wf(),
            final(self).slots@ == old(self).slots@.update(
                id as int,
                old(self).slots@[id as int].send_transition(resp).0,
            ),
    {
        let slot = vstd::std_specs::vec::vec_index_mut(&mut self.slots, id);
        let _ = slot.send(resp);
    }

    /// Probe the receiver half of slot `id`.
    pub fn probe_recv(&mut self, id: SlotId) -> (r: Probe<RecvOutcome<Response>>)
        requires
            old(self).wf(),
            id < old(self).slots@.len(),
            old(self).slots@[id as int].receiver_live,
        ensures
            (*final(self)).wf(),
            ({
                let (after, v) = old(self).slots@[id as int].recv_transition();
                &&& final(self).slots@ == old(self).slots@.update(id as int, after)
                &&& r == v
            }),
    {
        let slot = vstd::std_specs::vec::vec_index_mut(&mut self.slots, id);
        slot.probe_recv()
    }

    /// Destroy the receiver half of slot `id`: the caller abandons waiting.
    pub fn drop_receiver(&mut self, id: SlotId)
        requires
            old(self).wf(),
            id < old(self).slots@.len(),
            old(self).slots@[id as int].receiver_live,
        ensures
            (*final(self)).wf(),
            final(self).slots@ == old(self).slots@.update(
                id as int,
                Oneshot {
                    value: None,
                    sender_live: old(self).slots@[id as int].sender_live,
                    receiver_live: false,
                },
            ),
    {
        let slot = vstd::std_specs::vec::vec_index_mut(&mut self.slots, id);
        slot.drop_receiver();
    }
}

/// The connection actor's control state. The actor is the single owner of
/// the remote connection: it holds at most one command at a time, which is
/// the serialization point that removes any need for a lock around the
/// connection.
pub enum ActorState {
    /// Suspended on the mailbox.
    Idle,
    /// A command was received and is about to be taken apart.
    Dispatching { cmd: Command },
    /// The remote call for the current command is in flight; only the
    /// response slot and the operation kind are retained.
    AwaitingRemote { kind: OpKind, resp: SlotId },
    /// The remote outcome is in hand and about to be sent to the slot.
    Replying { resp: SlotId, response: Response },
    /// The mailbox reported `Closed`: every producer handle is gone and the
    /// queue is drained; the actor performs no further remote calls.
    Stopped,
}

/// The connection-owning actor, advanced step by step: receive a command,
/// dispatch it to a remote operation, complete the remote call with its
/// outcome, reply on the command's response slot, and return to idle.
pub struct Actor {
    pub state: ActorState,
}

impl Actor {
    pub fn new() -> (a: Actor)
        ensures
            a.state is Idle,
    {
        Actor { state: ActorState::Idle }
    }

    /// One receive attempt on the mailbox: a queued command moves the actor
    /// to `Dispatching`, an empty-but-open mailbox suspends it in `Idle`,
    /// and a closed mailbox stops it for good.
    pub fn poll_mailbox(&mut self, mb: &mut Mailbox<Command>)
        requires
            old(self).state is Idle,
            old(mb).wf(),
            old(mb).consumer_live,
        ensures
            (*final(mb)).wf(),
            ({
                let (m, v) = old(mb).model().recv_transition();
                &&& final(mb).model() == m
                &&& (v matches RecvAttempt::Item(cmd) ==> final(self).state == (ActorState::Dispatching { cmd }))
                &&& (v is Empty ==> final(self).state is Idle)
                &&& (v is Closed ==> final(self).state is Stopped)
            }),
    {
        match mb.try_recv() {
            RecvAttempt::Item(cmd) => {
                self.state = ActorState::Dispatching { cmd };
            },
            RecvAttempt::Empty => {},
            RecvAttempt::Closed => {
                self.state = ActorState::Stopped;
            },
        }
    }

    /// Take the received command apart: extract the key, value and response
    /// slot, and hand the remote operation to the connection's owner while
    /// the actor awaits its outcome.
    pub fn dispatch(&mut self) -> (op: RemoteOp)
        requires
            old(self).state is Dispatching,
        ensures
            op == old(self).state->cmd.remote_op(),
            final(self).state == (ActorState::AwaitingRemote {
                kind: old(self).state->cmd.kind(),
                resp: old(self).state->cmd.resp_slot(),
            }),
    {
        let mut st = ActorState::Idle;
        core::mem::swap(&mut st, &mut self.state);
        match st {
            ActorState::Dispatching { cmd } => match cmd {
                Command::Get { key, resp } => {
                    self.state = ActorState::AwaitingRemote { kind: OpKind::Get, resp };
                    RemoteOp::Get { key }
                },
                Command::Put { key, val, resp } => {
                    self.state = ActorState::AwaitingRemote { kind: OpKind::Put, resp };
                    RemoteOp::Put { key, val }
                },
            },
            _ => {
                assert(false);
                RemoteOp::Get { key: String::new() }
            },
        }
    }

    /// The remote call finished with `outcome`; the actor moves on to
    /// replying. The outcome must answer the operation kind in flight.
    pub fn complete_remote(&mut self, outcome: Response)
        requires
            old(self).state is AwaitingRemote,
            outcome.kind() == old(self).state->kind,
        ensures
            final(self).state == (ActorState::Replying {
                resp: old(self).state->AwaitingRemote_resp,
                response: outcome,
            }),
    {
        let resp = match &self.state {
            ActorState::AwaitingRemote { resp, .. } => *resp,
            _ => {
                assert(false);
                0
            },
        };
        self.state = ActorState::Replying { resp, response: outcome };
    }

    /// Send the outcome on the command's response slot and return to idle.
    /// A receiver that was dropped meanwhile makes the send a silent no-op.
    pub fn reply(&mut self, slots: &mut SlotTable)
        requires
            old(self).state is Replying,
            old(slots).wf(),
            old(self).state->Replying_resp < old(slots).slots@.len(),
            old(slots).slots@[old(self).state->Replying_resp as int].sender_live,
        ensures
            final(self).state is Idle,
            (*final(slots)).wf(),
            final(slots).slots@ == old(slots).slots@.update(
                old(self).state->Replying_resp as int,
                old(slots).slots@[old(self).state->Replying_resp as int].send_transition(
                    old(self).state->response,
                ).0,
            ),
    {
        let mut st = ActorState::Idle;
        core::mem::swap(&mut st, &mut self.state);
        match st {
            ActorState::Replying { resp, response } => {
                slots.complete(resp, response);
            },
            _ => {
                assert(false);
            },
        }
    }
}

/// True when some command in `cmds` carries response slot `j`.
pub open spec fn slot_targeted(cmds: Seq<Command>, j: int) -> bool {
    exists|i: int| 0 <= i < cmds.len() && cmds[i].resp_slot() == j
}

/// Run the actor's loop to termination over a closed mailbox: every producer
/// handle is gone, so the actor drains the remaining commands in FIFO order
/// and stops on `Closed`. `outcomes[i]` is the outcome the remote
/// collaborator gives the i-th queued command's operation; the function is
/// verified for every such vector, so nothing is assumed about the remote
/// behaviour beyond answering each call.
///
/// The returned vector lists the remote operations performed, in order:
/// exactly one per queued command, none after the mailbox reports `Closed`.
/// Each queued command's response slot receives exactly its own outcome —
/// or, when its receiver was already destroyed, the outcome is discarded
/// with no observable effect. Slots no queued command targets are untouched.
#[verifier::loop_isolation(false)]
pub fn drain(
    actor: &mut Actor,
    mb: &mut Mailbox<Command>,
    slots: &mut SlotTable,
    outcomes: Vec<Response>,
) -> (ops: Vec<RemoteOp>)
    requires
        old(actor).state is Idle,
        old(mb).wf(),
        old(mb).consumer_live,
        old(mb).producers == 0,
        old(slots).wf(),
        outcomes@.len() == old(mb).queue@.len(),
        forall|i: int|
            0 <= i < old(mb).queue@.len() ==> outcomes@[i].kind() == old(mb).queue@[i].kind(),
        forall|i: int|
            0 <= i < old(mb).queue@.len() ==> old(mb).queue@[i].resp_slot() < old(slots).slots@.len(),
        forall|i: int|
            0 <= i < old(mb).queue@.len() ==> old(slots).slots@[old(mb).queue@[i].resp_slot() as int].sender_live,
        forall|i: int, j: int|
            0 <= i < j < old(mb).queue@.len() ==> old(mb).queue@[i].resp_slot() != old(mb).queue@[j].resp_slot(),
    ensures
        final(actor).state is Stopped,
        (*final(mb)).wf(),
        final(mb).queue@.len() == 0,
        final(mb).producers == 0,
        final(mb).consumer_live,
        (*final(slots)).wf(),
        final(slots).slots@.len() == old(slots).slots@.len(),
        ops@.len() == old(mb).queue@.len(),
        forall|i: int|
            0 <= i < old(mb).queue@.len() ==> ops@[i] == old(mb).queue@[i].remote_op(),
        forall|i: int|
            0 <= i < old(mb).queue@.len() ==> final(slots).slots@[old(mb).queue@[i].resp_slot() as int] == old(slots).slots@[old(mb).queue@[i].resp_slot() as int].send_transition(outcomes@[i]).0,
        forall|j: int|
            0 <= j < old(slots).slots@.len() && !slot_targeted(old(mb).queue@, j) ==> final(slots).slots@[j] == old(slots).slots@[j],
{
    let ghost cmds0 = mb.queue@;
    let ghost slots0 = slots.slots@;
    let ghost outs0 = outcomes@;
    let mut outcomes = outcomes;
    let mut ops: Vec<RemoteOp> = Vec::new();
    loop
        invariant
            actor.state is Idle,
            mb.wf(),
            mb.consumer_live,
            mb.producers == 0,
            slots.wf(),
            slots.slots@.len() == slots0.len(),
            ops@.len() <= cmds0.len(),
            mb.queue@ == cmds0.skip(ops@.len() as int),
            outcomes@ == outs0.skip(ops@.len() as int),
            forall|i: int| 0 <= i < ops@.len() ==> ops@[i] == cmds0[i].remote_op(),
            forall|i: int|
                0 <= i < ops@.len() ==> slots.slots@[cmds0[i].resp_slot() as int]
                    == slots0[cmds0[i].resp_slot() as int].send_transition(outs0[i]).0,
            forall|j: int|
                0 <= j < slots0.len() && !slot_targeted(cmds0.take(ops@.len() as int), j)
                    ==> slots.slots@[j] == slots0[j],
        decreases mb.queue@.len(),
    {
        let ghost k = ops@.len() as int;
        proof {
            assert(mb.queue@.len() == cmds0.len() - k);
            if mb.queue@.len() > 0 {
                assert(mb.queue@[0] == cmds0[k]);
                assert(outcomes@[0] == outs0[k]);
            }
        }
        actor.poll_mailbox(mb);
        match &actor.state {
            ActorState::Stopped => {
                proof {
                    assert(cmds0.take(k) =~= cmds0);
                }
                break ;
            },
            ActorState::Dispatching { .. } => {},
            _ => {
                assert(false);
            },
        }
        let op = actor.dispatch();
        let outcome = outcomes.remove(0);
        actor.complete_remote(outcome);
        proof {
            let r = cmds0[k].resp_slot() as int;
            assert forall|i: int| 0 <= i < k implies cmds0[i].resp_slot() != cmds0[k].resp_slot() by {}
            assert(!slot_targeted(cmds0.take(k), r));
            assert(slots.slots@[r] == slots0[r]);
        }
        actor.reply(slots);
        ops.push(op);
        proof {
            let k1 = ops@.len() as int;
            assert(k1 == k + 1);
            assert(mb.queue@ =~= cmds0.skip(k1));
            assert(outcomes@ =~= outs0.skip(k1));
            assert forall|j: int|
                0 <= j < slots0.len() && !slot_targeted(cmds0.take(k1), j) implies slots.slots@[j]
                == slots0[j] by {
                assert(cmds0.take(k1)[k] == cmds0[k]);
                assert(!slot_targeted(cmds0.take(k), j)) by {
                    if slot_targeted(cmds0.take(k), j) {
                        let i = choose|i: int|
                            0 <= i < cmds0.take(k).len() && cmds0.take(k)[i].resp_slot() == j;
                        assert(cmds0.take(k1)[i].resp_slot() == j);
                    }
                }
            }
        }
    }
    ops
}

} // verus!
