use actor_mailbox::actor::{drain, Actor, ActorState, SlotTable};
use actor_mailbox::command::{Command, RemoteError, RemoteOp, Response};
use actor_mailbox::mailbox::{Mailbox, SendAttempt};
use actor_mailbox::oneshot::RecvOutcome;
use actor_mailbox::probe::Probe;
use bytes::Bytes;

fn accept(mb: &mut Mailbox<Command>, cmd: Command) {
    assert!(matches!(mb.try_send(cmd), SendAttempt::Accepted));
}

fn receive(slots: &mut SlotTable, id: usize) -> Response {
    match slots.probe_recv(id) {
        Probe::Ready(RecvOutcome::Value(r)) => r,
        _ => panic!("expected a delivered outcome"),
    }
}

#[test]
fn get_missing_key_yields_ok_none() {
    let mut slots = SlotTable::new();
    let id = slots.fresh_slot();
    let mut mb: Mailbox<Command> = Mailbox::new(32);
    accept(
        &mut mb,
        Command::Get { key: "missing-key".to_string(), resp: id },
    );
    mb.drop_producer();
    let mut actor = Actor::new();
    // the remote collaborator reports "no value" for the key
    let ops = drain(&mut actor, &mut mb, &mut slots, vec![Response::Got(Ok(None))]);
    assert_eq!(ops.len(), 1);
    match receive(&mut slots, id) {
        Response::Got(Ok(None)) => {}
        _ => panic!("a missing key is Ok(None), not an error"),
    }
}

#[test]
fn two_producers_get_first_then_put() {
    // capacity-32 mailbox, two producer handles; the Get completes its send
    // before the Put
    let mut slots = SlotTable::new();
    let get_id = slots.fresh_slot();
    let put_id = slots.fresh_slot();
    let mut mb: Mailbox<Command> = Mailbox::new(32);
    mb.clone_producer();
    accept(&mut mb, Command::Get { key: "foo".to_string(), resp: get_id });
    mb.drop_producer();
    accept(
        &mut mb,
        Command::Put {
            key: "foo".to_string(),
            val: Bytes::from_static(b"bar"),
            resp: put_id,
        },
    );
    mb.drop_producer();
    let mut actor = Actor::new();
    let outcomes = vec![
        Response::Got(Ok(Some(Bytes::from_static(b"old")))),
        Response::Did(Ok(())),
    ];
    let ops = drain(&mut actor, &mut mb, &mut slots, outcomes);
    // the remote calls occur in the order the sends completed
    assert_eq!(ops.len(), 2);
    match &ops[0] {
        RemoteOp::Get { key } => assert_eq!(key, "foo"),
        _ => panic!("first completed send was the Get"),
    }
    match &ops[1] {
        RemoteOp::Put { key, val } => {
            assert_eq!(key, "foo");
            assert_eq!(val, &Bytes::from_static(b"bar"));
        }
        _ => panic!("second completed send was the Put"),
    }
    // each producer receives exactly one outcome, on its own channel
    match receive(&mut slots, get_id) {
        Response::Got(Ok(Some(v))) => assert_eq!(v, Bytes::from_static(b"old")),
        _ => panic!("the Get got the Put's outcome or none"),
    }
    match receive(&mut slots, put_id) {
        Response::Did(Ok(())) => {}
        _ => panic!("the Put got the Get's outcome or none"),
    }
}

#[test]
fn two_producers_put_first_then_get() {
    // same scenario, opposite completion order
    let mut slots = SlotTable::new();
    let get_id = slots.fresh_slot();
    let put_id = slots.fresh_slot();
    let mut mb: Mailbox<Command> = Mailbox::new(32);
    mb.clone_producer();
    accept(
        &mut mb,
        Command::Put {
            key: "foo".to_string(),
            val: Bytes::from_static(b"bar"),
            resp: put_id,
        },
    );
    mb.drop_producer();
    accept(&mut mb, Command::Get { key: "foo".to_string(), resp: get_id });
    mb.drop_producer();
    let mut actor = Actor::new();
    let outcomes = vec![
        Response::Did(Ok(())),
        Response::Got(Ok(Some(Bytes::from_static(b"bar")))),
    ];
    let ops = drain(&mut actor, &mut mb, &mut slots, outcomes);
    assert_eq!(ops.len(), 2);
    assert!(matches!(&ops[0], RemoteOp::Put { .. }));
    assert!(matches!(&ops[1], RemoteOp::Get { .. }));
    match receive(&mut slots, put_id) {
        Response::Did(Ok(())) => {}
        _ => panic!("the Put got the wrong outcome"),
    }
    match receive(&mut slots, get_id) {
        Response::Got(Ok(Some(v))) => assert_eq!(v, Bytes::from_static(b"bar")),
        _ => panic!("the Get got the wrong outcome"),
    }
}

#[test]
fn closed_empty_mailbox_stops_without_remote_calls() {
    let mut slots = SlotTable::new();
    let mut mb: Mailbox<Command> = Mailbox::new(4);
    mb.drop_producer();
    let mut actor = Actor::new();
    let ops = drain(&mut actor, &mut mb, &mut slots, Vec::new());
    assert_eq!(ops.len(), 0);
    assert!(matches!(actor.state, ActorState::Stopped));
}

#[test]
fn queued_commands_drain_then_stop() {
    let mut slots = SlotTable::new();
    let a = slots.fresh_slot();
    let b = slots.fresh_slot();
    let c = slots.fresh_slot();
    let mut mb: Mailbox<Command> = Mailbox::new(8);
    accept(&mut mb, Command::Get { key: "one".to_string(), resp: a });
    accept(&mut mb, Command::Get { key: "two".to_string(), resp: b });
    accept(
        &mut mb,
        Command::Put { key: "three".to_string(), val: Bytes::from_static(b"3"), resp: c },
    );
    mb.drop_producer();
    let mut actor = Actor::new();
    let outcomes = vec![
        Response::Got(Ok(None)),
        Response::Got(Ok(Some(Bytes::from_static(b"2")))),
        Response::Did(Ok(())),
    ];
    let ops = drain(&mut actor, &mut mb, &mut slots, outcomes);
    // exactly one remote call per queued command, then a clean stop
    assert_eq!(ops.len(), 3);
    assert!(matches!(actor.state, ActorState::Stopped));
    assert_eq!(mb.queue.len(), 0);
    assert!(matches!(receive(&mut slots, a), Response::Got(Ok(None))));
    assert!(matches!(receive(&mut slots, b), Response::Got(Ok(Some(_)))));
    assert!(matches!(receive(&mut slots, c), Response::Did(Ok(()))));
}

#[test]
fn abandoned_receiver_is_a_silent_no_op() {
    let mut slots = SlotTable::new();
    let kept = slots.fresh_slot();
    let abandoned = slots.fresh_slot();
    let mut mb: Mailbox<Command> = Mailbox::new(8);
    accept(&mut mb, Command::Get { key: "k".to_string(), resp: kept });
    accept(&mut mb, Command::Get { key: "a".to_string(), resp: abandoned });
    // the second caller abandons waiting before the actor replies
    slots.drop_receiver(abandoned);
    mb.drop_producer();
    let mut actor = Actor::new();
    let outcomes = vec![
        Response::Got(Ok(Some(Bytes::from_static(b"v")))),
        Response::Got(Ok(Some(Bytes::from_static(b"w")))),
    ];
    let ops = drain(&mut actor, &mut mb, &mut slots, outcomes);
    // the remote call still happened for both; the abandoned reply vanished
    assert_eq!(ops.len(), 2);
    assert!(matches!(
        receive(&mut slots, kept),
        Response::Got(Ok(Some(_)))
    ));
}

#[test]
fn remote_error_is_propagated_as_a_value() {
    let mut slots = SlotTable::new();
    let id = slots.fresh_slot();
    let mut mb: Mailbox<Command> = Mailbox::new(4);
    accept(&mut mb, Command::Get { key: "k".to_string(), resp: id });
    mb.drop_producer();
    let mut actor = Actor::new();
    let outcomes = vec![Response::Got(Err(RemoteError {
        detail: "connection reset".to_string(),
    }))];
    let ops = drain(&mut actor, &mut mb, &mut slots, outcomes);
    assert_eq!(ops.len(), 1);
    match receive(&mut slots, id) {
        Response::Got(Err(e)) => assert_eq!(e.detail, "connection reset"),
        _ => panic!("the remote error must reach the caller unchanged"),
    }
}

#[test]
fn actor_steps_through_its_states() {
    let mut slots = SlotTable::new();
    let id = slots.fresh_slot();
    let mut mb: Mailbox<Command> = Mailbox::new(4);
    accept(&mut mb, Command::Get { key: "k".to_string(), resp: id });
    mb.drop_producer();
    let mut actor = Actor::new();
    actor.poll_mailbox(&mut mb);
    assert!(matches!(actor.state, ActorState::Dispatching { .. }));
    let op = actor.dispatch();
    assert!(matches!(actor.state, ActorState::AwaitingRemote { .. }));
    match op {
        RemoteOp::Get { ref key } => assert_eq!(key, "k"),
        _ => panic!("a Get command dispatches a Get operation"),
    }
    actor.complete_remote(Response::Got(Ok(None)));
    assert!(matches!(actor.state, ActorState::Replying { .. }));
    actor.reply(&mut slots);
    assert!(matches!(actor.state, ActorState::Idle));
    actor.poll_mailbox(&mut mb);
    assert!(matches!(actor.state, ActorState::Stopped));
    assert!(matches!(receive(&mut slots, id), Response::Got(Ok(None))));
}
