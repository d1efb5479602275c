use offscreen_relay::envelope::{Envelope, MessageKind, Payload};
use offscreen_relay::relay::{posts_with_transfer, route, side_of, ContextRelay, RelayError, Side};
use offscreen_relay::transport::{Context, PostError, Posted, Transport};

fn opaque(tag: u8, refs: Vec<usize>) -> Envelope {
    Envelope::new(MessageKind::Other, Payload::Opaque { data: vec![tag], refs: refs.clone() }, refs)
        .unwrap()
}

fn running() -> ContextRelay {
    let mut relay = ContextRelay::new();
    assert!(!relay.is_running());
    relay.start();
    assert!(relay.is_running());
    relay
}

#[test]
fn routes_between_parent_and_worker() {
    assert_eq!(route(Side::Parent), Context::Worker);
    assert_eq!(route(Side::Worker), Context::Parent);
    assert_eq!(side_of(Context::Parent), Some(Side::Parent));
    assert_eq!(side_of(Context::Worker), Some(Side::Worker));
    assert_eq!(side_of(Context::Window), None);
}

#[test]
fn forwarding_keeps_order_of_one_source() {
    let mut t = Transport::new();
    let relay = running();
    let a = t.create_resource(Context::Window);
    let b = t.create_resource(Context::Window);
    let m1 = opaque(1, vec![a]);
    let m2 = opaque(2, vec![]);
    let m3 = opaque(3, vec![b]);
    assert_eq!(relay.forward(m1, Side::Parent, &mut t), Ok(Context::Worker));
    assert_eq!(relay.forward(m2, Side::Parent, &mut t), Ok(Context::Worker));
    assert_eq!(relay.forward(m3, Side::Parent, &mut t), Ok(Context::Worker));
    assert_eq!(t.pending(Context::Worker), 3);
    assert_eq!(t.pending(Context::Parent), 0);
    for (tag, refs) in [(1u8, vec![a]), (2, vec![]), (3, vec![b])] {
        let p = t.receive(Context::Worker).unwrap();
        assert_eq!(p, Posted { sender: Context::Window, message: opaque(tag, refs) });
    }
    assert!(t.receive(Context::Worker).is_none());
}

#[test]
fn forwarded_transferable_leaves_the_window() {
    let mut t = Transport::new();
    let relay = running();
    let port = t.create_resource(Context::Window);
    assert!(t.can_use(port, Context::Window));
    relay.forward(opaque(1, vec![port]), Side::Parent, &mut t).unwrap();
    assert!(!t.can_use(port, Context::Window));
    assert!(t.can_use(port, Context::Worker));
    let again = relay.forward(opaque(2, vec![port]), Side::Parent, &mut t);
    assert_eq!(again, Err(RelayError::ForwardFailed(PostError::Untransferable)));
    assert_eq!(t.owner(port), Some(Context::Worker));
}

#[test]
fn failed_forward_does_not_stop_the_relay() {
    let mut t = Transport::new();
    let relay = running();
    t.close(Context::Parent);
    assert!(!t.is_open(Context::Parent));
    let r = relay.forward(opaque(1, vec![]), Side::Worker, &mut t);
    assert_eq!(r, Err(RelayError::ForwardFailed(PostError::TargetClosed)));
    assert!(relay.is_running());
    assert_eq!(relay.forward(opaque(2, vec![]), Side::Parent, &mut t), Ok(Context::Worker));
    assert_eq!(t.pending(Context::Worker), 1);
}

#[test]
fn stopped_relay_forwards_nothing() {
    let mut t = Transport::new();
    let mut relay = running();
    relay.stop();
    assert_eq!(relay.forward(opaque(1, vec![]), Side::Parent, &mut t), Err(RelayError::NotRunning));
    assert_eq!(t.pending(Context::Worker), 0);
}

#[test]
fn relay_next_takes_window_queue_in_order() {
    let mut t = Transport::new();
    let relay = running();
    assert_eq!(relay.relay_next(&mut t), None);
    t.post(opaque(1, vec![]), Context::Parent, Context::Window).unwrap();
    t.post(opaque(2, vec![]), Context::Worker, Context::Window).unwrap();
    assert_eq!(relay.relay_next(&mut t), Some(Ok(Context::Worker)));
    assert_eq!(relay.relay_next(&mut t), Some(Ok(Context::Parent)));
    assert_eq!(relay.relay_next(&mut t), None);
    assert_eq!(t.receive(Context::Worker).unwrap().message, opaque(1, vec![]));
    assert_eq!(t.receive(Context::Parent).unwrap().message, opaque(2, vec![]));
}

#[test]
fn post_refusals() {
    let mut t = Transport::new();
    let r = t.create_resource(Context::Parent);
    assert_eq!(
        t.post(opaque(1, vec![]), Context::Window, Context::Window),
        Err(PostError::SameContext)
    );
    assert_eq!(
        t.post(opaque(1, vec![r]), Context::Window, Context::Worker),
        Err(PostError::Untransferable)
    );
    let twice = Envelope {
        kind: MessageKind::Other,
        payload: Payload::Opaque { data: vec![], refs: vec![r] },
        transferables: vec![r, r],
    };
    assert_eq!(t.post(twice, Context::Parent, Context::Window), Err(PostError::Untransferable));
    assert_eq!(t.owner(r), Some(Context::Parent));
    assert_eq!(t.pending(Context::Window), 0);
}

#[test]
fn transfer_list_only_when_needed() {
    assert!(posts_with_transfer(Context::Worker, 0));
    assert!(posts_with_transfer(Context::Worker, 2));
    assert!(!posts_with_transfer(Context::Parent, 0));
    assert!(posts_with_transfer(Context::Parent, 1));
}
