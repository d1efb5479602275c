use offscreen_relay::bootstrap::{Request, SurfaceBootstrap};
use offscreen_relay::bridge::HandleBridge;
use offscreen_relay::envelope::Envelope;
use offscreen_relay::inbox::{Dispatch, Phase, WorkerInbox};
use offscreen_relay::relay::ContextRelay;
use offscreen_relay::transport::{Context, Posted, Transport};

const WORKER_THREAD: u64 = 2;

#[test]
fn canvas_handoff_bootstraps_rendering() {
    let mut t = Transport::new();
    let surface = t.create_resource(Context::Window);
    t.post(Envelope::canvas(surface), Context::Window, Context::Worker).unwrap();
    assert!(!t.can_use(surface, Context::Window));

    let mut inbox = WorkerInbox::new();
    let posted = t.receive(Context::Worker).unwrap();
    assert_eq!(posted.sender, Context::Window);
    let handed = match inbox.receive(posted.message) {
        Dispatch::Bootstrap(s) => s,
        other => panic!("unexpected dispatch {:?}", other),
    };
    assert_eq!(handed, surface);
    assert_eq!(inbox.phase(), Phase::Ready);

    let bridge = HandleBridge::new(handed, WORKER_THREAD);
    let mut boot: SurfaceBootstrap<u32, u32, u32, u32> = SurfaceBootstrap::new(bridge);
    assert!(matches!(boot.begin(), Request::CreateInstance(_)));
    assert!(matches!(boot.instance_created(10, WORKER_THREAD), Request::CreateSurface(_, _)));
    let claimed = t.claim(handed, Context::Worker);
    assert!(matches!(boot.surface_created(claimed), Request::RequestAdapter(_)));
    assert!(matches!(boot.adapter_found(Some(20)), Request::RequestDevice(_)));
    assert_eq!(boot.device_created(Some((30, 40))), Request::Finished);
    let res = boot.finish().unwrap();
    assert_eq!((res.instance, res.adapter, res.device, res.queue), (10, 20, 30, 40));
    assert!(!t.can_use(surface, Context::Worker));
}

#[test]
fn plugin_channel_negotiation_through_relay() {
    let mut t = Transport::new();
    let mut relay = ContextRelay::new();
    relay.start();
    let mut inbox = WorkerInbox::new();
    let surface = t.create_resource(Context::Window);
    t.post(Envelope::canvas(surface), Context::Window, Context::Worker).unwrap();
    let canvas = t.receive(Context::Worker).unwrap();
    assert!(matches!(inbox.receive(canvas.message), Dispatch::Bootstrap(_)));

    t.post(Envelope::plugin_channel_request(), Context::Worker, Context::Window).unwrap();
    assert_eq!(relay.relay_next(&mut t), Some(Ok(Context::Parent)));
    let at_parent = t.receive(Context::Parent).unwrap();
    assert_eq!(
        at_parent,
        Posted { sender: Context::Window, message: Envelope::plugin_channel_request() }
    );

    let port = t.create_resource(Context::Parent);
    let answer = Envelope::plugin_channel_created("c1".to_string(), vec![port]).unwrap();
    t.post(answer, Context::Parent, Context::Window).unwrap();
    assert_eq!(t.owner(port), Some(Context::Window));
    assert_eq!(relay.relay_next(&mut t), Some(Ok(Context::Worker)));
    assert_eq!(t.owner(port), Some(Context::Worker));
    assert!(!t.can_use(port, Context::Parent));
    assert!(!t.can_use(port, Context::Window));

    let at_worker = t.receive(Context::Worker).unwrap();
    assert_eq!(at_worker.sender, Context::Window);
    assert_eq!(
        inbox.receive(at_worker.message),
        Dispatch::ChannelCreated { channel: "c1".to_string(), ports: vec![port] }
    );
}
