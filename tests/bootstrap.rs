use offscreen_relay::bootstrap::{
    AdapterOptions, BootstrapError, DeviceOptions, InstanceConfig, PowerPreference, Request, Step,
    SurfaceBootstrap,
};
use offscreen_relay::bridge::{DisplayHandle, HandleBridge, WindowHandle};
use offscreen_relay::transport::{Context, Transport};

type Boot = SurfaceBootstrap<&'static str, &'static str, &'static str, &'static str>;

fn started(surface: usize, thread: u64) -> Boot {
    let mut boot: Boot = SurfaceBootstrap::new(HandleBridge::new(surface, thread));
    assert_eq!(boot.step(), Step::Start);
    assert_eq!(
        boot.begin(),
        Request::CreateInstance(InstanceConfig { gl_only: true, gles_minor_version: 0 })
    );
    assert_eq!(boot.step(), Step::Instance);
    boot
}

#[test]
fn bootstrap_runs_all_four_steps() {
    let mut boot = started(2, 1);
    assert_eq!(
        boot.instance_created("instance", 1),
        Request::CreateSurface(WindowHandle { surface: 2 }, DisplayHandle::Web)
    );
    assert_eq!(
        boot.surface_created(true),
        Request::RequestAdapter(AdapterOptions {
            power_preference: PowerPreference::HighPerformance,
            force_fallback_adapter: false,
        })
    );
    assert_eq!(
        boot.adapter_found(Some("adapter")),
        Request::RequestDevice(DeviceOptions {
            no_features: true,
            webgl2_limits_with_adapter_resolution: true,
        })
    );
    assert_eq!(boot.device_created(Some(("device", "queue"))), Request::Finished);
    assert_eq!(boot.step(), Step::Done);
    assert_eq!(boot.failure(), None);
    let res = boot.finish().unwrap();
    assert_eq!(res.instance, "instance");
    assert_eq!(res.adapter, "adapter");
    assert_eq!(res.device, "device");
    assert_eq!(res.queue, "queue");
}

#[test]
fn bootstrap_off_thread_fails_before_adapter() {
    let mut boot = started(2, 1);
    assert_eq!(
        boot.instance_created("instance", 9),
        Request::Abort(BootstrapError::SurfaceCreationFailed)
    );
    assert_eq!(boot.step(), Step::Done);
    assert_eq!(boot.failure(), Some(BootstrapError::SurfaceCreationFailed));
    assert!(matches!(boot.finish(), Err(BootstrapError::SurfaceCreationFailed)));
}

#[test]
fn bootstrap_surface_rejected() {
    let mut boot = started(2, 1);
    boot.instance_created("instance", 1);
    assert_eq!(boot.surface_created(false), Request::Abort(BootstrapError::SurfaceCreationFailed));
    assert_eq!(boot.failure(), Some(BootstrapError::SurfaceCreationFailed));
}

#[test]
fn bootstrap_without_adapter() {
    let mut boot = started(2, 1);
    boot.instance_created("instance", 1);
    boot.surface_created(true);
    assert_eq!(boot.adapter_found(None), Request::Abort(BootstrapError::NoCompatibleAdapter));
    assert!(matches!(boot.finish(), Err(BootstrapError::NoCompatibleAdapter)));
}

#[test]
fn bootstrap_without_device() {
    let mut boot = started(2, 1);
    boot.instance_created("instance", 1);
    boot.surface_created(true);
    boot.adapter_found(Some("adapter"));
    assert_eq!(boot.device_created(None), Request::Abort(BootstrapError::DeviceCreationFailed));
    assert!(matches!(boot.finish(), Err(BootstrapError::DeviceCreationFailed)));
}

#[test]
fn second_bootstrap_of_one_surface_fails() {
    let mut transport = Transport::new();
    let surface = transport.create_resource(Context::Worker);
    let bridge = HandleBridge::new(surface, 1);

    let mut first: Boot = SurfaceBootstrap::new(bridge);
    first.begin();
    first.instance_created("instance", 1);
    let claimed = transport.claim(bridge.surface(), Context::Worker);
    assert!(claimed);
    assert!(matches!(first.surface_created(claimed), Request::RequestAdapter(_)));

    let mut second: Boot = SurfaceBootstrap::new(bridge);
    second.begin();
    second.instance_created("instance", 1);
    let claimed_again = transport.claim(bridge.surface(), Context::Worker);
    assert!(!claimed_again);
    assert_eq!(
        second.surface_created(claimed_again),
        Request::Abort(BootstrapError::SurfaceCreationFailed)
    );
    assert_eq!(transport.owner(surface), None);
}
