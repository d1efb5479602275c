//! The one-time acquisition of a GPU instance, adapter, device and queue for a
//! transferred offscreen surface, under a WebGL2-class capability profile.
//!
//! The GPU API is asynchronous and lives outside this crate, so the sequence
//! is a state machine: each method takes the outcome of the previous request
//! and returns the next [`Request`] to perform. The acquired resources are
//! kept as they arrive and handed out together at the end.
use vstd::prelude::*;
use crate::bridge::{DisplayHandle, HandleBridge, WindowHandle};

verus! {

/// Why the bootstrap stopped. Each is fatal to it.
#[derive(Clone, Copy, Debug, PartialEq, Eq, Structural)]
pub enum BootstrapError {
    SurfaceCreationFailed,
    NoCompatibleAdapter,
    DeviceCreationFailed,
}

/// How the GPU instance is to be created.
#[derive(Clone, Copy, Debug, PartialEq, Eq, Structural)]
pub struct InstanceConfig {
    /// Only the GL backend, with no fallback to another one.
    pub gl_only: bool,
    /// The GLES minor version asked of the GL backend.
    pub gles_minor_version: u8,
}

#[derive(Clone, Copy, Debug, PartialEq, Eq, Structural)]
pub enum PowerPreference {
    LowPower,
    HighPerformance,
}

/// How the adapter is to be requested; it must be compatible with the
/// surface just created.
#[derive(Clone, Copy, Debug, PartialEq, Eq, Structural)]
pub struct AdapterOptions {
    pub power_preference: PowerPreference,
    pub force_fallback_adapter: bool,
}

/// How the device and queue are to be requested.
#[derive(Clone, Copy, Debug, PartialEq, Eq, Structural)]
pub struct DeviceOptions {
    /// Require no optional features.
    pub no_features: bool,
    /// Require the downlevel WebGL2 default limits, with the adapter's own
    /// texture resolution limits merged in.
    pub webgl2_limits_with_adapter_resolution: bool,
}

/// The next thing the caller must do.
#[derive(Clone, Copy, Debug, PartialEq, Eq, Structural)]
pub enum Request {
    CreateInstance(InstanceConfig),
    CreateSurface(WindowHandle, DisplayHandle),
    RequestAdapter(AdapterOptions),
    RequestDevice(DeviceOptions),
    /// All four resources are held: call [`SurfaceBootstrap::finish`].
    Finished,
    /// The bootstrap failed: call [`SurfaceBootstrap::finish`] for the error.
    Abort(BootstrapError),
}

/// Which outcome the bootstrap waits for.
#[derive(Clone, Copy, Debug, PartialEq, Eq, Structural)]
pub enum Step {
    Start,
    Instance,
    Surface,
    Adapter,
    Device,
    Done,
}

/// The four resources rendering needs, owned as a unit.
#[derive(Debug, PartialEq, Eq)]
pub struct RenderResources<I, A, D, Q> {
    pub instance: I,
    pub adapter: A,
    pub device: D,
    pub queue: Q,
}

/// Where the bootstrap stands, with what it holds so far.
#[derive(Debug, PartialEq, Eq)]
pub enum Stage<I, A, D, Q> {
    Idle,
    AwaitingInstance,
    AwaitingSurface(I),
    AwaitingAdapter(I),
    AwaitingDevice(I, A),
    Complete(RenderResources<I, A, D, Q>),
    Failed(BootstrapError),
}

pub open spec fn gl_instance() -> InstanceConfig {
    InstanceConfig { gl_only: true, gles_minor_version: 0 }
}

pub open spec fn adapter_options() -> AdapterOptions {
    AdapterOptions {
        power_preference: PowerPreference::HighPerformance,
        force_fallback_adapter: false,
    }
}

pub open spec fn device_options() -> DeviceOptions {
    DeviceOptions { no_features: true, webgl2_limits_with_adapter_resolution: true }
}

impl<I, A, D, Q> Stage<I, A, D, Q> {
    pub open spec fn step(self) -> Step {
        match self {
            Stage::Idle => Step::Start,
            Stage::AwaitingInstance => Step::Instance,
            Stage::AwaitingSurface(_) => Step::Surface,
            Stage::AwaitingAdapter(_) => Step::Adapter,
            Stage::AwaitingDevice(_, _) => Step::Device,
            Stage::Complete(_) => Step::Done,
            Stage::Failed(_) => Step::Done,
        }
    }
}

/// The stage and request that follow the instance, for a bridge used on
/// `thread`: the surface is requested only when the bridge yields its window
/// handle there.
pub open spec fn after_instance<I, A, D, Q>(bridge: HandleBridge, instance: I, thread: u64) -> (
    Stage<I, A, D, Q>,
    Request,
) {
    match bridge.window_handle_on(thread) {
        Ok(h) => (Stage::AwaitingSurface(instance), Request::CreateSurface(h, DisplayHandle::Web)),
        Err(_) => (
            Stage::Failed(BootstrapError::SurfaceCreationFailed),
            Request::Abort(BootstrapError::SurfaceCreationFailed),
        ),
    }
}

/// The bootstrap of one bridged surface.
pub struct SurfaceBootstrap<I, A, D, Q> {
    bridge: HandleBridge,
    stage: Stage<I, A, D, Q>,
}

impl<I, A, D, Q> SurfaceBootstrap<I, A, D, Q> {
    pub closed spec fn stage(self) -> Stage<I, A, D, Q> {
        self.stage
    }

    pub closed spec fn bridge_spec(self) -> HandleBridge {
        self.bridge
    }

    /// A bootstrap for the surface behind `bridge`, not yet begun.
    pub fn new(bridge: HandleBridge) -> (r: Self)
        ensures
            r.stage() is Idle,
            r.bridge_spec() == bridge,
    {
        SurfaceBootstrap { bridge, stage: Stage::Idle }
    }

    /// The outcome the bootstrap waits for.
    pub fn step(&self) -> (r: Step)
        ensures
            r == self.stage().step(),
    {
        match &self.stage {
            Stage::Idle => Step::Start,
            Stage::AwaitingInstance => Step::Instance,
            Stage::AwaitingSurface(_) => Step::Surface,
            Stage::AwaitingAdapter(_) => Step::Adapter,
            Stage::AwaitingDevice(_, _) => Step::Device,
            Stage::Complete(_) => Step::Done,
            Stage::Failed(_) => Step::Done,
        }
    }

    /// The error the bootstrap stopped with, if it did.
    pub fn failure(&self) -> (r: Option<BootstrapError>)
        ensures
            r == (match self.stage() {
                Stage::Failed(e) => Some(e),
                _ => None,
            }),
    {
        match &self.stage {
            Stage::Failed(e) => Some(*e),
            _ => None,
        }
    }

    fn take_stage(&mut self) -> (r: Stage<I, A, D, Q>)
        ensures
            r == old(self).stage(),
            final(self).bridge_spec() == old(self).bridge_spec(),
    {
        let mut taken = Stage::Idle;
        core::mem::swap(&mut self.stage, &mut taken);
        taken
    }

    /// Starts the sequence: create a GPU instance on the GL backend alone.
    pub fn begin(&mut self) -> (r: Request)
        requires
            old(self).stage() is Idle,
        ensures
            final(self).stage() is AwaitingInstance,
            final(self).bridge_spec() == old(self).bridge_spec(),
            r == Request::CreateInstance(gl_instance()),
    {
        self.stage = Stage::AwaitingInstance;
        Request::CreateInstance(InstanceConfig { gl_only: true, gles_minor_version: 0 })
    }

    /// Takes the created `instance`, and asks the bridge for its handles on
    /// `current_thread`. If the bridge refuses, the bootstrap fails with
    /// [`BootstrapError::SurfaceCreationFailed`] and requests nothing more.
    pub fn instance_created(&mut self, instance: I, current_thread: u64) -> (r: Request)
        requires
            old(self).stage() is AwaitingInstance,
        ensures
            (final(self).stage(), r) == after_instance::<I, A, D, Q>(
                old(self).bridge_spec(),
                instance,
                current_thread,
            ),
            final(self).bridge_spec() == old(self).bridge_spec(),
    {
        match self.bridge.as_window_handle(current_thread) {
            Ok(h) => {
                let display = self.bridge.as_display_handle();
                self.stage = Stage::AwaitingSurface(instance);
                Request::CreateSurface(h, display)
            },
            Err(_) => {
                self.stage = Stage::Failed(BootstrapError::SurfaceCreationFailed);
                Request::Abort(BootstrapError::SurfaceCreationFailed)
            },
        }
    }

    /// Takes the outcome of surface creation: on success, request a
    /// high-performance adapter compatible with the surface, with no software
    /// fallback.
    pub fn surface_created(&mut self, created: bool) -> (r: Request)
        requires
            old(self).stage() is AwaitingSurface,
        ensures
            final(self).bridge_spec() == old(self).bridge_spec(),
            created ==> final(self).stage() == Stage::<I, A, D, Q>::AwaitingAdapter(
                old(self).stage()->AwaitingSurface_0,
            ) && r == Request::RequestAdapter(adapter_options()),
            !created ==> final(self).stage() == Stage::<I, A, D, Q>::Failed(
                BootstrapError::SurfaceCreationFailed,
            ) && r == Request::Abort(BootstrapError::SurfaceCreationFailed),
    {
        let stage = self.take_stage();
        match stage {
            Stage::AwaitingSurface(instance) => {
                if created {
                    self.stage = Stage::AwaitingAdapter(instance);
                    Request::RequestAdapter(
                        AdapterOptions {
                            power_preference: PowerPreference::HighPerformance,
                            force_fallback_adapter: false,
                        },
                    )
                } else {
                    self.stage = Stage::Failed(BootstrapError::SurfaceCreationFailed);
                    Request::Abort(BootstrapError::SurfaceCreationFailed)
                }
            },
            _ => {
                proof {
                    assert(false);
                }
                Request::Abort(BootstrapError::SurfaceCreationFailed)
            },
        }
    }

    /// Takes the adapter, if one was found: then request a device and queue
    /// under the WebGL2 limits.
    pub fn adapter_found(&mut self, adapter: Option<A>) -> (r: Request)
        requires
            old(self).stage() is AwaitingAdapter,
        ensures
            final(self).bridge_spec() == old(self).bridge_spec(),
            adapter matches Some(a) ==> final(self).stage() == Stage::<I, A, D, Q>::AwaitingDevice(
                old(self).stage()->AwaitingAdapter_0,
                a,
            ) && r == Request::RequestDevice(device_options()),
            adapter is None ==> final(self).stage() == Stage::<I, A, D, Q>::Failed(
                BootstrapError::NoCompatibleAdapter,
            ) && r == Request::Abort(BootstrapError::NoCompatibleAdapter),
    {
        let stage = self.take_stage();
        match stage {
            Stage::AwaitingAdapter(instance) => match adapter {
                Some(a) => {
                    self.stage = Stage::AwaitingDevice(instance, a);
                    Request::RequestDevice(
                        DeviceOptions { no_features: true, webgl2_limits_with_adapter_resolution: true },
                    )
                },
                None => {
                    self.stage = Stage::Failed(BootstrapError::NoCompatibleAdapter);
                    Request::Abort(BootstrapError::NoCompatibleAdapter)
                },
            },
            _ => {
                proof {
                    assert(false);
                }
                Request::Abort(BootstrapError::NoCompatibleAdapter)
            },
        }
    }

    /// Takes the device and queue, if they were created: the bootstrap is
    /// then complete.
    pub fn device_created(&mut self, device: Option<(D, Q)>) -> (r: Request)
        requires
            old(self).stage() is AwaitingDevice,
        ensures
            final(self).bridge_spec() == old(self).bridge_spec(),
            device matches Some((d, q)) ==> final(self).stage() == Stage::<I, A, D, Q>::Complete(
                RenderResources {
                    instance: old(self).stage()->AwaitingDevice_0,
                    adapter: old(self).stage()->AwaitingDevice_1,
                    device: d,
                    queue: q,
                },
            ) && r == Request::Finished,
            device is None ==> final(self).stage() == Stage::<I, A, D, Q>::Failed(
                BootstrapError::DeviceCreationFailed,
            ) && r == Request::Abort(BootstrapError::DeviceCreationFailed),
    {
        let stage = self.take_stage();
        match stage {
            Stage::AwaitingDevice(instance, adapter) => match device {
                Some((d, q)) => {
                    self.stage = Stage::Complete(
                        RenderResources { instance, adapter, device: d, queue: q },
                    );
                    Request::Finished
                },
                None => {
                    self.stage = Stage::Failed(BootstrapError::DeviceCreationFailed);
                    Request::Abort(BootstrapError::DeviceCreationFailed)
                },
            },
            _ => {
                proof {
                    assert(false);
                }
                Request::Abort(BootstrapError::DeviceCreationFailed)
            },
        }
    }

    /// The four resources, once complete, or the error the bootstrap
    /// stopped with.
    pub fn finish(self) -> (r: Result<RenderResources<I, A, D, Q>, BootstrapError>)
        requires
            self.stage().step() == Step::Done,
        ensures
            self.stage() matches Stage::Complete(res) ==> r == Ok::<_, BootstrapError>(res),
            self.stage() matches Stage::Failed(e) ==> r == Err::<RenderResources<I, A, D, Q>, _>(e),
    {
        match self.stage {
            Stage::Complete(res) => Ok(res),
            Stage::Failed(e) => Err(e),
            _ => {
                proof {
                    assert(false);
                }
                Err(BootstrapError::SurfaceCreationFailed)
            },
        }
    }
}

/// A bridge that refuses its window handle on the calling thread stops the
/// bootstrap at the surface step: it fails with
/// [`BootstrapError::SurfaceCreationFailed`], the request is to abort, and the
/// stage is final, so no adapter or device is ever requested.
pub proof fn refused_handle_short_circuits<I, A, D, Q>(bridge: HandleBridge, instance: I, thread: u64)
    requires
        bridge.window_handle_on(thread) is Err,
    ensures
        after_instance::<I, A, D, Q>(bridge, instance, thread).0 == Stage::<I, A, D, Q>::Failed(
            BootstrapError::SurfaceCreationFailed,
        ),
        after_instance::<I, A, D, Q>(bridge, instance, thread).1 == Request::Abort(
            BootstrapError::SurfaceCreationFailed,
        ),
        after_instance::<I, A, D, Q>(bridge, instance, thread).0.step() == Step::Done,
{
}

} // verus!
