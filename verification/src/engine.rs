//! The engine's state record: the one exclusive owner of the surface
//! configuration, mesh, instance data, camera controller, clear color and
//! frame loop, with the invariant that ties them together.
//!
//! The host constructs it once the drawable surface and the device are
//! available, hands every resize, key and tick event to it, and performs
//! the graphics calls its decisions ask for.

use vstd::prelude::*;
use crate::camera::{controller_after_event, CameraController, MovementPlan};
use crate::geometry::{
    annulus_indices, annulus_vertices, generate_annulus, AnnulusVertex, InvalidGeometryError,
    MeshData,
};
use crate::instance::{instances_from, generate_instances, InstanceUniform};
use crate::keycode::{key_code_of, key_code_from_str};
use crate::render::{
    default_clear_color, encode_pass, pass_commands, ClearColor, FrameAction, FrameLoop,
    RenderCommand, SurfaceErrorKind,
};
use crate::rng::RandomSource;
use crate::surface::{configured_after, SurfaceCaps, SurfaceConfig};

verus! {

/// Why construction failed. Construction failures are fatal: they are
/// surfaced to the host, which aborts startup.
#[derive(Clone, Copy, Debug, PartialEq, Eq, Structural)]
pub enum InitializationError {
    /// No graphics adapter compatible with the surface was available.
    AdapterUnavailable,
    /// The adapter refused the logical device request.
    DeviceRequestFailed,
    /// The drawable surface could not be created.
    SurfaceCreationFailed,
}

/// Whether the instance-uniform buffer is rewritten every tick. This
/// engine fixes the instance data at construction: the host uploads the
/// buffer once and never refreshes it.
pub const INSTANCES_REFRESH_PER_TICK: bool = false;

/// The engine state. One owner at a time mutates it: the active tick, the
/// resize handler, or the key handler, serialized by the host.
pub struct EngineCore {
    pub config: SurfaceConfig,
    pub mesh: MeshData<AnnulusVertex>,
    pub instances: Vec<InstanceUniform>,
    pub num_instances: u32,
    pub controller: CameraController,
    pub frames: FrameLoop,
    pub clear_color: ClearColor,
}

impl EngineCore {
    /// The record's invariant: the instance count always equals the
    /// length of the instance array, every mesh index points at an
    /// existing vertex, and the index count fits the draw call's range.
    pub open spec fn wf(&self) -> bool {
        &&& self.num_instances == self.instances@.len()
        &&& self.mesh.wf()
        &&& self.mesh.indices@.len() <= u32::MAX
    }

    /// Assemble the engine state from the negotiated surface
    /// capabilities, the initial size, the annulus subdivision count, the
    /// instance count, the instance seed and the camera speed. Fails
    /// exactly when the annulus is degenerate.
    pub fn new(
        caps: &SurfaceCaps,
        width: u32,
        height: u32,
        subdivisions: u16,
        instance_count: u32,
        seed: u64,
        speed: u32,
    ) -> (r: Result<EngineCore, InvalidGeometryError>)
        requires
            caps.wf(),
            width > 0,
            6 * subdivisions <= u16::MAX,
        ensures
            r is Err <==> subdivisions == 0,
            r matches Ok(e) ==> {
                &&& e.wf()
                &&& e.config == (SurfaceConfig {
                    width,
                    height,
                    format: crate::surface::chosen_format(caps.formats@),
                    present_mode: caps.present_modes@[0],
                    alpha_mode: caps.alpha_modes@[0],
                    configured: false,
                })
                &&& e.mesh.vertices@ == annulus_vertices(subdivisions)
                &&& e.mesh.indices@ == annulus_indices(subdivisions)
                &&& e.instances@ == instances_from(seed, instance_count as nat, width, height)
                &&& e.num_instances == instance_count
                &&& e.controller == (CameraController {
                    speed,
                    is_forward_pressed: false,
                    is_backward_pressed: false,
                    is_left_pressed: false,
                    is_right_pressed: true,
                })
                &&& !e.frames.halted
                &&& e.clear_color == (ClearColor {
                    r: 100_000,
                    g: 200_000,
                    b: 300_000,
                    a: 1_000_000,
                })
            },
    {
        let mesh = match generate_annulus(subdivisions) {
            Ok(mesh) => mesh,
            Err(e) => {
                return Err(e);
            },
        };
        let mut source = RandomSource::from_seed(seed);
        let instances = generate_instances(instance_count, width, height, &mut source);
        let config = SurfaceConfig::negotiate(caps, width, height);
        Ok(
            EngineCore {
                config,
                mesh,
                instances,
                num_instances: instance_count,
                controller: CameraController::new(speed),
                frames: FrameLoop::new(),
                clear_color: default_clear_color(),
            },
        )
    }

    /// A resize event: apply the size to the configuration (a zero
    /// dimension is suppressed) and report whether the host must
    /// reconfigure the real surface. Nothing else changes: in particular
    /// the mesh is fixed at construction and never regenerated on resize,
    /// while the camera's aspect correction is the host's per-update
    /// concern.
    pub fn resize(&mut self, width: u32, height: u32) -> (reconfigure: bool)
        ensures
            final(self).config == configured_after(old(self).config, width, height),
            reconfigure <==> (width > 0 && height > 0),
            final(self).mesh == old(self).mesh,
            final(self).instances == old(self).instances,
            final(self).num_instances == old(self).num_instances,
            final(self).controller == old(self).controller,
            final(self).frames == old(self).frames,
            final(self).clear_color == old(self).clear_color,
            old(self).wf() ==> final(self).wf(),
    {
        self.config.resize(width, height)
    }

    /// A key event: parse the host's key text and update the controller
    /// flags. Returns whether the controller consumed the key.
    pub fn handle_key(&mut self, code: &str, pressed: bool) -> (consumed: bool)
        ensures
            final(self).controller == controller_after_event(
                old(self).controller,
                key_code_of(code@),
                pressed,
            ),
            consumed == crate::camera::controller_key(key_code_of(code@)),
            final(self).config == old(self).config,
            final(self).mesh == old(self).mesh,
            final(self).instances == old(self).instances,
            final(self).num_instances == old(self).num_instances,
            final(self).frames == old(self).frames,
            final(self).clear_color == old(self).clear_color,
            old(self).wf() ==> final(self).wf(),
    {
        let key = key_code_from_str(code);
        self.controller.process_events(key, pressed)
    }

    /// The movement plan for this tick's camera update, from the
    /// host-measured distance guard.
    pub fn update(&self, forward_exceeds_speed: bool) -> (p: MovementPlan)
        ensures
            p == crate::camera::movement_plan(self.controller, forward_exceeds_speed),
    {
        self.controller.plan_update(forward_exceeds_speed)
    }

    /// Whether the frame loop still runs.
    pub fn can_tick(&self) -> (b: bool)
        ensures
            b == !self.frames.halted,
    {
        self.frames.can_tick()
    }

    /// Start a tick. A tick must reconfigure the surface first when the
    /// configuration has never been applied; the returned flag reports
    /// that, and the configuration then counts as applied.
    pub fn begin_tick(&mut self) -> (preconfigure: bool)
        requires
            !old(self).frames.halted,
        ensures
            preconfigure == !old(self).config.configured,
            final(self).config == (SurfaceConfig { configured: true, ..old(self).config }),
            !final(self).frames.halted,
            !final(self).frames.retried_this_tick,
            final(self).mesh == old(self).mesh,
            final(self).instances == old(self).instances,
            final(self).num_instances == old(self).num_instances,
            final(self).controller == old(self).controller,
            final(self).clear_color == old(self).clear_color,
            old(self).wf() ==> final(self).wf(),
    {
        self.frames.begin_tick();
        let preconfigure = !self.config.configured;
        self.config.configured = true;
        preconfigure
    }

    /// Classify one frame acquisition outcome of the current tick: `None`
    /// renders, otherwise the action for the error, with the tick's one
    /// retry accounted for.
    pub fn on_acquire(&mut self, result: Option<SurfaceErrorKind>) -> (action: Option<FrameAction>)
        requires
            !old(self).frames.halted,
        ensures
            action == match result {
                Option::None => Option::<FrameAction>::None,
                Option::Some(e) => Option::Some(
                    crate::render::action_for(e, old(self).frames.retried_this_tick),
                ),
            },
            final(self).frames.halted == (action == Option::Some(FrameAction::Halt)),
            final(self).frames.retried_this_tick == (old(self).frames.retried_this_tick || action
                == Option::Some(FrameAction::Retry)),
            final(self).config == old(self).config,
            final(self).mesh == old(self).mesh,
            final(self).instances == old(self).instances,
            final(self).num_instances == old(self).num_instances,
            final(self).controller == old(self).controller,
            final(self).clear_color == old(self).clear_color,
            old(self).wf() ==> final(self).wf(),
    {
        self.frames.on_acquire(result)
    }

    /// The command sequence of a rendered tick: one pass, cleared to the
    /// current clear color, drawing the whole index range over all
    /// instances.
    pub fn encode_tick(&self) -> (commands: Vec<RenderCommand>)
        requires
            self.wf(),
        ensures
            commands@ == pass_commands(
                self.clear_color,
                self.mesh.indices@.len() as u32,
                self.num_instances,
            ),
    {
        let index_count = self.mesh.index_count();
        encode_pass(self.clear_color, index_count as u32, self.num_instances)
    }

    /// A mouse move recolors the clear: the position normalized by the
    /// current surface size.
    pub fn mouse_moved(&mut self, x: u32, y: u32)
        requires
            old(self).config.width > 0,
            old(self).config.height > 0,
            x <= old(self).config.width,
            y <= old(self).config.height,
        ensures
            final(self).clear_color == crate::render::mouse_clear_color(
                x,
                y,
                old(self).config.width,
                old(self).config.height,
            ),
            final(self).config == old(self).config,
            final(self).mesh == old(self).mesh,
            final(self).instances == old(self).instances,
            final(self).num_instances == old(self).num_instances,
            final(self).controller == old(self).controller,
            final(self).frames == old(self).frames,
            old(self).wf() ==> final(self).wf(),
    {
        self.clear_color = crate::render::clear_color_from_mouse(
            x,
            y,
            self.config.width,
            self.config.height,
        );
    }
}

} // verus!
