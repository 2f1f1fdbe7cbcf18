//! The render executor's decisions: what one tick does with each frame
//! acquisition outcome, and what the single render pass of a tick
//! records.
//!
//! The host performs the graphics calls; this module decides them. A
//! tick acquires a frame; on a lost or outdated surface it reconfigures
//! and retries exactly once within the tick; a renewed failure or a
//! timeout drops the frame and the loop continues; a lost device halts
//! the loop pending external re-initialization. A rendered tick records
//! one command buffer holding exactly one render pass: clear, bind, and
//! one indexed instanced draw.

use vstd::prelude::*;

verus! {

/// Why a frame acquisition failed, as the engine classifies the host's
/// report.
#[derive(Clone, Copy, Debug, PartialEq, Eq, Structural)]
pub enum SurfaceErrorKind {
    /// The surface was lost and must be reconfigured.
    Lost,
    /// The surface no longer matches its configuration.
    Outdated,
    /// No frame arrived in time; the frame is simply dropped.
    Timeout,
    /// The device is gone; the loop cannot continue.
    DeviceLost,
}

/// What the executor does about a failed acquisition.
#[derive(Clone, Copy, Debug, PartialEq, Eq, Structural)]
pub enum FrameAction {
    /// Reconfigure the surface with the current configuration and acquire
    /// once more, within the same tick.
    Retry,
    /// Abandon the tick; the loop continues at the next tick.
    Drop,
    /// Stop the loop; only external re-initialization may resume it.
    Halt,
}

/// The action for an acquisition failure: lost and outdated surfaces earn
/// one reconfigure-and-retry per tick, a timeout drops the frame, and a
/// lost device halts the loop.
pub open spec fn action_for(err: SurfaceErrorKind, retried: bool) -> FrameAction {
    match err {
        SurfaceErrorKind::Lost | SurfaceErrorKind::Outdated => if retried {
            FrameAction::Drop
        } else {
            FrameAction::Retry
        },
        SurfaceErrorKind::Timeout => FrameAction::Drop,
        SurfaceErrorKind::DeviceLost => FrameAction::Halt,
    }
}

/// The retry is the tick's last: a failure on the retried acquisition
/// never earns another retry.
pub proof fn lemma_retry_at_most_once(err: SurfaceErrorKind)
    ensures
        action_for(err, true) != FrameAction::Retry,
{
}

/// Only a lost device halts the loop; every other failure leaves the loop
/// running.
pub proof fn lemma_halt_only_on_device_lost(err: SurfaceErrorKind, retried: bool)
    ensures
        action_for(err, retried) == FrameAction::Halt <==> err == SurfaceErrorKind::DeviceLost,
{
}

/// The frame loop: whether it is still running, and whether the current
/// tick has already used its one retry.
pub struct FrameLoop {
    pub halted: bool,
    pub retried_this_tick: bool,
}

impl FrameLoop {
    pub fn new() -> (r: Self)
        ensures
            !r.halted,
            !r.retried_this_tick,
    {
        FrameLoop { halted: false, retried_this_tick: false }
    }

    /// Whether a tick may run at all.
    pub fn can_tick(&self) -> (b: bool)
        ensures
            b == !self.halted,
    {
        !self.halted
    }

    /// Start a tick: the retry budget is fresh.
    pub fn begin_tick(&mut self)
        requires
            !old(self).halted,
        ensures
            !final(self).halted,
            !final(self).retried_this_tick,
    {
        self.retried_this_tick = false;
    }

    /// Classify one acquisition outcome within the current tick. `None`
    /// means the frame arrived and the tick renders. A `Retry` consumes
    /// the tick's retry budget; a `Halt` stops the loop.
    pub fn on_acquire(&mut self, result: Option<SurfaceErrorKind>) -> (action: Option<FrameAction>)
        requires
            !old(self).halted,
        ensures
            action == match result {
                Option::None => Option::<FrameAction>::None,
                Option::Some(e) => Option::Some(action_for(e, old(self).retried_this_tick)),
            },
            final(self).halted == (action == Option::Some(FrameAction::Halt)),
            final(self).retried_this_tick == (old(self).retried_this_tick || action
                == Option::Some(FrameAction::Retry)),
    {
        match result {
            Option::None => Option::None,
            Option::Some(e) => {
                let action = match e {
                    SurfaceErrorKind::Lost | SurfaceErrorKind::Outdated => if self.retried_this_tick {
                        FrameAction::Drop
                    } else {
                        FrameAction::Retry
                    },
                    SurfaceErrorKind::Timeout => FrameAction::Drop,
                    SurfaceErrorKind::DeviceLost => FrameAction::Halt,
                };
                if matches!(action, FrameAction::Retry) {
                    self.retried_this_tick = true;
                }
                if matches!(action, FrameAction::Halt) {
                    self.halted = true;
                }
                Option::Some(action)
            },
        }
    }
}

/// A color in millionths of a unit per channel.
#[derive(Clone, Copy, Debug, PartialEq, Eq, Structural)]
pub struct ClearColor {
    pub r: u32,
    pub g: u32,
    pub b: u32,
    pub a: u32,
}

/// The engine's initial clear color: (0.1, 0.2, 0.3, 1.0).
pub fn default_clear_color() -> (c: ClearColor)
    ensures
        c == (ClearColor { r: 100_000, g: 200_000, b: 300_000, a: 1_000_000 }),
{
    ClearColor { r: 100_000, g: 200_000, b: 300_000, a: 1_000_000 }
}

/// The clear color a mouse position maps to: the position normalized by
/// the canvas size, `(x / w, y / h, (x + y) / (w + h))`, in millionths,
/// with full alpha.
pub open spec fn mouse_clear_color(x: u32, y: u32, width: u32, height: u32) -> ClearColor
    recommends
        width > 0,
        height > 0,
{
    ClearColor {
        r: ((x * 1_000_000) / (width as int)) as u32,
        g: ((y * 1_000_000) / (height as int)) as u32,
        b: (((x + y) * 1_000_000) / (width + height)) as u32,
        a: 1_000_000,
    }
}

/// Normalize a mouse position into a clear color.
pub fn clear_color_from_mouse(x: u32, y: u32, width: u32, height: u32) -> (c: ClearColor)
    requires
        width > 0,
        height > 0,
        x <= width,
        y <= height,
    ensures
        c == mouse_clear_color(x, y, width, height),
{
    let r64: u64 = (x as u64) * 1_000_000 / (width as u64);
    let g64: u64 = (y as u64) * 1_000_000 / (height as u64);
    let b64: u64 = ((x as u64) + (y as u64)) * 1_000_000 / ((width as u64) + (height as u64));
    proof {
        assert(r64 <= 1_000_000) by (nonlinear_arith)
            requires
                x <= width,
                width > 0,
                r64 == x * 1_000_000 / (width as int),
        ;
        assert(g64 <= 1_000_000) by (nonlinear_arith)
            requires
                y <= height,
                height > 0,
                g64 == y * 1_000_000 / (height as int),
        ;
        assert(b64 <= 1_000_000) by (nonlinear_arith)
            requires
                x as u64 + y as u64 <= width as u64 + height as u64,
                width > 0,
                b64 == (x + y) * 1_000_000 / (width + height),
        ;
    }
    ClearColor { r: r64 as u32, g: g64 as u32, b: b64 as u32, a: 1_000_000 }
}

/// One recorded command of the tick's render pass, in order.
#[derive(Clone, Copy, Debug, PartialEq, Eq, Structural)]
pub enum RenderCommand {
    /// Begin the tick's one render pass, clearing the target.
    BeginPass { clear: ClearColor },
    /// Bind the engine's pipeline.
    SetPipeline,
    /// Bind the instance-data bind group at the given slot.
    SetBindGroup { slot: u32 },
    /// Bind the vertex buffer at the given slot.
    SetVertexBuffer { slot: u32 },
    /// Bind the 16-bit index buffer.
    SetIndexBuffer,
    /// Draw indices `0 .. index_count` over instances
    /// `0 .. instance_count`.
    DrawIndexed { index_count: u32, instance_count: u32 },
    /// Draw vertices `0 .. vertex_count` over instances
    /// `0 .. instance_count`, without an index buffer.
    Draw { vertex_count: u32, instance_count: u32 },
    /// End the pass; the command buffer is then submitted and the frame
    /// presented, in that order.
    EndPass,
}

/// The exact command sequence of one rendered tick: one pass, cleared
/// first, with one indexed instanced draw.
pub open spec fn pass_commands(clear: ClearColor, index_count: u32, instance_count: u32) -> Seq<
    RenderCommand,
> {
    seq![
        RenderCommand::BeginPass { clear },
        RenderCommand::SetPipeline,
        RenderCommand::SetBindGroup { slot: 0 },
        RenderCommand::SetVertexBuffer { slot: 0 },
        RenderCommand::SetIndexBuffer,
        RenderCommand::DrawIndexed { index_count, instance_count },
        RenderCommand::EndPass,
    ]
}

/// Record the commands of one rendered tick for the host to replay.
pub fn encode_pass(clear: ClearColor, index_count: u32, instance_count: u32) -> (commands: Vec<
    RenderCommand,
>)
    ensures
        commands@ == pass_commands(clear, index_count, instance_count),
{
    let mut commands: Vec<RenderCommand> = Vec::new();
    commands.push(RenderCommand::BeginPass { clear });
    commands.push(RenderCommand::SetPipeline);
    commands.push(RenderCommand::SetBindGroup { slot: 0 });
    commands.push(RenderCommand::SetVertexBuffer { slot: 0 });
    commands.push(RenderCommand::SetIndexBuffer);
    commands.push(RenderCommand::DrawIndexed { index_count, instance_count });
    commands.push(RenderCommand::EndPass);
    proof {
        assert(commands@ =~= pass_commands(clear, index_count, instance_count));
    }
    commands
}

/// The exact command sequence of one rendered tick on the single-triangle
/// path: one pass, cleared first, with one non-indexed draw of three
/// vertices.
pub open spec fn simple_pass_commands(clear: ClearColor) -> Seq<RenderCommand> {
    seq![
        RenderCommand::BeginPass { clear },
        RenderCommand::SetPipeline,
        RenderCommand::Draw { vertex_count: 3, instance_count: 1 },
        RenderCommand::EndPass,
    ]
}

/// Record the commands of one rendered tick of the single-triangle path.
pub fn encode_simple_pass(clear: ClearColor) -> (commands: Vec<RenderCommand>)
    ensures
        commands@ == simple_pass_commands(clear),
{
    let mut commands: Vec<RenderCommand> = Vec::new();
    commands.push(RenderCommand::BeginPass { clear });
    commands.push(RenderCommand::SetPipeline);
    commands.push(RenderCommand::Draw { vertex_count: 3, instance_count: 1 });
    commands.push(RenderCommand::EndPass);
    proof {
        assert(commands@ =~= simple_pass_commands(clear));
    }
    commands
}

/// A tick encodes exactly one render pass: one begin, one end, one draw,
/// with the begin first, the end last, and the draw between them.
pub proof fn lemma_single_pass(clear: ClearColor, index_count: u32, instance_count: u32)
    ensures
        ({
            let cs = pass_commands(clear, index_count, instance_count);
            &&& cs.len() == 7
            &&& cs[0] == (RenderCommand::BeginPass { clear })
            &&& cs[cs.len() - 1] == RenderCommand::EndPass
            &&& forall|i: int|
                0 <= i < cs.len() && #[trigger] cs[i] is BeginPass ==> i == 0
            &&& forall|i: int|
                0 <= i < cs.len() && #[trigger] cs[i] is EndPass ==> i == cs.len() - 1
            &&& forall|i: int|
                0 <= i < cs.len() && #[trigger] cs[i] is DrawIndexed ==> 0 < i < cs.len() - 1
        }),
{
}

} // verus!
