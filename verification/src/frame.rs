//! The frame loop: what happens between a redraw request and the
//! presentation of the frame, and what is done when no frame can be had.

use vstd::prelude::*;

verus! {

/// Why the surface gave no texture for the next frame.
#[derive(Clone, Copy, Debug, PartialEq, Eq, Structural)]
pub enum SurfaceError {
    /// The wait for a free texture took too long.
    Timeout,
    /// The surface has changed under its configuration.
    Outdated,
    /// The surface is gone and has to be configured again.
    Lost,
    /// No memory is left for a new frame.
    OutOfMemory,
}

/// The phases of one frame, in the order in which a frame passes through
/// them. Between frames the loop is `Idle`.
#[derive(Clone, Copy, Debug, PartialEq, Eq, Structural)]
pub enum FramePhase {
    Idle,
    Updating,
    Acquiring,
    Recording,
    Submitted,
    Presented,
}

/// What the frame loop is told.
#[derive(Clone, Copy, Debug, PartialEq, Eq, Structural)]
pub enum FrameEvent {
    /// The window wants to be drawn.
    RedrawRequested,
    /// The per-frame update has run.
    Updated,
    /// The surface gave a texture.
    Acquired,
    /// The surface gave none.
    AcquireFailed(SurfaceError),
    /// The commands of the frame are recorded.
    Recorded,
    /// The command buffer is with the queue.
    Submitted,
    /// The texture is scheduled for presentation.
    Presented,
}

/// What the frame loop asks for.
#[derive(Clone, Copy, Debug, PartialEq, Eq, Structural)]
pub enum FrameAction {
    /// Run the per-frame update.
    Update,
    /// Ask the surface for its next texture.
    Acquire,
    /// Record the commands of the frame.
    Record,
    /// Hand the command buffer to the queue.
    Submit,
    /// Schedule the texture for presentation.
    Present,
    /// The frame is done.
    Complete,
    /// The surface was lost: configure it again at its current size and wait
    /// for the next redraw request.
    Recover,
    /// The surface is out of memory: end the run loop.
    Abort,
    /// Drop this frame; the next redraw request is the retry.
    Skip(SurfaceError),
    /// The event does not belong to the current phase; nothing changes.
    Ignore,
}

/// One step of the frame loop: the phase after `event`, and what to do.
///
/// A frame starts only from `Idle`, so no two frames are ever in flight and
/// command buffers reach the queue in the order of their frames. A failed
/// acquisition always ends the frame: nothing is retried inside it.
pub open spec fn frame_step(phase: FramePhase, event: FrameEvent) -> (FramePhase, FrameAction) {
    match (phase, event) {
        (FramePhase::Idle, FrameEvent::RedrawRequested) => (
            FramePhase::Updating,
            FrameAction::Update,
        ),
        (FramePhase::Updating, FrameEvent::Updated) => (FramePhase::Acquiring, FrameAction::Acquire),
        (FramePhase::Acquiring, FrameEvent::Acquired) => (
            FramePhase::Recording,
            FrameAction::Record,
        ),
        (FramePhase::Acquiring, FrameEvent::AcquireFailed(error)) => (
            FramePhase::Idle,
            recovery(error),
        ),
        (FramePhase::Recording, FrameEvent::Recorded) => (
            FramePhase::Submitted,
            FrameAction::Submit,
        ),
        (FramePhase::Submitted, FrameEvent::Submitted) => (
            FramePhase::Presented,
            FrameAction::Present,
        ),
        (FramePhase::Presented, FrameEvent::Presented) => (FramePhase::Idle, FrameAction::Complete),
        _ => (phase, FrameAction::Ignore),
    }
}

/// What is done about a failed acquisition.
pub open spec fn recovery(error: SurfaceError) -> FrameAction {
    match error {
        SurfaceError::Lost => FrameAction::Recover,
        SurfaceError::OutOfMemory => FrameAction::Abort,
        SurfaceError::Outdated => FrameAction::Skip(SurfaceError::Outdated),
        SurfaceError::Timeout => FrameAction::Skip(SurfaceError::Timeout),
    }
}

/// Decides what is done about a failed acquisition.
pub fn recover(error: SurfaceError) -> (action: FrameAction)
    ensures
        action == recovery(error),
{
    match error {
        SurfaceError::Lost => FrameAction::Recover,
        SurfaceError::OutOfMemory => FrameAction::Abort,
        other => FrameAction::Skip(other),
    }
}

/// Takes the frame loop one step on.
pub fn advance(phase: FramePhase, event: FrameEvent) -> (next: (FramePhase, FrameAction))
    ensures
        next == frame_step(phase, event),
{
    match (phase, event) {
        (FramePhase::Idle, FrameEvent::RedrawRequested) => (
            FramePhase::Updating,
            FrameAction::Update,
        ),
        (FramePhase::Updating, FrameEvent::Updated) => (FramePhase::Acquiring, FrameAction::Acquire),
        (FramePhase::Acquiring, FrameEvent::Acquired) => (
            FramePhase::Recording,
            FrameAction::Record,
        ),
        (FramePhase::Acquiring, FrameEvent::AcquireFailed(error)) => (
            FramePhase::Idle,
            recover(error),
        ),
        (FramePhase::Recording, FrameEvent::Recorded) => (
            FramePhase::Submitted,
            FrameAction::Submit,
        ),
        (FramePhase::Submitted, FrameEvent::Submitted) => (
            FramePhase::Presented,
            FrameAction::Present,
        ),
        (FramePhase::Presented, FrameEvent::Presented) => (FramePhase::Idle, FrameAction::Complete),
        (phase, _) => (phase, FrameAction::Ignore),
    }
}

/// Encoding of 0.1 as a double-precision number.
pub const CLEAR_RED: u64 = 0x3FB9_9999_9999_999A;

/// Encoding of 0.2 as a double-precision number.
pub const CLEAR_GREEN: u64 = 0x3FC9_9999_9999_999A;

/// Encoding of 0.3 as a double-precision number.
pub const CLEAR_BLUE: u64 = 0x3FD3_3333_3333_3333;

/// Encoding of 1.0 as a double-precision number.
pub const CLEAR_ALPHA: u64 = 0x3FF0_0000_0000_0000;

/// A colour: four double-precision channels, each held as its IEEE-754
/// encoding.
#[derive(Clone, Copy, Debug, PartialEq, Eq, Structural)]
pub struct Color {
    pub r: u64,
    pub g: u64,
    pub b: u64,
    pub a: u64,
}

/// What happens to the colour target when the pass begins.
#[derive(Clone, Copy, Debug, PartialEq, Eq, Structural)]
pub enum LoadOp {
    Clear(Color),
    Load,
}

/// A range of indices: `start` is in it, `end` is the first that is not.
#[derive(Clone, Copy, Debug, PartialEq, Eq, Structural)]
pub struct Span {
    pub start: u32,
    pub end: u32,
}

impl Span {
    /// Number of indices in the range.
    pub open spec fn count(self) -> int {
        if self.start <= self.end {
            self.end - self.start
        } else {
            0
        }
    }
}

/// One draw call.
#[derive(Clone, Copy, Debug, PartialEq, Eq, Structural)]
pub struct DrawCall {
    pub vertices: Span,
    pub instances: Span,
}

/// The render pass of a frame.
#[derive(Clone, Copy, Debug, PartialEq, Eq, Structural)]
pub struct RenderPass {
    pub load: LoadOp,
    /// Whether the result of the pass is kept in the colour target.
    pub store: bool,
    /// Whether the pass has a depth/stencil attachment.
    pub depth_stencil: bool,
    /// The slot that the vertex buffer is bound to.
    pub vertex_buffer_slot: u32,
    pub draw: DrawCall,
}

/// A command of the render pass.
#[derive(Clone, Copy, Debug, PartialEq, Eq, Structural)]
pub enum RenderCommand {
    BeginPass { load: LoadOp, store: bool },
    SetPipeline,
    SetVertexBuffer { slot: u32 },
    Draw(DrawCall),
    EndPass,
}

/// The background colour of every frame.
pub open spec fn background() -> Color {
    Color { r: CLEAR_RED, g: CLEAR_GREEN, b: CLEAR_BLUE, a: CLEAR_ALPHA }
}

impl RenderPass {
    /// The pass that clears the target to the background colour and draws
    /// one instance of the first `vertex_count` vertices of the buffer in
    /// slot 0.
    pub open spec fn clearing(vertex_count: u32) -> RenderPass {
        RenderPass {
            load: LoadOp::Clear(background()),
            store: true,
            depth_stencil: false,
            vertex_buffer_slot: 0,
            draw: DrawCall {
                vertices: Span { start: 0, end: vertex_count },
                instances: Span { start: 0, end: 1 },
            },
        }
    }

    /// The commands of the pass, in the order in which they are recorded:
    /// the pass begins, pipeline and vertex buffer are bound, the draw call
    /// is issued, the pass ends.
    pub open spec fn command_seq(self) -> Seq<RenderCommand> {
        seq![
            RenderCommand::BeginPass { load: self.load, store: self.store },
            RenderCommand::SetPipeline,
            RenderCommand::SetVertexBuffer { slot: self.vertex_buffer_slot },
            RenderCommand::Draw(self.draw),
            RenderCommand::EndPass,
        ]
    }

    /// Describes the pass of a frame that draws `vertex_count` vertices.
    pub fn new(vertex_count: u32) -> (pass: RenderPass)
        ensures
            pass == RenderPass::clearing(vertex_count),
    {
        RenderPass {
            load: LoadOp::Clear(
                Color { r: CLEAR_RED, g: CLEAR_GREEN, b: CLEAR_BLUE, a: CLEAR_ALPHA },
            ),
            store: true,
            depth_stencil: false,
            vertex_buffer_slot: 0,
            draw: DrawCall {
                vertices: Span { start: 0, end: vertex_count },
                instances: Span { start: 0, end: 1 },
            },
        }
    }

    /// The commands of the pass, in recording order.
    pub fn commands(&self) -> (commands: Vec<RenderCommand>)
        ensures
            commands@ == self.command_seq(),
    {
        let mut commands: Vec<RenderCommand> = Vec::new();
        commands.push(RenderCommand::BeginPass { load: self.load, store: self.store });
        commands.push(RenderCommand::SetPipeline);
        commands.push(RenderCommand::SetVertexBuffer { slot: self.vertex_buffer_slot });
        commands.push(RenderCommand::Draw(self.draw));
        commands.push(RenderCommand::EndPass);
        commands
    }
}

/// From a redraw request a frame passes through the phases in their order
/// and ends where it began, as long as the surface gives a texture.
pub proof fn lemma_frame_cycle()
    ensures
        frame_step(FramePhase::Idle, FrameEvent::RedrawRequested) == (
            FramePhase::Updating,
            FrameAction::Update,
        ),
        frame_step(FramePhase::Updating, FrameEvent::Updated) == (
            FramePhase::Acquiring,
            FrameAction::Acquire,
        ),
        frame_step(FramePhase::Acquiring, FrameEvent::Acquired) == (
            FramePhase::Recording,
            FrameAction::Record,
        ),
        frame_step(FramePhase::Recording, FrameEvent::Recorded) == (
            FramePhase::Submitted,
            FrameAction::Submit,
        ),
        frame_step(FramePhase::Submitted, FrameEvent::Submitted) == (
            FramePhase::Presented,
            FrameAction::Present,
        ),
        frame_step(FramePhase::Presented, FrameEvent::Presented) == (
            FramePhase::Idle,
            FrameAction::Complete,
        ),
{
}

/// Commands are recorded only for a texture that was acquired: `Record` is
/// asked for in the step from `Acquiring` on `Acquired`, and in no other.
pub proof fn lemma_record_follows_acquisition(phase: FramePhase, event: FrameEvent)
    ensures
        frame_step(phase, event).1 == FrameAction::Record <==> phase == FramePhase::Acquiring
            && event == FrameEvent::Acquired,
{
}

/// Whatever the error, a failed acquisition ends the frame without a
/// second attempt: the loop is idle again and nothing is recorded.
pub proof fn lemma_failed_acquisition_ends_frame(error: SurfaceError)
    ensures
        frame_step(FramePhase::Acquiring, FrameEvent::AcquireFailed(error)).0 == FramePhase::Idle,
        frame_step(FramePhase::Acquiring, FrameEvent::AcquireFailed(error)).1 == recovery(error),
        recovery(error) != FrameAction::Acquire,
        recovery(error) != FrameAction::Record,
{
}

} // verus!
