//! The renderer's state and the decisions of the run loop.
//!
//! The embedding program owns the window, the surface, the device and the
//! queue. It tells the state what happened, as an [`Event`], and is told
//! what to do, as a [`Command`].

use crate::events::{dispatch, route, Event, Request, WindowEvent};
use crate::frame::{
    advance, frame_step, FrameAction, FrameEvent, FramePhase, RenderPass, Span, SurfaceError,
};
use crate::geometry::{triangle, vertices, GeometryBuffer};
use crate::pipeline::{PipelineBuilder, RenderPipelineDescriptor};
use crate::surface::{PhysicalSize, PresentMode, SurfaceConfig, SurfaceManager, TextureUsage};
use vstd::prelude::*;

verus! {

/// Whether the run loop goes on.
#[derive(Clone, Copy, Debug, PartialEq, Eq, Structural)]
pub enum ControlFlow {
    /// The loop goes on.
    Poll,
    /// The loop ends; no event is acted on any more.
    Exit,
}

/// What the embedding program is to do.
#[derive(Clone, Copy, Debug, PartialEq, Eq)]
pub enum Command {
    /// Nothing.
    Nothing,
    /// End the run loop.
    Exit,
    /// Configure the surface with the given configuration.
    Reconfigure(SurfaceConfig),
    /// Ask the window for a redraw.
    RequestRedraw,
    /// Ask the surface for its next texture and report `Acquired` or
    /// `AcquireFailed`.
    Acquire,
    /// Record the given pass into a new command buffer, with the acquired
    /// texture as its colour target, and report `Recorded`.
    Record(RenderPass),
    /// Hand the command buffer to the queue and report `Submitted`.
    Submit,
    /// Schedule the acquired texture for presentation and report
    /// `Presented`.
    Present,
    /// Note the error; the frame is dropped.
    Skip(SurfaceError),
}

/// What can be observed of a [`State`].
pub struct StateView {
    /// The configuration of the surface.
    pub config: SurfaceConfig,
    /// The descriptor that the render pipeline was built from.
    pub pipeline: RenderPipelineDescriptor,
    /// The number of vertices in the vertex buffer.
    pub vertex_count: u32,
    /// Where the frame in flight stands.
    pub phase: FramePhase,
    pub control_flow: ControlFlow,
}

impl StateView {
    /// What holds of every state: the surface has a positive width and
    /// height and is presented in step with the display, the pipeline is the
    /// fixed one and renders to the surface's format, the vertex buffer holds
    /// the three vertices of the triangle, and the update of a frame is over
    /// as soon as it has begun.
    pub open spec fn wf(self) -> bool {
        &&& self.config.has_area()
        &&& self.config.present_mode == PresentMode::Fifo
        &&& self.config.usage == TextureUsage::RenderAttachment
        &&& self.pipeline.is_fixed_for(self.config.format)
        &&& self.vertex_count == 3
        &&& self.phase != FramePhase::Updating
    }

    /// The state after a resize, and the command that goes with it: a
    /// reconfiguration where both dimensions are positive, nothing at all
    /// otherwise.
    pub open spec fn resize(self, size: PhysicalSize) -> (StateView, Command) {
        if size.has_area() {
            let config = self.config.resized(size);
            (StateView { config, ..self }, Command::Reconfigure(config))
        } else {
            (self, Command::Nothing)
        }
    }

    /// The state after an event of the frame loop, and the command that goes
    /// with it.
    ///
    /// The update of a frame is the state's own affair, so a redraw request
    /// leads straight to the acquisition. A lost surface is configured again
    /// at the size it has; without memory the run loop ends; any other
    /// failure drops the frame. Once the run loop has ended nothing happens.
    pub open spec fn render(self, event: FrameEvent) -> (StateView, Command) {
        if self.control_flow == ControlFlow::Exit {
            (self, Command::Nothing)
        } else {
            let (phase, action) = frame_step(self.phase, event);
            let next = StateView { phase, ..self };
            match action {
                FrameAction::Update => (
                    StateView { phase: FramePhase::Acquiring, ..self },
                    Command::Acquire,
                ),
                FrameAction::Acquire => (next, Command::Acquire),
                FrameAction::Record => (
                    next,
                    Command::Record(RenderPass::clearing(self.vertex_count)),
                ),
                FrameAction::Submit => (next, Command::Submit),
                FrameAction::Present => (next, Command::Present),
                FrameAction::Complete => (next, Command::Nothing),
                FrameAction::Recover => next.resize(next.config.size()),
                FrameAction::Abort => (
                    StateView { control_flow: ControlFlow::Exit, ..next },
                    Command::Exit,
                ),
                FrameAction::Skip(error) => (next, Command::Skip(error)),
                FrameAction::Ignore => (self, Command::Nothing),
            }
        }
    }

    /// The state after an event, and the command that goes with it. Once the
    /// run loop has ended nothing happens.
    pub open spec fn handle(self, event: Event) -> (StateView, Command) {
        if self.control_flow == ControlFlow::Exit {
            (self, Command::Nothing)
        } else {
            match route(event) {
                Request::Exit => (
                    StateView { control_flow: ControlFlow::Exit, ..self },
                    Command::Exit,
                ),
                Request::Resize(size) => self.resize(size),
                Request::Frame(progress) => self.render(progress),
                Request::RequestRedraw => (self, Command::RequestRedraw),
                Request::Nothing => (self, Command::Nothing),
            }
        }
    }

    /// The state after a run of events.
    pub open spec fn run(self, events: Seq<Event>) -> StateView
        decreases events.len(),
    {
        if events.len() == 0 {
            self
        } else {
            self.run(events.drop_last()).handle(events.last()).0
        }
    }

    /// The commands that a run of events leads to, one per event.
    pub open spec fn commands(self, events: Seq<Event>) -> Seq<Command>
        decreases events.len(),
    {
        if events.len() == 0 {
            Seq::empty()
        } else {
            self.commands(events.drop_last()).push(
                self.run(events.drop_last()).handle(events.last()).1,
            )
        }
    }
}

/// The resize events of the program's own window for the given sizes.
pub open spec fn resize_events(sizes: Seq<PhysicalSize>) -> Seq<Event> {
    Seq::new(
        sizes.len(),
        |i: int| Event::WindowEvent { own_window: true, event: WindowEvent::Resized(sizes[i]) },
    )
}

/// The state of the renderer.
pub struct State {
    surface: SurfaceManager,
    pipeline: RenderPipelineDescriptor,
    geometry: GeometryBuffer,
    num_vertices: u32,
    phase: FramePhase,
    control_flow: ControlFlow,
}

impl View for State {
    type V = StateView;

    closed spec fn view(&self) -> StateView {
        StateView {
            config: self.surface@,
            pipeline: self.pipeline,
            vertex_count: self.num_vertices,
            phase: self.phase,
            control_flow: self.control_flow,
        }
    }
}

impl State {
    #[verifier::type_invariant]
    closed spec fn coherent(self) -> bool {
        &&& self@.wf()
        &&& self.geometry.holds(triangle())
        &&& self.num_vertices == self.geometry.count()
    }

    /// The vertex buffer.
    pub closed spec fn buffer(&self) -> GeometryBuffer {
        self.geometry
    }

    /// Sets the renderer up for a window of the given size, on a surface
    /// that offers the given formats: the surface gets the first format, the
    /// pipeline renders to it, and the vertex buffer holds the triangle.
    pub fn new(supported_formats: &Vec<wgpu::TextureFormat>, size: PhysicalSize) -> (state: State)
        requires
            supported_formats@.len() > 0,
            size.has_area(),
        ensures
            state@.config == SurfaceConfig::initial(supported_formats@[0], size),
            state@.pipeline.is_fixed_for(supported_formats@[0]),
            state@.pipeline.color_target.format == state@.config.format,
            state@.vertex_count == 3,
            state@.phase == FramePhase::Idle,
            state@.control_flow == ControlFlow::Poll,
            state@.wf(),
            state.buffer().holds(triangle()),
    {
        let surface = SurfaceManager::configure(supported_formats, size);
        let pipeline = PipelineBuilder::build(surface.config().format);
        let vertices = vertices();
        let geometry = GeometryBuffer::new(&vertices);
        let num_vertices = geometry.vertex_count();
        State {
            surface,
            pipeline,
            geometry,
            num_vertices,
            phase: FramePhase::Idle,
            control_flow: ControlFlow::Poll,
        }
    }

    /// Takes a new window size. Where both dimensions are positive the
    /// surface is to be configured again; a size with a zero dimension
    /// changes nothing.
    pub fn resize(&mut self, new_size: PhysicalSize) -> (command: Command)
        ensures
            (final(self)@, command) == old(self)@.resize(new_size),
            final(self)@.wf(),
            final(self).buffer() == old(self).buffer(),
    {
        proof {
            use_type_invariant(&*self);
        }
        match self.surface.resize(new_size) {
            Some(config) => Command::Reconfigure(config),
            None => Command::Nothing,
        }
    }

    /// Offers a window event to the state before the run loop acts on it.
    /// No event is consumed.
    pub fn input(&mut self, event: &WindowEvent) -> (consumed: bool)
        ensures
            !consumed,
            *final(self) == *old(self),
    {
        false
    }

    /// The per-frame update. Nothing changes from frame to frame.
    pub fn update(&mut self)
        ensures
            *final(self) == *old(self),
    {
    }

    /// Takes the frame in flight one event further.
    pub fn render(&mut self, event: FrameEvent) -> (command: Command)
        ensures
            (final(self)@, command) == old(self)@.render(event),
            final(self)@.wf(),
            final(self).buffer() == old(self).buffer(),
    {
        proof {
            use_type_invariant(&*self);
        }
        match self.control_flow {
            ControlFlow::Exit => {
                return Command::Nothing;
            },
            ControlFlow::Poll => {},
        }
        let (phase, action) = advance(self.phase, event);
        match action {
            FrameAction::Update => {
                self.update();
                let (updated, _) = advance(phase, FrameEvent::Updated);
                self.phase = updated;
                Command::Acquire
            },
            FrameAction::Acquire => {
                self.phase = phase;
                Command::Acquire
            },
            FrameAction::Record => {
                self.phase = phase;
                Command::Record(RenderPass::new(self.num_vertices))
            },
            FrameAction::Submit => {
                self.phase = phase;
                Command::Submit
            },
            FrameAction::Present => {
                self.phase = phase;
                Command::Present
            },
            FrameAction::Complete => {
                self.phase = phase;
                Command::Nothing
            },
            FrameAction::Recover => {
                self.phase = phase;
                let size = self.surface.size();
                self.resize(size)
            },
            FrameAction::Abort => {
                self.phase = phase;
                self.control_flow = ControlFlow::Exit;
                Command::Exit
            },
            FrameAction::Skip(error) => {
                self.phase = phase;
                Command::Skip(error)
            },
            FrameAction::Ignore => Command::Nothing,
        }
    }

    /// Takes an event of the run loop and says what to do about it.
    pub fn handle_event(&mut self, event: &Event) -> (command: Command)
        ensures
            (final(self)@, command) == old(self)@.handle(*event),
            final(self)@.wf(),
            final(self).buffer() == old(self).buffer(),
    {
        proof {
            use_type_invariant(&*self);
        }
        match self.control_flow {
            ControlFlow::Exit => {
                return Command::Nothing;
            },
            ControlFlow::Poll => {},
        }
        match event {
            Event::WindowEvent { own_window: true, event: window_event } => {
                if self.input(window_event) {
                    return Command::Nothing;
                }
            },
            _ => {},
        }
        match dispatch(event) {
            Request::Exit => {
                self.control_flow = ControlFlow::Exit;
                Command::Exit
            },
            Request::Resize(size) => self.resize(size),
            Request::Frame(progress) => self.render(progress),
            Request::RequestRedraw => Command::RequestRedraw,
            Request::Nothing => Command::Nothing,
        }
    }

    /// The configuration that the surface has, or is to get: never one
    /// with a zero width or height.
    pub fn config(&self) -> (config: SurfaceConfig)
        ensures
            config == self@.config,
            config.has_area(),
            config.present_mode == PresentMode::Fifo,
    {
        proof {
            use_type_invariant(self);
        }
        self.surface.config()
    }

    /// The size of the window, as far as the surface follows it.
    pub fn size(&self) -> (size: PhysicalSize)
        ensures
            size == self@.config.size(),
            size.has_area(),
    {
        self.surface.size()
    }

    /// The descriptor of the render pipeline. Its colour target has the
    /// format of the surface.
    pub fn pipeline(&self) -> (pipeline: &RenderPipelineDescriptor)
        ensures
            *pipeline == self@.pipeline,
            pipeline.is_fixed_for(self@.config.format),
            pipeline.color_target.format == self@.config.format,
    {
        proof {
            use_type_invariant(self);
        }
        &self.pipeline
    }

    /// The vertex buffer: the triangle.
    pub fn geometry(&self) -> (geometry: &GeometryBuffer)
        ensures
            *geometry == self.buffer(),
            geometry.holds(triangle()),
    {
        proof {
            use_type_invariant(self);
        }
        &self.geometry
    }

    /// The number of vertices that a frame draws.
    pub fn num_vertices(&self) -> (count: u32)
        ensures
            count == self@.vertex_count,
            count == 3,
    {
        proof {
            use_type_invariant(self);
        }
        self.num_vertices
    }

    /// Where the frame in flight stands.
    pub fn phase(&self) -> (phase: FramePhase)
        ensures
            phase == self@.phase,
    {
        self.phase
    }

    /// Whether the run loop goes on.
    pub fn control_flow(&self) -> (control_flow: ControlFlow)
        ensures
            control_flow == self@.control_flow,
    {
        self.control_flow
    }
}

/// Every event leaves a well-formed state well-formed. In particular the
/// surface never has a zero-sized configuration, and the pipeline's colour
/// target always has the format of the surface.
pub proof fn lemma_handle_keeps_wf(state: StateView, event: Event)
    requires
        state.wf(),
    ensures
        state.handle(event).0.wf(),
        state.handle(event).0.pipeline == state.pipeline,
        state.handle(event).0.config.format == state.config.format,
        state.handle(event).0.vertex_count == state.vertex_count,
{
}

/// The pipeline is built once: no run of events changes its descriptor or
/// the format of the surface, so the colour target of the pipeline has the
/// format of the surface at every moment.
pub proof fn lemma_pipeline_is_built_once(state: StateView, events: Seq<Event>)
    requires
        state.wf(),
    ensures
        state.run(events).wf(),
        state.run(events).pipeline == state.pipeline,
        state.run(events).config.format == state.config.format,
        state.run(events).pipeline.color_target.format == state.run(events).config.format,
    decreases events.len(),
{
    if events.len() > 0 {
        lemma_pipeline_is_built_once(state, events.drop_last());
        lemma_handle_keeps_wf(state.run(events.drop_last()), events.last());
    }
}

/// Whenever a pass is to be recorded, it clears the target to the background
/// colour and draws three vertices, one instance, whatever the size of the
/// window.
pub proof fn lemma_draw_is_fixed(state: StateView, event: Event, pass: RenderPass)
    requires
        state.wf(),
        state.handle(event).1 == Command::Record(pass),
    ensures
        pass == RenderPass::clearing(3),
        pass.draw.vertices == (Span { start: 0, end: 3 }),
        pass.draw.vertices.count() == 3,
        pass.draw.instances == (Span { start: 0, end: 1 }),
        pass.draw.instances.count() == 1,
{
}

/// The commands of a frame come in the order of its phases and nowhere
/// else: a texture is asked for only on a redraw request between frames, a
/// pass is recorded only for a texture that was acquired, the command buffer
/// goes to the queue only once it is recorded, and the texture is presented
/// only once the buffer is with the queue. No frame begins before the last
/// one is over, so command buffers reach the queue in the order of their
/// frames.
pub proof fn lemma_commands_follow_phases(state: StateView, event: Event)
    requires
        state.wf(),
    ensures
        ({
            let (next, command) = state.handle(event);
            &&& command == Command::Acquire ==> state.phase == FramePhase::Idle && route(event)
                == Request::Frame(FrameEvent::RedrawRequested) && next.phase
                == FramePhase::Acquiring
            &&& command is Record ==> state.phase == FramePhase::Acquiring && route(event)
                == Request::Frame(FrameEvent::Acquired) && next.phase == FramePhase::Recording
            &&& command == Command::Submit ==> state.phase == FramePhase::Recording && route(event)
                == Request::Frame(FrameEvent::Recorded) && next.phase == FramePhase::Submitted
            &&& command == Command::Present ==> state.phase == FramePhase::Submitted && route(
                event,
            ) == Request::Frame(FrameEvent::Submitted) && next.phase == FramePhase::Presented
            &&& command != Command::Nothing ==> state.control_flow == ControlFlow::Poll
        }),
{
}

/// The run loop ends for three reasons only: the window is asked to close,
/// escape goes down, or the surface is out of memory when its texture is
/// asked for. A frame is dropped with a note only where the surface was
/// outdated or the wait for its texture timed out; the frame loop is idle
/// afterwards and the run loop goes on.
pub proof fn lemma_failures_are_sorted(state: StateView, event: Event)
    requires
        state.wf(),
    ensures
        ({
            let (next, command) = state.handle(event);
            &&& command == Command::Exit ==> next.control_flow == ControlFlow::Exit && (route(event)
                == Request::Exit || (state.phase == FramePhase::Acquiring && route(event)
                == Request::Frame(FrameEvent::AcquireFailed(SurfaceError::OutOfMemory))))
            &&& command != Command::Exit ==> next.control_flow == state.control_flow
            &&& command matches Command::Skip(error) ==> (error == SurfaceError::Outdated || error
                == SurfaceError::Timeout) && state.phase == FramePhase::Acquiring && route(event)
                == Request::Frame(FrameEvent::AcquireFailed(error)) && next == (StateView {
                phase: FramePhase::Idle,
                ..state
            })
        }),
{
}

/// The surface is configured again for two reasons only: a resize with a
/// positive width and height, and a surface that was lost when its texture
/// was asked for. The configuration that is handed out is the one the state
/// holds afterwards, and it has a positive width and height.
pub proof fn lemma_reconfigure_causes(state: StateView, event: Event, config: SurfaceConfig)
    requires
        state.wf(),
        state.handle(event).1 == Command::Reconfigure(config),
    ensures
        config == state.handle(event).0.config,
        config.has_area(),
        (route(event) matches Request::Resize(size) && size.has_area()) || (state.phase
            == FramePhase::Acquiring && route(event) == Request::Frame(
            FrameEvent::AcquireFailed(SurfaceError::Lost),
        )),
{
}

/// No reconfiguration comes out of the blue: over a run of events of which
/// none is a resize with a positive width and height and none reports a lost
/// surface, the surface is never configured again.
pub proof fn lemma_no_reconfiguration_without_cause(state: StateView, events: Seq<Event>)
    requires
        state.wf(),
        forall|i: int|
            0 <= i < events.len() ==> !(#[trigger] route(events[i]) matches Request::Resize(size)
                && size.has_area()),
        forall|i: int|
            0 <= i < events.len() ==> #[trigger] route(events[i]) != Request::Frame(
                FrameEvent::AcquireFailed(SurfaceError::Lost),
            ),
    ensures
        state.commands(events).len() == events.len(),
        forall|i: int|
            0 <= i < events.len() ==> !((#[trigger] state.commands(events)[i]) is Reconfigure),
        state.run(events).config == state.config,
    decreases events.len(),
{
    if events.len() > 0 {
        let earlier = events.drop_last();
        lemma_no_reconfiguration_without_cause(state, earlier);
        lemma_pipeline_is_built_once(state, earlier);
    }
}

/// A lost surface is configured again exactly once, with the configuration
/// it had, before the next texture is acquired: the failure itself asks for
/// the reconfiguration and ends the frame, and the next redraw request goes
/// straight to the acquisition, whose texture is then drawn to.
pub proof fn lemma_lost_surface_is_reconfigured_once(state: StateView)
    requires
        state.wf(),
        state.control_flow == ControlFlow::Poll,
        state.phase == FramePhase::Acquiring,
    ensures
        ({
            let lost = state.render(FrameEvent::AcquireFailed(SurfaceError::Lost));
            let redraw = lost.0.handle(Event::RedrawRequested { own_window: true });
            let acquired = redraw.0.render(FrameEvent::Acquired);
            &&& lost.1 == Command::Reconfigure(state.config)
            &&& lost.0 == StateView { phase: FramePhase::Idle, ..state }
            &&& redraw.1 == Command::Acquire
            &&& redraw.0 == StateView { phase: FramePhase::Acquiring, ..state }
            &&& acquired.1 == Command::Record(RenderPass::clearing(3))
            &&& acquired.0 == StateView { phase: FramePhase::Recording, ..state }
        }),
{
}

/// A failed acquisition other than a lost surface or a lack of memory drops
/// the frame and nothing else: the state is idle again, unchanged otherwise,
/// and the next redraw request is the retry.
pub proof fn lemma_transient_failure_skips_frame(state: StateView, error: SurfaceError)
    requires
        state.control_flow == ControlFlow::Poll,
        state.phase == FramePhase::Acquiring,
        error == SurfaceError::Outdated || error == SurfaceError::Timeout,
    ensures
        state.render(FrameEvent::AcquireFailed(error)) == (
            StateView { phase: FramePhase::Idle, ..state },
            Command::Skip(error),
        ),
        state.render(FrameEvent::AcquireFailed(error)).0.handle(
            Event::RedrawRequested { own_window: true },
        ).1 == Command::Acquire,
{
}

/// Once the run loop has ended, no run of events changes the state, and
/// every command is `Nothing`: no frame is acquired, recorded, submitted or
/// presented any more.
pub proof fn lemma_exit_is_final(state: StateView, events: Seq<Event>)
    requires
        state.control_flow == ControlFlow::Exit,
    ensures
        state.run(events) == state,
        state.commands(events).len() == events.len(),
        forall|i: int|
            0 <= i < events.len() ==> (#[trigger] state.commands(events)[i]) == Command::Nothing,
    decreases events.len(),
{
    if events.len() > 0 {
        lemma_exit_is_final(state, events.drop_last());
    }
}

/// A surface that is out of memory ends the run loop: the command is `Exit`,
/// and whatever is reported afterwards no further frame is recorded.
pub proof fn lemma_out_of_memory_ends_run(state: StateView, events: Seq<Event>)
    requires
        state.control_flow == ControlFlow::Poll,
        state.phase == FramePhase::Acquiring,
    ensures
        ({
            let failed = state.render(FrameEvent::AcquireFailed(SurfaceError::OutOfMemory));
            &&& failed.1 == Command::Exit
            &&& failed.0.control_flow == ControlFlow::Exit
            &&& failed.0.run(events) == failed.0
            &&& forall|i: int|
                0 <= i < events.len() ==> (#[trigger] failed.0.commands(events)[i])
                    == Command::Nothing
        }),
{
    lemma_exit_is_final(
        state.render(FrameEvent::AcquireFailed(SurfaceError::OutOfMemory)).0,
        events,
    );
}

/// While the run loop goes on, a run of resize events leaves the surface
/// with the configuration that the resizes lead to, one after the other, and
/// touches nothing else.
pub proof fn lemma_resize_events_follow_sizes(state: StateView, sizes: Seq<PhysicalSize>)
    requires
        state.control_flow == ControlFlow::Poll,
    ensures
        state.run(resize_events(sizes)) == (StateView {
            config: state.config.after_resizes(sizes),
            ..state
        }),
    decreases sizes.len(),
{
    let events = resize_events(sizes);
    if sizes.len() > 0 {
        lemma_resize_events_follow_sizes(state, sizes.drop_last());
        assert(events.drop_last() == resize_events(sizes.drop_last()));
    }
}

/// A resize with a zero width or height is no event at all: the state stays
/// as it is and nothing is to be done, however often it comes.
pub proof fn lemma_degenerate_resize_changes_nothing(state: StateView, size: PhysicalSize)
    requires
        size.width == 0 || size.height == 0,
    ensures
        state.resize(size) == (state, Command::Nothing),
        state.handle(Event::WindowEvent { own_window: true, event: WindowEvent::Resized(size) })
            == (state, Command::Nothing),
        state.handle(
            Event::WindowEvent {
                own_window: true,
                event: WindowEvent::ScaleFactorChanged { new_inner_size: size },
            },
        ) == (state, Command::Nothing),
{
}

} // verus!
