//! The state of the render loop and the rules by which events change it.
//!
//! The loop itself (waiting for events, talking to the GPU) belongs to the
//! driver. What is decided here is what each event means: which events the
//! loop consumes, when the surface has to be configured again, when the loop
//! ends. The driver hands every event to [`State::handle`], does what the
//! returned [`Action`] says, and reports how presenting a frame went to
//! [`State::rendered`].

use core::ops::Range;
use vstd::prelude::*;
use crate::event::{
    Action, CursorPosition, ElementState, Event, Size, SurfaceError, VirtualKey, WindowEvent,
};
use crate::mesh::{INDICES, VERTEX_COUNT};
use crate::surface::{SurfaceCapabilities, SurfaceConfig};

verus! {

/// The colour a frame is cleared to before anything is drawn.
#[derive(Clone, Copy, Debug, PartialEq, Eq)]
pub enum ClearColor {
    /// Opaque black.
    Black,
    /// The colour that follows the cursor: red is the cursor's horizontal
    /// coordinate divided by `size.width`, green its vertical coordinate
    /// divided by `size.height`, blue and alpha are one. `size` is the
    /// extent the drawable area had when the cursor moved.
    Cursor { position: CursorPosition, size: Size },
}

/// How one frame is drawn: the colour it is cleared to, and the indexed
/// draw call that follows.
#[derive(Debug, PartialEq, Eq)]
pub struct Frame {
    pub clear_color: ClearColor,
    /// The entries of the index buffer that are drawn.
    pub indices: Range<u32>,
    /// What is added to every index before the vertex is looked up.
    pub base_vertex: i32,
    /// The instances that are drawn.
    pub instances: Range<u32>,
}

/// What is known about a render loop at one moment.
pub struct StateView {
    /// The identifier of the window the loop draws to.
    pub window: u64,
    /// The extent of the drawable area.
    pub size: Size,
    /// How the surface is configured.
    pub config: SurfaceConfig,
    /// The colour the next frame is cleared to.
    pub clear_color: ClearColor,
    /// Whether the coloured variant of the scene is shown.
    pub use_color: bool,
    /// The number of entries of the index buffer.
    pub num_indices: u32,
}

impl StateView {
    /// The surface is configured for the extent the loop has on record, and
    /// the loop knows how long the index list is.
    pub open spec fn coherent(self) -> bool {
        &&& self.config.size() == self.size
        &&& self.num_indices == INDICES@.len()
    }

    /// The state of a loop that has just been set up for a window.
    pub open spec fn initial(window: u64, size: Size, caps: SurfaceCapabilities) -> StateView {
        StateView {
            window,
            size,
            config: SurfaceConfig::chosen(caps, size),
            clear_color: ClearColor::Black,
            use_color: true,
            num_indices: INDICES@.len() as u32,
        }
    }

    /// The frame the loop draws in this state: cleared to the clear colour,
    /// then the whole index list, once.
    pub open spec fn frame(self) -> Frame {
        Frame {
            clear_color: self.clear_color,
            indices: Range { start: 0, end: self.num_indices },
            base_vertex: 0,
            instances: Range { start: 0, end: 1 },
        }
    }

    /// The state after the drawable area was reported to have extent
    /// `new_size`. An extent without pixels is ignored.
    pub open spec fn resized(self, new_size: Size) -> StateView {
        if new_size.drawable() {
            StateView { size: new_size, config: self.config.with_size(new_size), ..self }
        } else {
            self
        }
    }

    /// The window events the loop keeps to itself: cursor movement and
    /// anything that happens to the space bar.
    pub open spec fn consumes(event: WindowEvent) -> bool {
        match event {
            WindowEvent::CursorMoved(_) => true,
            WindowEvent::KeyboardInput { state: _, key: Some(VirtualKey::Space) } => true,
            _ => false,
        }
    }

    /// The state after the loop was offered a window event as input.
    ///
    /// Cursor movement sets the clear colour. The space bar switches the
    /// coloured variant off while it is held down and on again when it is
    /// let go.
    pub open spec fn after_input(self, event: WindowEvent) -> StateView {
        match event {
            WindowEvent::CursorMoved(position) => StateView {
                clear_color: ClearColor::Cursor { position, size: self.size },
                ..self
            },
            WindowEvent::KeyboardInput { state, key: Some(VirtualKey::Space) } => StateView {
                use_color: state == ElementState::Released,
                ..self
            },
            _ => self,
        }
    }

    /// The window events that end the loop, unless the loop consumes them:
    /// a request to close the window, and the escape key going down.
    pub open spec fn asks_to_exit(event: WindowEvent) -> bool {
        match event {
            WindowEvent::CloseRequested => true,
            WindowEvent::KeyboardInput {
                state: ElementState::Pressed,
                key: Some(VirtualKey::Escape),
            } => true,
            _ => false,
        }
    }

    /// The extent a window event announces for the drawable area, if any.
    pub open spec fn announced_size(event: WindowEvent) -> Option<Size> {
        match event {
            WindowEvent::Resized(size) => Some(size),
            WindowEvent::ScaleFactorChanged(size) => Some(size),
            _ => None,
        }
    }

    /// The extent with pixels that an event announces for the loop's own
    /// window, if it announces one.
    pub open spec fn new_extent(self, event: Event) -> Option<Size> {
        match event {
            Event::Window { window, event } => match Self::announced_size(event) {
                Some(size) => if window == self.window && size.drawable() {
                    Some(size)
                } else {
                    None
                },
                None => None,
            },
            _ => None,
        }
    }

    /// The state after an event addressed to the loop's own window, and
    /// what the driver has to do about it.
    pub open spec fn after_window_event(self, event: WindowEvent) -> (StateView, Action) {
        if Self::consumes(event) {
            (self.after_input(event), Action::Idle)
        } else if Self::asks_to_exit(event) {
            (self, Action::Exit)
        } else if let Some(size) = Self::announced_size(event) {
            (self.resized(size), if size.drawable() { Action::Configure } else { Action::Idle })
        } else {
            (self, Action::Idle)
        }
    }

    /// The state after one turn of the event loop, and what the driver has
    /// to do next. Events addressed to other windows are ignored.
    pub open spec fn step(self, event: Event) -> (StateView, Action) {
        match event {
            Event::Window { window, event } => if window == self.window {
                self.after_window_event(event)
            } else {
                (self, Action::Idle)
            },
            Event::RedrawRequested { window } => if window == self.window {
                (self, Action::Render)
            } else {
                (self, Action::Idle)
            },
            Event::MainEventsCleared => (self, Action::RequestRedraw),
            Event::Other => (self, Action::Idle),
        }
    }

    /// The state after the loop has taken one turn for each of a list of
    /// events, in their order.
    pub open spec fn after_events(self, events: Seq<Event>) -> StateView
        decreases events.len(),
    {
        if events.len() == 0 {
            self
        } else {
            self.after_events(events.drop_last()).step(events.last()).0
        }
    }

    /// The state after the driver tried to present a frame, and what it has
    /// to do next.
    ///
    /// A lost swap chain is recreated by configuring the surface again for
    /// the extent on record. Running out of memory ends the loop. Every
    /// other failure is reported and the loop goes on.
    pub open spec fn after_render(self, outcome: Result<(), SurfaceError>) -> (StateView, Action) {
        match outcome {
            Ok(_) => (self, Action::Idle),
            Err(SurfaceError::Lost) => (
                self.resized(self.size),
                if self.size.drawable() { Action::Configure } else { Action::Idle },
            ),
            Err(SurfaceError::OutOfMemory) => (self, Action::Exit),
            Err(e) => (self, Action::Report(e)),
        }
    }
}

/// A surface that is configured for the extent on record stays so,
/// whatever happens.
pub proof fn lemma_step_stays_coherent(s: StateView, event: Event)
    requires
        s.coherent(),
    ensures
        s.step(event).0.coherent(),
{
}

/// Presenting a frame never changes the state, however it goes: a surface
/// that is configured again after its swap chain was lost is configured
/// for the extent it already had.
pub proof fn lemma_after_render_keeps_state(s: StateView, outcome: Result<(), SurfaceError>)
    requires
        s.coherent(),
    ensures
        s.after_render(outcome).0 == s,
{
}

/// After presenting a frame the loop ends only when memory ran out, and
/// the surface is configured again only when the swap chain was lost and
/// there are pixels to configure it for.
pub proof fn lemma_after_render_actions(s: StateView, outcome: Result<(), SurfaceError>)
    ensures
        s.after_render(outcome).1 == Action::Exit <==> outcome == Err::<(), SurfaceError>(
            SurfaceError::OutOfMemory,
        ),
        s.after_render(outcome).1 == Action::Configure <==> outcome == Err::<(), SurfaceError>(
            SurfaceError::Lost,
        ) && s.size.drawable(),
{
}

/// Once the drawable area has pixels, no event takes them away again: an
/// extent without pixels never replaces one with pixels.
pub proof fn lemma_step_stays_drawable(s: StateView, event: Event)
    requires
        s.size.drawable(),
    ensures
        s.step(event).0.size.drawable(),
{
}

/// An event that is addressed to another window changes nothing and asks
/// for nothing.
pub proof fn lemma_other_windows_are_ignored(s: StateView, window: u64, event: WindowEvent)
    requires
        window != s.window,
    ensures
        s.step(Event::Window { window, event }) == (s, Action::Idle),
        s.step(Event::RedrawRequested { window }) == (s, Action::Idle),
{
}

/// The loop ends on exactly two events, both addressed to its own window:
/// a request to close it, and the escape key going down.
pub proof fn lemma_exit_on_request_only(s: StateView, event: Event)
    ensures
        s.step(event).1 == Action::Exit <==> (event matches Event::Window { window, event: e }
            && window == s.window && StateView::asks_to_exit(e)),
{
}

/// The surface is configured again exactly when the loop's own window
/// announces an extent with pixels. The loop then has that extent on record
/// and the surface configuration is for it; after any other event the
/// extent on record is what it was.
pub proof fn lemma_configure_on_resize_only(s: StateView, event: Event)
    ensures
        s.step(event).1 == Action::Configure <==> s.new_extent(event) is Some,
        s.new_extent(event) matches Some(size) ==> s.step(event).0.size == size && s.step(
            event,
        ).0.config.size() == size,
        s.new_extent(event) is None ==> s.step(event).0.size == s.size && s.step(event).0.config
            == s.config,
{
}

/// No event changes which window the loop draws to, nor the format, the
/// presentation mode and the alpha mode its surface is configured with.
pub proof fn lemma_step_keeps_surface_choice(s: StateView, event: Event)
    ensures
        s.step(event).0.window == s.window,
        s.step(event).0.config.format == s.config.format,
        s.step(event).0.config.present_mode == s.config.present_mode,
        s.step(event).0.config.alpha_mode == s.config.alpha_mode,
{
}

/// However long the loop runs, it keeps drawing to the same window with
/// the same format, presentation mode and alpha mode, its surface stays
/// configured for the extent on record, and a drawable area that had pixels
/// when the loop started never loses them.
pub proof fn lemma_events_keep_the_loop_sound(s: StateView, events: Seq<Event>)
    requires
        s.coherent(),
    ensures
        s.after_events(events).coherent(),
        s.after_events(events).window == s.window,
        s.after_events(events).config.format == s.config.format,
        s.after_events(events).config.present_mode == s.config.present_mode,
        s.after_events(events).config.alpha_mode == s.config.alpha_mode,
        s.size.drawable() ==> s.after_events(events).size.drawable(),
    decreases events.len(),
{
    if events.len() > 0 {
        let before = s.after_events(events.drop_last());
        lemma_events_keep_the_loop_sound(s, events.drop_last());
        lemma_step_stays_coherent(before, events.last());
        lemma_step_keeps_surface_choice(before, events.last());
        if s.size.drawable() {
            lemma_step_stays_drawable(before, events.last());
        }
    }
}

/// Every vertex a frame draws exists: each entry of the index buffer that
/// the draw call reads is an entry of the index list, and the vertex it
/// names is a corner of the polygon.
pub proof fn lemma_frame_draws_existing_vertices(s: StateView, k: int)
    requires
        s.coherent(),
        s.frame().indices.start <= k < s.frame().indices.end,
    ensures
        0 <= k < INDICES@.len(),
        0 <= INDICES@[k] + s.frame().base_vertex < VERTEX_COUNT,
{
}

/// The state of a render loop.
///
/// The surface configuration always agrees with the extent on record.
pub struct State {
    window: u64,
    size: Size,
    config: SurfaceConfig,
    clear_color: ClearColor,
    use_color: bool,
    num_indices: u32,
}

impl View for State {
    type V = StateView;

    closed spec fn view(&self) -> StateView {
        StateView {
            window: self.window,
            size: self.size,
            config: self.config,
            clear_color: self.clear_color,
            use_color: self.use_color,
            num_indices: self.num_indices,
        }
    }
}

impl State {
    #[verifier::type_invariant]
    spec fn coherent(self) -> bool {
        self@.coherent()
    }

    /// Sets up the loop for the window known to the driver as `window`,
    /// whose drawable area has extent `size` and whose surface has the
    /// capabilities `caps`.
    ///
    /// The surface is configured for `size` with its preferred format, the
    /// clear colour is black, and the coloured variant is shown.
    pub fn new(window: u64, size: Size, caps: &SurfaceCapabilities) -> (state: State)
        requires
            caps.usable(),
        ensures
            state@ == StateView::initial(window, size, *caps),
            state@.coherent(),
    {
        State {
            window,
            size,
            config: SurfaceConfig::for_surface(caps, size),
            clear_color: ClearColor::Black,
            use_color: true,
            num_indices: INDICES.len() as u32,
        }
    }

    /// Takes note that the drawable area now has extent `new_size`, and
    /// says whether the surface has to be configured again. An extent
    /// without pixels is ignored.
    pub fn resize(&mut self, new_size: Size) -> (configure: bool)
        ensures
            final(self)@ == old(self)@.resized(new_size),
            final(self)@.coherent(),
            configure == new_size.drawable(),
    {
        proof {
            use_type_invariant(&*self);
        }
        if new_size.is_drawable() {
            *self = State {
                window: self.window,
                size: new_size,
                config: SurfaceConfig {
                    format: self.config.format,
                    present_mode: self.config.present_mode,
                    alpha_mode: self.config.alpha_mode,
                    width: new_size.width,
                    height: new_size.height,
                },
                clear_color: self.clear_color,
                use_color: self.use_color,
                num_indices: self.num_indices,
            };
            true
        } else {
            false
        }
    }

    /// Offers a window event to the loop as input, and says whether the
    /// loop consumed it.
    pub fn input(&mut self, event: &WindowEvent) -> (consumed: bool)
        ensures
            final(self)@ == old(self)@.after_input(*event),
            final(self)@.coherent(),
            consumed == StateView::consumes(*event),
    {
        proof {
            use_type_invariant(&*self);
        }
        match event {
            WindowEvent::CursorMoved(position) => {
                self.clear_color = ClearColor::Cursor { position: *position, size: self.size };
                true
            },
            WindowEvent::KeyboardInput { state, key: Some(VirtualKey::Space) } => {
                self.use_color = match state {
                    ElementState::Released => true,
                    ElementState::Pressed => false,
                };
                true
            },
            _ => false,
        }
    }

    /// Advances the scene by one frame. The scene stands still, so the
    /// state stays as it is.
    pub fn update(&mut self)
        ensures
            final(self)@ == old(self)@,
    {
    }

    /// Describes the frame to draw: cleared to the clear colour, then the
    /// whole index list, once.
    pub fn render(&self) -> (frame: Frame)
        ensures
            frame == self@.frame(),
    {
        Frame {
            clear_color: self.clear_color,
            indices: 0..self.num_indices,
            base_vertex: 0,
            instances: 0..1,
        }
    }

    /// Takes one turn of the event loop: changes the state as the event
    /// demands and says what the driver has to do next.
    pub fn handle(&mut self, event: &Event) -> (action: Action)
        ensures
            (final(self)@, action) == old(self)@.step(*event),
            final(self)@.coherent(),
    {
        proof {
            use_type_invariant(&*self);
        }
        match event {
            Event::Window { window, event } => {
                if *window != self.window {
                    Action::Idle
                } else if self.input(event) {
                    Action::Idle
                } else {
                    match event {
                        WindowEvent::CloseRequested => Action::Exit,
                        WindowEvent::KeyboardInput {
                            state: ElementState::Pressed,
                            key: Some(VirtualKey::Escape),
                        } => Action::Exit,
                        WindowEvent::Resized(size) => self.configure_for(*size),
                        WindowEvent::ScaleFactorChanged(size) => self.configure_for(*size),
                        _ => Action::Idle,
                    }
                }
            },
            Event::RedrawRequested { window } => {
                if *window != self.window {
                    Action::Idle
                } else {
                    self.update();
                    Action::Render
                }
            },
            Event::MainEventsCleared => Action::RequestRedraw,
            Event::Other => Action::Idle,
        }
    }

    /// Takes note of how presenting a frame went, and says what the driver
    /// has to do next.
    pub fn rendered(&mut self, outcome: Result<(), SurfaceError>) -> (action: Action)
        ensures
            (final(self)@, action) == old(self)@.after_render(outcome),
            final(self)@ == old(self)@,
    {
        proof {
            use_type_invariant(&*self);
        }
        match outcome {
            Ok(_) => Action::Idle,
            Err(SurfaceError::Lost) => {
                let size = self.size;
                self.configure_for(size)
            },
            Err(SurfaceError::OutOfMemory) => Action::Exit,
            Err(e) => Action::Report(e),
        }
    }

    fn configure_for(&mut self, size: Size) -> (action: Action)
        ensures
            final(self)@ == old(self)@.resized(size),
            final(self)@.coherent(),
            action == (if size.drawable() {
                Action::Configure
            } else {
                Action::Idle
            }),
    {
        if self.resize(size) {
            Action::Configure
        } else {
            Action::Idle
        }
    }

    /// The identifier of the window the loop draws to.
    pub fn window(&self) -> (window: u64)
        ensures
            window == self@.window,
    {
        self.window
    }

    /// The extent of the drawable area.
    pub fn size(&self) -> (size: Size)
        ensures
            size == self@.size,
    {
        self.size
    }

    /// How the surface is configured. The configuration is always for the
    /// extent on record.
    pub fn config(&self) -> (config: SurfaceConfig)
        ensures
            config == self@.config,
            config.size() == self@.size,
    {
        proof {
            use_type_invariant(self);
        }
        self.config
    }

    /// The colour the next frame is cleared to.
    pub fn clear_color(&self) -> (color: ClearColor)
        ensures
            color == self@.clear_color,
    {
        self.clear_color
    }

    /// Whether the coloured variant of the scene is shown.
    pub fn use_color(&self) -> (on: bool)
        ensures
            on == self@.use_color,
    {
        self.use_color
    }

    /// The number of entries of the index buffer, which is the length of
    /// the index list.
    pub fn num_indices(&self) -> (n: u32)
        ensures
            n == self@.num_indices,
            n == INDICES@.len(),
    {
        proof {
            use_type_invariant(self);
        }
        self.num_indices
    }
}

} // verus!
