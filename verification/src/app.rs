//! The application as a state machine: it starts without a graphics context,
//! hands out its proxy once so that a context can be set up and sent back,
//! and from the moment the context arrives answers window events with the
//! actions to take.

use crate::graphics::{next_frame, Frame, Graphics, PhysicalSize};
use vstd::prelude::*;

verus! {

/// Whether a key is down or up.
#[derive(Clone, Copy, Debug, PartialEq, Eq, Structural)]
pub enum ElementState {
    Pressed,
    Released,
}

/// The code of a key, as far as the application tells keys apart.
#[derive(Clone, Copy, Debug, PartialEq, Eq, Structural)]
pub enum KeyCode {
    Escape,
    /// Any other key with a code.
    Other,
}

/// A key by its place on the keyboard.
#[derive(Clone, Copy, Debug, PartialEq, Eq, Structural)]
pub enum PhysicalKey {
    Code(KeyCode),
    /// A key the window system has no code for.
    Unidentified,
}

/// What the window reports.
#[derive(Clone, Copy, Debug, PartialEq, Eq, Structural)]
pub enum WindowEvent {
    /// The window has a new inner size.
    Resized(PhysicalSize),
    /// The window wants its contents drawn.
    RedrawRequested,
    /// A key went down or up.
    KeyboardInput { state: ElementState, physical_key: PhysicalKey },
    /// The cursor moved within the window.
    CursorMoved,
    /// The user asked for the window to be closed.
    CloseRequested,
    /// Anything else.
    Other,
}

/// What is to be done in answer to an event.
#[derive(Clone, Copy, Debug, PartialEq, Eq, Structural)]
pub enum Action {
    /// Nothing.
    Ignore,
    /// Configure the surface anew with this size.
    Reconfigure(PhysicalSize),
    /// Record and present this frame, then request the next redraw.
    Draw(Frame),
    /// Set the clear color from the cursor: red is its x divided by the
    /// width given here, green its y divided by the height, blue and alpha
    /// are 1.
    Recolor(PhysicalSize),
    /// Leave the event loop.
    Exit,
}

/// The state of the application as a mathematical value. `P` is the proxy
/// through which the graphics context is sent back once it is set up.
pub enum Phase<P> {
    /// No graphics context yet. The proxy is still held until the
    /// application is first resumed.
    Init(Option<P>),
    /// The graphics context is there; its surface has this size.
    Ready(PhysicalSize),
}

enum State<P> {
    Ready(Graphics),
    Init(Option<P>),
}

/// The application.
pub struct App<P> {
    state: State<P>,
}

impl<P> View for App<P> {
    type V = Phase<P>;

    closed spec fn view(&self) -> Phase<P> {
        match self.state {
            State::Ready(graphics) => Phase::Ready(graphics@),
            State::Init(proxy) => Phase::Init(proxy),
        }
    }
}

/// Resuming: the first time, the proxy is handed out; after that, and once
/// the context is there, nothing happens.
pub open spec fn resume<P>(phase: Phase<P>) -> (Phase<P>, Option<P>) {
    match phase {
        Phase::Init(Some(proxy)) => (Phase::Init(None), Some(proxy)),
        _ => (phase, None),
    }
}

/// One step of the application on a window event: the phase it goes to, and
/// the action to take. Without a graphics context every event is ignored.
pub open spec fn step<P>(phase: Phase<P>, event: WindowEvent) -> (Phase<P>, Action) {
    match phase {
        Phase::Init(_) => (phase, Action::Ignore),
        Phase::Ready(size) => match event {
            WindowEvent::Resized(new_size) => (
                Phase::Ready(new_size.clamped()),
                Action::Reconfigure(new_size.clamped()),
            ),
            WindowEvent::RedrawRequested => (phase, Action::Draw(next_frame())),
            WindowEvent::KeyboardInput { state, physical_key } => if state.spec_is_pressed()
                && physical_key == PhysicalKey::Code(KeyCode::Escape) {
                (phase, Action::Exit)
            } else {
                (phase, Action::Ignore)
            },
            WindowEvent::CursorMoved => (phase, Action::Recolor(size)),
            WindowEvent::CloseRequested => (phase, Action::Exit),
            WindowEvent::Other => (phase, Action::Ignore),
        },
    }
}

impl ElementState {
    /// The key is down.
    pub open spec fn spec_is_pressed(self) -> bool {
        self == ElementState::Pressed
    }

    /// Tells whether the key is down.
    #[verifier::when_used_as_spec(spec_is_pressed)]
    pub fn is_pressed(self) -> (pressed: bool)
        ensures
            pressed == self.spec_is_pressed(),
    {
        match self {
            ElementState::Pressed => true,
            ElementState::Released => false,
        }
    }
}

impl<P> Phase<P> {
    /// In the `Ready` phase the surface has no dimension of 0.
    pub open spec fn well_formed(self) -> bool {
        self matches Phase::Ready(size) ==> size.width >= 1 && size.height >= 1
    }
}

impl<P> App<P> {
    /// The application before it is first resumed, holding the proxy.
    pub fn new(proxy: P) -> (app: App<P>)
        ensures
            app@ == Phase::Init(Some(proxy)),
    {
        App { state: State::Init(Some(proxy)) }
    }

    /// Tells whether the graphics context has arrived.
    pub fn is_ready(&self) -> (ready: bool)
        ensures
            ready == (self@ is Ready),
    {
        match &self.state {
            State::Ready(_) => true,
            State::Init(_) => false,
        }
    }

    /// The size of the surface, once the graphics context has arrived. No
    /// dimension of it is 0.
    pub fn surface_size(&self) -> (size: Option<PhysicalSize>)
        ensures
            self@.well_formed(),
            match self@ {
                Phase::Ready(configured) => size == Some(configured),
                Phase::Init(_) => size is None,
            },
    {
        match &self.state {
            State::Ready(graphics) => Some(graphics.size()),
            State::Init(_) => None,
        }
    }

    /// The application is resumed. The first time, this returns the proxy:
    /// the caller is to open the window, set up the graphics context and send
    /// it through the proxy. Every other time it returns `None`.
    pub fn resumed(&mut self) -> (proxy: Option<P>)
        ensures
            (final(self)@, proxy) == resume(old(self)@),
    {
        match &mut self.state {
            State::Init(pending) => pending.take(),
            State::Ready(_) => None,
        }
    }

    /// The graphics context has arrived: from now on window events are
    /// answered.
    pub fn user_event(&mut self, graphics: Graphics)
        ensures
            final(self)@ == Phase::<P>::Ready(graphics@),
    {
        self.state = State::Ready(graphics);
    }

    /// Answers a window event: updates the size of the surface where the
    /// window was resized, and returns the action to take.
    pub fn window_event(&mut self, event: WindowEvent) -> (action: Action)
        ensures
            (final(self)@, action) == step(old(self)@, event),
            final(self)@.well_formed(),
    {
        match &mut self.state {
            State::Ready(graphics) => {
                let size = graphics.size();
                match event {
                    WindowEvent::Resized(new_size) => {
                        graphics.resize(new_size);
                        Action::Reconfigure(graphics.size())
                    },
                    WindowEvent::RedrawRequested => Action::Draw(graphics.draw()),
                    WindowEvent::KeyboardInput { state, physical_key } => {
                        if state.is_pressed() {
                            match physical_key {
                                PhysicalKey::Code(KeyCode::Escape) => Action::Exit,
                                _ => Action::Ignore,
                            }
                        } else {
                            Action::Ignore
                        }
                    },
                    WindowEvent::CursorMoved => Action::Recolor(size),
                    WindowEvent::CloseRequested => Action::Exit,
                    WindowEvent::Other => Action::Ignore,
                }
            },
            State::Init(_) => Action::Ignore,
        }
    }
}

/// Until the graphics context arrives, every window event is ignored and
/// changes nothing.
pub proof fn lemma_ignored_until_ready<P>(phase: Phase<P>, event: WindowEvent)
    requires
        phase is Init,
    ensures
        step(phase, event) == (phase, Action::Ignore),
{
}

/// No window event leads out of the `Ready` phase, and none leads into it;
/// only a resize changes the phase at all.
pub proof fn lemma_events_keep_phase<P>(phase: Phase<P>, event: WindowEvent)
    ensures
        step(phase, event).0 is Ready <==> phase is Ready,
        !(event is Resized) ==> step(phase, event).0 == phase,
{
}

/// The proxy is handed out at most once: after a first resume, resuming
/// again hands out nothing and changes nothing.
pub proof fn lemma_proxy_handed_out_once<P>(phase: Phase<P>)
    ensures
        resume(resume(phase).0) == (resume(phase).0, None::<P>),
        resume(phase).1 matches Some(proxy) ==> phase == Phase::Init(Some(proxy)) && resume(
            phase,
        ).0 == Phase::<P>::Init(None),
        resume(phase).1 is None ==> resume(phase).0 == phase,
        resume(phase).0 is Ready <==> phase is Ready,
{
}

/// Whatever size a resize asks for, the surface is configured with at least
/// 1 by 1: with the size asked for where no dimension of it is 0, and else
/// with that dimension raised to 1. The action carries that same size.
pub proof fn lemma_resize_clamps<P>(size: PhysicalSize, new_size: PhysicalSize)
    ensures
        step(Phase::<P>::Ready(size), WindowEvent::Resized(new_size)) == (
            Phase::<P>::Ready(new_size.clamped()),
            Action::Reconfigure(new_size.clamped()),
        ),
        new_size.clamped().width == if new_size.width == 0 {
            1
        } else {
            new_size.width
        },
        new_size.clamped().height == if new_size.height == 0 {
            1
        } else {
            new_size.height
        },
{
}

/// A step keeps the surface configurable: from a well-formed phase it leads
/// to a well-formed phase, and a size that it passes on for the clear color
/// to be divided by has no dimension of 0.
pub proof fn lemma_step_keeps_well_formed<P>(phase: Phase<P>, event: WindowEvent)
    requires
        phase.well_formed(),
    ensures
        step(phase, event).0.well_formed(),
        step(phase, event).1 matches Action::Recolor(size) ==> {
            &&& phase == Phase::<P>::Ready(size)
            &&& size.width >= 1
            &&& size.height >= 1
        },
        step(phase, event).1 matches Action::Reconfigure(size) ==> size.width >= 1 && size.height
            >= 1,
{
}

/// The cursor only sets the clear color once the graphics context is there,
/// and the color is then taken relative to the size the surface has at that
/// moment.
pub proof fn lemma_recolor_by_current_size<P>(phase: Phase<P>, event: WindowEvent)
    ensures
        step(phase, event).1 is Recolor <==> phase is Ready && event is CursorMoved,
        phase matches Phase::Ready(size) ==> step(phase, WindowEvent::CursorMoved).1
            == Action::Recolor(size),
{
}

/// The application is left exactly when, with the graphics context there,
/// Escape goes down or the window is asked to close.
pub proof fn lemma_exit<P>(phase: Phase<P>, event: WindowEvent)
    ensures
        step(phase, event).1 is Exit <==> {
            &&& phase is Ready
            &&& (event is CloseRequested || event == (WindowEvent::KeyboardInput {
                state: ElementState::Pressed,
                physical_key: PhysicalKey::Code(KeyCode::Escape),
            }))
        },
{
}

} // verus!
