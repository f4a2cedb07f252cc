//! Input state and the dispatch of platform pointer events to handlers.

use crate::error::ConfigError;
use vstd::prelude::*;

verus! {

/// A logical event kind that a handler can be registered for.
#[derive(Debug, Clone, Copy, PartialEq, Eq, Structural, Hash)]
pub enum PEvent {
    PMousePressed,
    PMouseReleased,
    PMouseMoved,
    NoEvent,
}

impl Default for PEvent {
    fn default() -> (r: Self)
        ensures
            r == PEvent::NoEvent,
    {
        PEvent::NoEvent
    }
}

/// The pointer button last pressed or released, as exposed to handlers.
#[derive(Debug, Clone, Copy, PartialEq, Eq, Structural)]
pub enum PMouseButton {
    LeftButton,
    RightButton,
    MiddleButton,
    NoButton,
}

impl Default for PMouseButton {
    fn default() -> (r: Self)
        ensures
            r == PMouseButton::NoButton,
    {
        PMouseButton::NoButton
    }
}

/// A button identity as the windowing platform reports it.
#[derive(Debug, Clone, Copy, PartialEq, Eq, Structural)]
pub enum PlatformButton {
    Left,
    Right,
    Middle,
    Other(u16),
}

/// Whether a platform button went down or up.
#[derive(Debug, Clone, Copy, PartialEq, Eq, Structural)]
pub enum ButtonState {
    Pressed,
    Released,
}

pub open spec fn button_of(b: PlatformButton) -> PMouseButton {
    match b {
        PlatformButton::Left => PMouseButton::LeftButton,
        PlatformButton::Right => PMouseButton::RightButton,
        PlatformButton::Middle => PMouseButton::MiddleButton,
        PlatformButton::Other(_) => PMouseButton::NoButton,
    }
}

impl PMouseButton {
    /// Maps a platform button to its logical identity; buttons outside
    /// left, right and middle become `NoButton`.
    pub fn from(button: PlatformButton) -> (r: Self)
        ensures
            r == button_of(button),
    {
        match button {
            PlatformButton::Left => PMouseButton::LeftButton,
            PlatformButton::Right => PMouseButton::RightButton,
            PlatformButton::Middle => PMouseButton::MiddleButton,
            PlatformButton::Other(_) => PMouseButton::NoButton,
        }
    }
}

/// A platform input event, reduced to what the runtime reads of it.
///
/// Pointer coordinates are carried as the bit patterns of 32-bit floats:
/// the runtime stores and hands them back but never computes with them.
#[derive(Debug, Clone, Copy, PartialEq, Eq, Structural)]
pub enum InputEvent {
    CursorMoved { x: u32, y: u32 },
    MouseInput { state: ButtonState, button: PlatformButton },
    CloseRequested,
    Other,
}

/// What the frame loop has to do after an event was dispatched.
#[derive(Debug, PartialEq, Eq)]
pub enum Reaction<C> {
    /// Stop the loop: the window was asked to close.
    Close,
    /// Invoke this handler now that the state is updated.
    Call(C),
    /// Nothing further.
    Ignore,
}

/// Lifecycle callbacks, registered handlers and the current input state.
pub struct EventState<C> {
    pub setup: Option<C>,
    pub draw: Option<C>,
    /// Bit pattern of the pointer's horizontal coordinate.
    pub mouse_x: u32,
    /// Bit pattern of the pointer's vertical coordinate.
    pub mouse_y: u32,
    pub key_code: u32,
    pub mouse_button: PMouseButton,
    /// Modifier flags: kept for later use, nothing reads them yet.
    pub ctrl_pressed: bool,
    pub alt_pressed: bool,
    pub shift_pressed: bool,
    /// One handler slot per event kind, so the registered handlers form a
    /// total map from `PEvent` (see `handler`).
    pub on_pressed: Option<C>,
    pub on_released: Option<C>,
    pub on_moved: Option<C>,
    pub on_no_event: Option<C>,
}

/// Which handler, if any, fires for a dispatched event.
pub open spec fn reaction_of<C>(h: Option<C>) -> Reaction<C> {
    match h {
        Some(c) => Reaction::Call(c),
        None => Reaction::Ignore,
    }
}

impl<C: Copy> EventState<C> {
    /// The handler registered for `event`.
    pub open spec fn handler(self, event: PEvent) -> Option<C> {
        match event {
            PEvent::PMousePressed => self.on_pressed,
            PEvent::PMouseReleased => self.on_released,
            PEvent::PMouseMoved => self.on_moved,
            PEvent::NoEvent => self.on_no_event,
        }
    }

    /// The state after `event` is dispatched.
    pub open spec fn after(self, event: InputEvent) -> Self {
        match event {
            InputEvent::CursorMoved { x, y } => EventState { mouse_x: x, mouse_y: y, ..self },
            InputEvent::MouseInput { state, button } => EventState {
                mouse_button: button_of(button),
                ..self
            },
            _ => self,
        }
    }

    /// What dispatching `event` asks of the loop.
    pub open spec fn reaction(self, event: InputEvent) -> Reaction<C> {
        match event {
            InputEvent::CursorMoved { .. } => reaction_of(self.handler(PEvent::PMouseMoved)),
            InputEvent::MouseInput { state, .. } => match state {
                ButtonState::Pressed => reaction_of(self.handler(PEvent::PMousePressed)),
                ButtonState::Released => reaction_of(self.handler(PEvent::PMouseReleased)),
            },
            InputEvent::CloseRequested => Reaction::Close,
            InputEvent::Other => Reaction::Ignore,
        }
    }

    /// The setup and draw callbacks, or which of them is missing.
    pub open spec fn callbacks(self) -> Result<(C, C), ConfigError> {
        match (self.setup, self.draw) {
            (Some(s), Some(d)) => Ok((s, d)),
            (None, _) => Err(ConfigError::MissingSetup),
            (Some(_), None) => Err(ConfigError::MissingDraw),
        }
    }

    /// A state with no callbacks, the pointer at the origin and no button.
    pub fn new() -> (r: Self)
        ensures
            r.setup.is_none(),
            r.draw.is_none(),
            r.mouse_x == 0,
            r.mouse_y == 0,
            r.key_code == 0,
            r.mouse_button == PMouseButton::NoButton,
            !r.ctrl_pressed && !r.alt_pressed && !r.shift_pressed,
            forall|e: PEvent| r.handler(e).is_none(),
    {
        EventState {
            setup: None,
            draw: None,
            mouse_x: 0,
            mouse_y: 0,
            key_code: 0,
            mouse_button: PMouseButton::NoButton,
            ctrl_pressed: false,
            alt_pressed: false,
            shift_pressed: false,
            on_pressed: None,
            on_released: None,
            on_moved: None,
            on_no_event: None,
        }
    }

    /// Registers the two lifecycle callbacks.
    pub fn p_init(&mut self, setup: C, draw: C)
        ensures
            *final(self) == (EventState { setup: Some(setup), draw: Some(draw), ..*old(self) }),
    {
        self.setup = Some(setup);
        self.draw = Some(draw);
    }

    /// The state with `callback` registered for `event`.
    pub open spec fn with_handler(self, event: PEvent, callback: C) -> Self {
        match event {
            PEvent::PMousePressed => EventState { on_pressed: Some(callback), ..self },
            PEvent::PMouseReleased => EventState { on_released: Some(callback), ..self },
            PEvent::PMouseMoved => EventState { on_moved: Some(callback), ..self },
            PEvent::NoEvent => EventState { on_no_event: Some(callback), ..self },
        }
    }

    /// Registers `callback` for `event`; a later registration replaces it.
    pub fn p_on(&mut self, event: PEvent, callback: C)
        ensures
            *final(self) == old(self).with_handler(event, callback),
            final(self).handler(event) == Some(callback),
            forall|e: PEvent| e != event ==> final(self).handler(e) == old(self).handler(e),
    {
        match event {
            PEvent::PMousePressed => self.on_pressed = Some(callback),
            PEvent::PMouseReleased => self.on_released = Some(callback),
            PEvent::PMouseMoved => self.on_moved = Some(callback),
            PEvent::NoEvent => self.on_no_event = Some(callback),
        }
    }

    /// The handler registered for `event`, if any.
    pub fn get_handler(&self, event: PEvent) -> (r: Option<C>)
        ensures
            r == self.handler(event),
    {
        match event {
            PEvent::PMousePressed => self.on_pressed,
            PEvent::PMouseReleased => self.on_released,
            PEvent::PMouseMoved => self.on_moved,
            PEvent::NoEvent => self.on_no_event,
        }
    }

    /// The setup and draw callbacks, which must both be registered before
    /// the frame loop starts; the setup callback is checked first.
    pub fn lifecycle(&self) -> (r: Result<(C, C), ConfigError>)
        ensures
            r == self.callbacks(),
    {
        match (self.setup, self.draw) {
            (Some(s), Some(d)) => Ok((s, d)),
            (None, _) => Err(ConfigError::MissingSetup),
            (Some(_), None) => Err(ConfigError::MissingDraw),
        }
    }

    pub fn mouse_x(&self) -> (r: u32)
        ensures
            r == self.mouse_x,
    {
        self.mouse_x
    }

    pub fn mouse_y(&self) -> (r: u32)
        ensures
            r == self.mouse_y,
    {
        self.mouse_y
    }

    pub fn mouse_button(&self) -> (r: PMouseButton)
        ensures
            r == self.mouse_button,
    {
        self.mouse_button
    }
}

/// Records a button transition, then reports the pressed or released
/// handler; with none registered the transition is still recorded.
pub fn handle_mouse_event<C: Copy>(
    events: &mut EventState<C>,
    state: ButtonState,
    button: PlatformButton,
) -> (r: Reaction<C>)
    ensures
        *final(events) == old(events).after(InputEvent::MouseInput { state, button }),
        r == old(events).reaction(InputEvent::MouseInput { state, button }),
{
    events.mouse_button = PMouseButton::from(button);
    match state {
        ButtonState::Pressed => match events.get_handler(PEvent::PMousePressed) {
            Some(h) => Reaction::Call(h),
            None => Reaction::Ignore,
        },
        ButtonState::Released => match events.get_handler(PEvent::PMouseReleased) {
            Some(h) => Reaction::Call(h),
            None => Reaction::Ignore,
        },
    }
}

/// Applies a platform event to the input state and reports what the loop
/// must do next. The state is updated before the returned handler runs, so
/// a handler that reads the pointer sees the values of this event.
pub fn handle_event<C: Copy>(events: &mut EventState<C>, event: InputEvent) -> (r: Reaction<C>)
    ensures
        *final(events) == old(events).after(event),
        r == old(events).reaction(event),
{
    match event {
        InputEvent::MouseInput { state, button } => handle_mouse_event(events, state, button),
        InputEvent::CursorMoved { x, y } => {
            events.mouse_x = x;
            events.mouse_y = y;
            match events.get_handler(PEvent::PMouseMoved) {
                Some(h) => Reaction::Call(h),
                None => Reaction::Ignore,
            }
        },
        InputEvent::CloseRequested => Reaction::Close,
        InputEvent::Other => Reaction::Ignore,
    }
}

/// Moving the pointer stores the new coordinates before the moved handler
/// is reported, so the handler reads the coordinates of this event.
pub proof fn lemma_pointer_fresh_for_handler<C: Copy>(s: EventState<C>, x: u32, y: u32)
    ensures
        s.after(InputEvent::CursorMoved { x, y }).mouse_x == x,
        s.after(InputEvent::CursorMoved { x, y }).mouse_y == y,
        s.reaction(InputEvent::CursorMoved { x, y }) == reaction_of(s.handler(PEvent::PMouseMoved)),
{
}

/// A press with no pressed handler calls nothing, yet still records the
/// button.
pub proof fn lemma_unhandled_press_records_button<C: Copy>(s: EventState<C>, button: PlatformButton)
    requires
        s.handler(PEvent::PMousePressed).is_none(),
    ensures
        s.reaction(InputEvent::MouseInput { state: ButtonState::Pressed, button })
            == Reaction::<C>::Ignore,
        s.after(InputEvent::MouseInput { state: ButtonState::Pressed, button }) == (EventState {
            mouse_button: button_of(button),
            ..s
        }),
{
}

/// Without both lifecycle callbacks the start check fails with a
/// configuration error; with only the setup callback it names the missing
/// draw callback.
pub proof fn lemma_run_requires_callbacks<C: Copy>(s: EventState<C>)
    requires
        s.draw.is_none() || s.setup.is_none(),
    ensures
        s.callbacks() is Err,
        s.draw.is_none() && s.setup.is_some() ==> s.callbacks() == Err::<(C, C), ConfigError>(
            ConfigError::MissingDraw,
        ),
{
}

} // verus!
