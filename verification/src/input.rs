//! Input events, and the session that tracks what is held down.

use vstd::prelude::*;

verus! {

/// A movement axis that a key stands for.
#[derive(Clone, Copy, Debug, PartialEq, Eq, Structural)]
pub enum AbstractKey {
    CameraMoveForward,
    CameraMoveBackward,
    CameraMoveLeft,
    CameraMoveRight,
    CameraMoveDown,
    CameraMoveUp,
}

#[derive(Clone, Copy, Debug, PartialEq, Eq, Structural)]
pub enum AbstractMouseButton {
    Primary,
    Secondary,
    Middle,
}

/// One event from the shell. Deltas are bit patterns of single-precision
/// numbers.
#[derive(Clone, Copy, Debug, PartialEq, Eq, Structural)]
pub enum InputEvent {
    KeyPressing(AbstractKey),
    KeyUp(AbstractKey),
    MouseWheel { delta_x: u32, delta_y: u32 },
    MouseRightDown,
    MouseRightUp,
    MouseMove { delta_x: u32, delta_y: u32 },
}

/// The set of keys that are held down.
#[derive(Clone, Copy, Debug, PartialEq, Eq, Structural)]
pub struct KeySet {
    pub forward: bool,
    pub backward: bool,
    pub left: bool,
    pub right: bool,
    pub down: bool,
    pub up: bool,
}

impl KeySet {
    /// Whether the set holds `key`.
    pub open spec fn holds(self, key: AbstractKey) -> bool {
        match key {
            AbstractKey::CameraMoveForward => self.forward,
            AbstractKey::CameraMoveBackward => self.backward,
            AbstractKey::CameraMoveLeft => self.left,
            AbstractKey::CameraMoveRight => self.right,
            AbstractKey::CameraMoveDown => self.down,
            AbstractKey::CameraMoveUp => self.up,
        }
    }

    /// The keys of the set.
    pub open spec fn view(self) -> Set<AbstractKey> {
        Set::new(|key: AbstractKey| self.holds(key))
    }

    /// The set with `key` held or not, and every other key as before.
    pub open spec fn with(self, key: AbstractKey, held: bool) -> KeySet {
        match key {
            AbstractKey::CameraMoveForward => KeySet { forward: held, ..self },
            AbstractKey::CameraMoveBackward => KeySet { backward: held, ..self },
            AbstractKey::CameraMoveLeft => KeySet { left: held, ..self },
            AbstractKey::CameraMoveRight => KeySet { right: held, ..self },
            AbstractKey::CameraMoveDown => KeySet { down: held, ..self },
            AbstractKey::CameraMoveUp => KeySet { up: held, ..self },
        }
    }

    pub open spec fn spec_new() -> KeySet {
        KeySet {
            forward: false,
            backward: false,
            left: false,
            right: false,
            down: false,
            up: false,
        }
    }

    /// The empty set.
    pub fn new() -> (keys: KeySet)
        ensures
            keys == Self::spec_new(),
            keys@ == Set::<AbstractKey>::empty(),
    {
        let keys = KeySet {
            forward: false,
            backward: false,
            left: false,
            right: false,
            down: false,
            up: false,
        };
        assert(keys@ =~= Set::<AbstractKey>::empty());
        keys
    }

    /// Holds or releases `key`.
    pub fn set(&mut self, key: AbstractKey, held: bool)
        ensures
            *final(self) == old(self).with(key, held),
            held ==> final(self)@ == old(self)@.insert(key),
            !held ==> final(self)@ == old(self)@.remove(key),
    {
        match key {
            AbstractKey::CameraMoveForward => {
                self.forward = held;
            },
            AbstractKey::CameraMoveBackward => {
                self.backward = held;
            },
            AbstractKey::CameraMoveLeft => {
                self.left = held;
            },
            AbstractKey::CameraMoveRight => {
                self.right = held;
            },
            AbstractKey::CameraMoveDown => {
                self.down = held;
            },
            AbstractKey::CameraMoveUp => {
                self.up = held;
            },
        }
        proof {
            if held {
                assert(self@ =~= old(self)@.insert(key));
            } else {
                assert(self@ =~= old(self)@.remove(key));
            }
        }
    }

    /// Tells whether no key is held.
    pub fn is_empty(&self) -> (empty: bool)
        ensures
            empty == (self@ == Set::<AbstractKey>::empty()),
            empty == (*self == Self::spec_new()),
    {
        let empty = !(self.forward || self.backward || self.left || self.right || self.down
            || self.up);
        proof {
            if empty {
                assert(self@ =~= Set::<AbstractKey>::empty());
            } else {
                assert(self@.contains(AbstractKey::CameraMoveForward) || self@.contains(
                    AbstractKey::CameraMoveBackward,
                ) || self@.contains(AbstractKey::CameraMoveLeft) || self@.contains(
                    AbstractKey::CameraMoveRight,
                ) || self@.contains(AbstractKey::CameraMoveDown) || self@.contains(
                    AbstractKey::CameraMoveUp,
                ));
            }
        }
        empty
    }
}

/// The set of mouse buttons that are held down.
#[derive(Clone, Copy, Debug, PartialEq, Eq, Structural)]
pub struct ButtonSet {
    pub primary: bool,
    pub secondary: bool,
    pub middle: bool,
}

impl ButtonSet {
    /// Whether the set holds `button`.
    pub open spec fn holds(self, button: AbstractMouseButton) -> bool {
        match button {
            AbstractMouseButton::Primary => self.primary,
            AbstractMouseButton::Secondary => self.secondary,
            AbstractMouseButton::Middle => self.middle,
        }
    }

    /// The buttons of the set.
    pub open spec fn view(self) -> Set<AbstractMouseButton> {
        Set::new(|button: AbstractMouseButton| self.holds(button))
    }

    /// The set with `button` held or not, and every other button as before.
    pub open spec fn with(self, button: AbstractMouseButton, held: bool) -> ButtonSet {
        match button {
            AbstractMouseButton::Primary => ButtonSet { primary: held, ..self },
            AbstractMouseButton::Secondary => ButtonSet { secondary: held, ..self },
            AbstractMouseButton::Middle => ButtonSet { middle: held, ..self },
        }
    }

    pub open spec fn spec_new() -> ButtonSet {
        ButtonSet { primary: false, secondary: false, middle: false }
    }

    /// The empty set.
    pub fn new() -> (buttons: ButtonSet)
        ensures
            buttons == Self::spec_new(),
            buttons@ == Set::<AbstractMouseButton>::empty(),
    {
        let buttons = ButtonSet { primary: false, secondary: false, middle: false };
        assert(buttons@ =~= Set::<AbstractMouseButton>::empty());
        buttons
    }

    /// Holds or releases `button`.
    pub fn set(&mut self, button: AbstractMouseButton, held: bool)
        ensures
            *final(self) == old(self).with(button, held),
            held ==> final(self)@ == old(self)@.insert(button),
            !held ==> final(self)@ == old(self)@.remove(button),
    {
        match button {
            AbstractMouseButton::Primary => {
                self.primary = held;
            },
            AbstractMouseButton::Secondary => {
                self.secondary = held;
            },
            AbstractMouseButton::Middle => {
                self.middle = held;
            },
        }
        proof {
            if held {
                assert(self@ =~= old(self)@.insert(button));
            } else {
                assert(self@ =~= old(self)@.remove(button));
            }
        }
    }

    /// Tells whether the set holds `button`.
    pub fn contains(&self, button: AbstractMouseButton) -> (held: bool)
        ensures
            held == self@.contains(button),
            held == self.holds(button),
    {
        match button {
            AbstractMouseButton::Primary => self.primary,
            AbstractMouseButton::Secondary => self.secondary,
            AbstractMouseButton::Middle => self.middle,
        }
    }

    /// Tells whether no button is held.
    pub fn is_empty(&self) -> (empty: bool)
        ensures
            empty == (self@ == Set::<AbstractMouseButton>::empty()),
            empty == (*self == Self::spec_new()),
    {
        let empty = !(self.primary || self.secondary || self.middle);
        proof {
            if empty {
                assert(self@ =~= Set::<AbstractMouseButton>::empty());
            } else {
                assert(self@.contains(AbstractMouseButton::Primary) || self@.contains(
                    AbstractMouseButton::Secondary,
                ) || self@.contains(AbstractMouseButton::Middle));
            }
        }
        empty
    }
}

/// What is held down since the first press, and the times of the last two
/// frames, in nanoseconds of the shell's clock.
#[derive(Clone, Copy, Debug, PartialEq, Eq, Structural)]
pub struct AnimationSession {
    pub pressing_keys: KeySet,
    pub pressing_mouse_buttons: ButtonSet,
    pub prev_time: Option<u64>,
    pub now: u64,
}

impl AnimationSession {
    /// A session that starts at `now` with nothing held.
    pub open spec fn starting(now: u64) -> AnimationSession {
        AnimationSession {
            pressing_keys: KeySet::spec_new(),
            pressing_mouse_buttons: ButtonSet::spec_new(),
            prev_time: None,
            now,
        }
    }

    /// Starts a session at `now` with nothing held.
    pub fn start(now: u64) -> (session: AnimationSession)
        ensures
            session == Self::starting(now),
    {
        AnimationSession {
            pressing_keys: KeySet::new(),
            pressing_mouse_buttons: ButtonSet::new(),
            prev_time: None,
            now,
        }
    }

    /// The camera turns with the mouse while the secondary button is held.
    pub open spec fn rotating(self) -> bool {
        self.pressing_mouse_buttons.secondary
    }

    /// Tells whether the mouse turns the camera.
    pub fn is_rotating_using_mouse(&self) -> (rotating: bool)
        ensures
            rotating == self.rotating(),
    {
        self.pressing_mouse_buttons.contains(AbstractMouseButton::Secondary)
    }

    /// The session after an event.
    pub open spec fn after(self, event: InputEvent) -> AnimationSession {
        match event {
            InputEvent::MouseRightDown => AnimationSession {
                pressing_mouse_buttons: self.pressing_mouse_buttons.with(
                    AbstractMouseButton::Secondary,
                    true,
                ),
                ..self
            },
            InputEvent::MouseRightUp => AnimationSession {
                pressing_mouse_buttons: self.pressing_mouse_buttons.with(
                    AbstractMouseButton::Secondary,
                    false,
                ),
                ..self
            },
            InputEvent::KeyPressing(key) => AnimationSession {
                pressing_keys: self.pressing_keys.with(key, true),
                ..self
            },
            InputEvent::KeyUp(key) => AnimationSession {
                pressing_keys: self.pressing_keys.with(key, false),
                ..self
            },
            _ => self,
        }
    }
}

/// Whether anything is held down.
#[derive(Clone, Copy, Debug, PartialEq, Eq, Structural)]
pub enum AnimationState {
    Idle,
    Animating(AnimationSession),
}

impl AnimationState {
    /// A session in which nothing is held any more has to end.
    pub open spec fn spec_must_be_idle(self) -> bool {
        match self {
            AnimationState::Idle => false,
            AnimationState::Animating(session) => session.pressing_mouse_buttons
                == ButtonSet::spec_new() && session.pressing_keys == KeySet::spec_new(),
        }
    }

    /// Tells whether the state is a session in which nothing is held.
    pub fn must_be_idle(&self) -> (idle: bool)
        ensures
            idle == self.spec_must_be_idle(),
    {
        match self {
            AnimationState::Idle => false,
            AnimationState::Animating(session) => session.pressing_mouse_buttons.is_empty()
                && session.pressing_keys.is_empty(),
        }
    }

    /// The session, while there is one.
    pub fn animation_session(&self) -> (session: Option<&AnimationSession>)
        ensures
            match session {
                Some(s) => *self == AnimationState::Animating(*s),
                None => *self == AnimationState::Idle,
            },
    {
        match self {
            AnimationState::Idle => None,
            AnimationState::Animating(session) => Some(session),
        }
    }

    /// Whether the mouse turns the camera.
    pub open spec fn rotating(self) -> bool {
        match self {
            AnimationState::Idle => false,
            AnimationState::Animating(session) => session.rotating(),
        }
    }

    /// The state after an event that arrives at the time `now`: a press
    /// starts a session where there is none; presses and releases are
    /// recorded in the session; the session ends with the last release.
    pub open spec fn after(self, event: InputEvent, now: u64) -> AnimationState {
        let pressed = match (self, event) {
            (AnimationState::Idle, InputEvent::MouseRightDown) => AnimationState::Animating(
                AnimationSession::starting(now).after(event),
            ),
            (AnimationState::Idle, InputEvent::KeyPressing(_)) => AnimationState::Animating(
                AnimationSession::starting(now).after(event),
            ),
            (AnimationState::Idle, _) => AnimationState::Idle,
            (AnimationState::Animating(session), _) => AnimationState::Animating(
                session.after(event),
            ),
        };
        if pressed.spec_must_be_idle() {
            AnimationState::Idle
        } else {
            pressed
        }
    }

    /// Takes an event that arrives at the time `now`.
    pub fn advance(&mut self, event: &InputEvent, now: u64)
        ensures
            *final(self) == old(self).after(*event, now),
    {
        let mut session = match self {
            AnimationState::Idle => match event {
                InputEvent::MouseRightDown => AnimationSession::start(now),
                InputEvent::KeyPressing(_) => AnimationSession::start(now),
                _ => {
                    return ;
                },
            },
            AnimationState::Animating(session) => *session,
        };
        match event {
            InputEvent::MouseRightDown => {
                session.pressing_mouse_buttons.set(AbstractMouseButton::Secondary, true);
            },
            InputEvent::MouseRightUp => {
                session.pressing_mouse_buttons.set(AbstractMouseButton::Secondary, false);
            },
            InputEvent::KeyPressing(key) => {
                session.pressing_keys.set(*key, true);
            },
            InputEvent::KeyUp(key) => {
                session.pressing_keys.set(*key, false);
            },
            _ => {},
        }
        let pressed = AnimationState::Animating(session);
        if pressed.must_be_idle() {
            *self = AnimationState::Idle;
        } else {
            *self = pressed;
        }
    }
}

} // verus!
