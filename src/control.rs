use vstd::prelude::*;

verus! {

/// Keys the controls recognise, by physical position; `Other` for the rest.
#[derive(Clone, Copy, Debug, PartialEq, Eq, Structural)]
pub enum Key {
    /// Z
    ZoomIn,
    /// X
    ZoomOut,
    /// W
    Forward,
    /// S
    Backward,
    /// A
    Left,
    /// D
    Right,
    Escape,
    Other,
}

/// Mouse buttons as the controls see them.
#[derive(Clone, Copy, Debug, PartialEq, Eq, Structural)]
pub enum Button {
    Left,
    Other,
}

/// The discrete part of the per-frame control state: which movement keys are held.
#[derive(Clone, Copy, Debug, PartialEq, Eq, Structural)]
pub struct ControlFlags {
    pub zoom_in: bool,
    pub zoom_out: bool,
    pub move_forward: bool,
    pub move_backward: bool,
    pub move_left: bool,
    pub move_right: bool,
}

impl ControlFlags {
    pub open spec fn spec_released() -> Self {
        ControlFlags {
            zoom_in: false,
            zoom_out: false,
            move_forward: false,
            move_backward: false,
            move_left: false,
            move_right: false,
        }
    }

    /// The flags after `key` goes to `pressed`; unrecognised keys change nothing.
    pub open spec fn with_key(self, key: Key, pressed: bool) -> Self {
        match key {
            Key::ZoomIn => ControlFlags { zoom_in: pressed, ..self },
            Key::ZoomOut => ControlFlags { zoom_out: pressed, ..self },
            Key::Forward => ControlFlags { move_forward: pressed, ..self },
            Key::Backward => ControlFlags { move_backward: pressed, ..self },
            Key::Left => ControlFlags { move_left: pressed, ..self },
            Key::Right => ControlFlags { move_right: pressed, ..self },
            _ => self,
        }
    }

    /// No key held.
    pub fn released() -> (r: Self)
        ensures
            r == Self::spec_released(),
    {
        ControlFlags {
            zoom_in: false,
            zoom_out: false,
            move_forward: false,
            move_backward: false,
            move_left: false,
            move_right: false,
        }
    }

    /// Sets the flag of `key` to `pressed`.
    pub fn set_key(&mut self, key: Key, pressed: bool)
        ensures
            *final(self) == old(self).with_key(key, pressed),
    {
        match key {
            Key::ZoomIn => self.zoom_in = pressed,
            Key::ZoomOut => self.zoom_out = pressed,
            Key::Forward => self.move_forward = pressed,
            Key::Backward => self.move_backward = pressed,
            Key::Left => self.move_left = pressed,
            Key::Right => self.move_right = pressed,
            _ => {},
        }
    }
}

/// Window events the driver reacts to.
#[derive(Clone, Copy, Debug, PartialEq, Eq, Structural)]
pub enum WindowEvent {
    CloseRequested,
    RedrawRequested,
    Resized { width: u32, height: u32 },
    Moved,
    Focused(bool),
    MouseInput { button: Button, pressed: bool },
    Keyboard { key: Key, pressed: bool },
    Other,
}

/// What the event loop must carry out after an event.
#[derive(Clone, Copy, Debug, PartialEq, Eq, Structural)]
pub enum Action {
    Nothing,
    /// Stop the loop: no further redraws are requested.
    Exit,
    /// Zero the accumulated look deltas (the flags are already released).
    ResetLook,
    /// Confine and hide the cursor.
    Focus,
    /// Release and show the cursor.
    Unfocus,
    /// Forward the new size to the surface.
    Resize { width: u32, height: u32 },
    /// Update the camera from the controls, render, zero the look deltas and
    /// request the next redraw.
    Frame,
    /// Add a mouse-motion delta to the look accumulators.
    AccumulateLook,
}

/// Lifecycle phase of the driver.
#[derive(Clone, Copy, Debug, PartialEq, Eq, Structural)]
pub enum Phase {
    /// Before the device is set up: only initialisation is allowed.
    Initializing,
    Running,
    Closed,
}

/// The frame driver's decisions: phase, input focus and held keys.
#[derive(Clone, Copy, Debug, PartialEq, Eq, Structural)]
pub struct Driver {
    pub phase: Phase,
    pub focused: bool,
    pub controls: ControlFlags,
}

impl Driver {
    /// The state after `e`.
    pub open spec fn next(self, e: WindowEvent) -> Self {
        if self.phase != Phase::Running {
            self
        } else {
            match e {
                WindowEvent::CloseRequested => Driver { phase: Phase::Closed, ..self },
                WindowEvent::Moved => Driver { controls: ControlFlags::spec_released(), ..self },
                WindowEvent::Focused(f) => Driver { focused: f, ..self },
                WindowEvent::MouseInput { button: Button::Left, pressed: true } => Driver { focused: true, ..self },
                WindowEvent::Keyboard { key: Key::Escape, .. } => Driver { focused: false, ..self },
                WindowEvent::Keyboard { key, pressed } => Driver { controls: self.controls.with_key(key, pressed), ..self },
                _ => self,
            }
        }
    }

    /// What the event loop carries out for `e`.
    pub open spec fn action(self, e: WindowEvent) -> Action {
        if self.phase != Phase::Running {
            Action::Nothing
        } else {
            match e {
                WindowEvent::CloseRequested => Action::Exit,
                WindowEvent::RedrawRequested => Action::Frame,
                WindowEvent::Resized { width, height } => Action::Resize { width, height },
                WindowEvent::Moved => Action::ResetLook,
                WindowEvent::Focused(true) => Action::Focus,
                WindowEvent::Focused(false) => Action::Unfocus,
                WindowEvent::MouseInput { button: Button::Left, pressed: true } => Action::Focus,
                WindowEvent::Keyboard { key: Key::Escape, .. } => Action::Unfocus,
                _ => Action::Nothing,
            }
        }
    }

    pub fn new() -> (r: Self)
        ensures
            r.phase == Phase::Initializing,
            !r.focused,
            r.controls == ControlFlags::spec_released(),
    {
        Driver { phase: Phase::Initializing, focused: false, controls: ControlFlags::released() }
    }

    /// The device is ready: start running with released controls, unfocused.
    pub fn start(&mut self)
        requires
            old(self).phase == Phase::Initializing,
        ensures
            *final(self) == (Driver { phase: Phase::Running, focused: false, controls: ControlFlags::spec_released() }),
    {
        self.phase = Phase::Running;
        self.focused = false;
        self.controls = ControlFlags::released();
    }

    pub fn is_running(&self) -> (r: bool)
        ensures
            r == (self.phase == Phase::Running),
    {
        match self.phase {
            Phase::Running => true,
            _ => false,
        }
    }

    pub fn is_mouse_focused(&self) -> (r: bool)
        ensures
            r == self.focused,
    {
        self.focused
    }

    /// Handles a window event; events before the device is running, or after
    /// close was requested, are ignored.
    pub fn window_event(&mut self, e: WindowEvent) -> (r: Action)
        ensures
            r == old(self).action(e),
            *final(self) == old(self).next(e),
    {
        if !self.is_running() {
            return Action::Nothing;
        }
        match e {
            WindowEvent::CloseRequested => {
                self.phase = Phase::Closed;
                Action::Exit
            },
            WindowEvent::RedrawRequested => Action::Frame,
            WindowEvent::Resized { width, height } => Action::Resize { width, height },
            WindowEvent::Moved => {
                self.controls = ControlFlags::released();
                Action::ResetLook
            },
            WindowEvent::Focused(f) => {
                self.focused = f;
                if f {
                    Action::Focus
                } else {
                    Action::Unfocus
                }
            },
            WindowEvent::MouseInput { button: Button::Left, pressed: true } => {
                self.focused = true;
                Action::Focus
            },
            WindowEvent::Keyboard { key: Key::Escape, .. } => {
                self.focused = false;
                Action::Unfocus
            },
            WindowEvent::Keyboard { key, pressed } => {
                self.controls.set_key(key, pressed);
                Action::Nothing
            },
            _ => Action::Nothing,
        }
    }

    /// Handles a mouse-motion event: its delta counts only while running and focused.
    pub fn mouse_motion(&self) -> (r: Action)
        ensures
            r == (if self.phase == Phase::Running && self.focused { Action::AccumulateLook } else { Action::Nothing }),
    {
        if self.is_running() && self.focused {
            Action::AccumulateLook
        } else {
            Action::Nothing
        }
    }
}

/// A key pressed and then released within one frame leaves its flag released,
/// whatever it was before.
pub proof fn lemma_press_release_clears(d: Driver, key: Key)
    requires
        d.phase == Phase::Running,
        key != Key::Escape,
    ensures
        d.next(WindowEvent::Keyboard { key, pressed: true }).next(WindowEvent::Keyboard { key, pressed: false }).controls
            == d.controls.with_key(key, false),
{
}

} // verus!
