use vstd::prelude::*;

verus! {

/// The keys the renderer reacts to; every other key is `Other`.
#[derive(Clone, Copy, Debug, PartialEq, Eq, Structural)]
pub enum KeyCode {
    KeyW,
    KeyA,
    KeyS,
    KeyD,
    ArrowUp,
    ArrowLeft,
    ArrowDown,
    ArrowRight,
    Space,
    Escape,
    Other,
}

/// Which movement keys of the orbiting camera are held down.
#[derive(Clone, Copy, Debug, PartialEq, Eq, Structural)]
pub struct CameraController {
    pub is_forward_pressed: bool,
    pub is_backward_pressed: bool,
    pub is_left_pressed: bool,
    pub is_right_pressed: bool,
}

impl CameraController {
    /// The controller after `code` was pressed (`is_pressed`) or released:
    /// W / up drive forward, S / down backward, A / left and D / right orbit,
    /// and any other key changes nothing.
    pub open spec fn with_key(self, code: KeyCode, is_pressed: bool) -> CameraController {
        match code {
            KeyCode::KeyW | KeyCode::ArrowUp => CameraController { is_forward_pressed: is_pressed, ..self },
            KeyCode::KeyA | KeyCode::ArrowLeft => CameraController { is_left_pressed: is_pressed, ..self },
            KeyCode::KeyS | KeyCode::ArrowDown => CameraController { is_backward_pressed: is_pressed, ..self },
            KeyCode::KeyD | KeyCode::ArrowRight => CameraController { is_right_pressed: is_pressed, ..self },
            _ => self,
        }
    }

    pub open spec fn new_spec() -> CameraController {
        CameraController {
            is_forward_pressed: false,
            is_backward_pressed: false,
            is_left_pressed: false,
            is_right_pressed: false,
        }
    }

    /// A controller with no key held.
    pub fn new() -> (r: CameraController)
        ensures
            r == CameraController::new_spec(),
    {
        CameraController {
            is_forward_pressed: false,
            is_backward_pressed: false,
            is_left_pressed: false,
            is_right_pressed: false,
        }
    }

    pub fn handle_key(&mut self, code: KeyCode, is_pressed: bool)
        ensures
            *final(self) == old(self).with_key(code, is_pressed),
    {
        match code {
            KeyCode::KeyW | KeyCode::ArrowUp => {
                self.is_forward_pressed = is_pressed;
            },
            KeyCode::KeyA | KeyCode::ArrowLeft => {
                self.is_left_pressed = is_pressed;
            },
            KeyCode::KeyS | KeyCode::ArrowDown => {
                self.is_backward_pressed = is_pressed;
            },
            KeyCode::KeyD | KeyCode::ArrowRight => {
                self.is_right_pressed = is_pressed;
            },
            _ => {},
        }
    }
}

} // verus!
