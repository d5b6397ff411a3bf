//! Front-end state machine for running the relay: patch navigation by
//! buttons or mouse clicks, with a hold-to-toggle button menu.  Rendering
//! and window plumbing live outside the library: they hand events in as
//! plain values and read the state back through the device's queries.

use vstd::prelude::*;

use crate::device::{ThruDevice, reset_always, stepped};

verus! {

/// A mouse button, as far as the state machine distinguishes them.
pub enum MouseButton {
    Left,
    Right,
    Other,
}

/// Events the patch screen reacts to.
pub enum Message {
    NextPatch,
    PreviousPatch,
    ResetPatch,
    QuitApplication,
    /// The mouse button was held long enough to toggle the button menu.
    MouseHeld,
    /// The window was resized to this width and height.
    Resized(u32, u32),
    MousePressed,
    MouseReleased(MouseButton),
}

/// The running relay's screen: the device plus presentation state.
pub struct PatchSystem {
    pub device: ThruDevice,
    pub screen_height: u32,
    pub screen_width: u32,
    pub show_buttons: bool,
    pub mouse_down: bool,
    pub exit: bool,
}

/// The presentation fields are unchanged.
pub open spec fn same_ui(pre: PatchSystem, post: PatchSystem) -> bool {
    &&& post.screen_height == pre.screen_height
    &&& post.screen_width == pre.screen_width
    &&& post.show_buttons == pre.show_buttons
    &&& post.mouse_down == pre.mouse_down
    &&& post.exit == pre.exit
}

/// The device is untouched.
pub open spec fn same_device(pre: PatchSystem, post: PatchSystem) -> bool {
    post.device == pre.device
}

/// How handling `m` relates the screen before and after.
pub open spec fn system_step(pre: PatchSystem, post: PatchSystem, m: Message) -> bool {
    match m {
        Message::NextPatch => same_ui(pre, post) && stepped(pre.device, post.device, 1),
        Message::PreviousPatch => same_ui(pre, post) && stepped(pre.device, post.device, -1),
        Message::ResetPatch => same_ui(pre, post) && reset_always(pre.device, post.device),
        Message::QuitApplication => same_device(pre, post) && post == (PatchSystem {
            device: post.device,
            exit: true,
            ..pre
        }),
        Message::MouseHeld => same_device(pre, post) && if pre.mouse_down {
            post == (PatchSystem {
                device: post.device,
                mouse_down: false,
                show_buttons: !pre.show_buttons,
                ..pre
            })
        } else {
            post == (PatchSystem { device: post.device, ..pre })
        },
        Message::Resized(w, h) => same_device(pre, post) && post == (PatchSystem {
            device: post.device,
            screen_width: w,
            screen_height: h,
            ..pre
        }),
        Message::MousePressed => same_device(pre, post) && post == (PatchSystem {
            device: post.device,
            mouse_down: true,
            ..pre
        }),
        Message::MouseReleased(b) => if !pre.mouse_down {
            same_device(pre, post) && post == (PatchSystem { device: post.device, ..pre })
        } else if pre.show_buttons {
            same_device(pre, post) && post == (PatchSystem {
                device: post.device,
                mouse_down: false,
                show_buttons: false,
                ..pre
            })
        } else {
            match b {
                MouseButton::Left => post == (PatchSystem {
                    device: post.device,
                    mouse_down: false,
                    ..pre
                }) && stepped(pre.device, post.device, 1),
                MouseButton::Right => post == (PatchSystem {
                    device: post.device,
                    mouse_down: false,
                    ..pre
                }) && stepped(pre.device, post.device, -1),
                MouseButton::Other => same_device(pre, post) && post == (PatchSystem {
                    device: post.device,
                    mouse_down: false,
                    show_buttons: true,
                    ..pre
                }),
            }
        },
    }
}

impl PatchSystem {
    /// The device's cursor lies inside its patch list.
    pub open spec fn wf(self) -> bool {
        self.device.wf()
    }

    /// A screen over a connected device.
    pub fn new(device: ThruDevice) -> (r: PatchSystem)
        ensures
            r.device == device,
            r.screen_height == 100,
            r.screen_width == 100,
            !r.show_buttons,
            !r.mouse_down,
            !r.exit,
    {
        PatchSystem {
            device,
            screen_height: 100,
            screen_width: 100,
            show_buttons: false,
            exit: false,
            mouse_down: false,
        }
    }

    /// Handle one event.
    pub fn update(&mut self, message: Message)
        requires
            old(self).wf(),
        ensures
            final(self).wf(),
            system_step(*old(self), *final(self), message),
    {
        match message {
            Message::NextPatch => {
                let _ = self.device.increment_patch(1);
            },
            Message::PreviousPatch => {
                let _ = self.device.increment_patch(-1);
            },
            Message::ResetPatch => {
                let _ = self.device.reset();
            },
            Message::QuitApplication => {
                self.exit = true;
            },
            Message::MouseHeld => {
                if self.mouse_down {
                    self.mouse_down = false;
                    self.show_buttons = !self.show_buttons;
                }
            },
            Message::Resized(width, height) => {
                self.screen_width = width;
                self.screen_height = height;
            },
            Message::MousePressed => {
                self.mouse_down = true;
            },
            Message::MouseReleased(button) => {
                if self.mouse_down {
                    self.mouse_down = false;
                    if self.show_buttons {
                        self.show_buttons = false;
                    } else {
                        match button {
                            MouseButton::Left => {
                                let _ = self.device.increment_patch(1);
                            },
                            MouseButton::Right => {
                                let _ = self.device.increment_patch(-1);
                            },
                            MouseButton::Other => {
                                self.show_buttons = true;
                            },
                        }
                    }
                }
            },
        }
    }
}

} // verus!
