//! Front-end state machine for picking the MIDI devices and the patch list
//! before the relay starts.  Rendering and window plumbing live outside the
//! library: they hand events in as plain values and read the fields back.

use vstd::prelude::*;

verus! {

/// What the picker reports when the operator starts the relay.
pub struct DeviceResult {
    pub midi_in: Option<String>,
    pub midi_out: String,
    pub patch_file: Option<String>,
}

/// What the picker is constructed from: the options found on the machine,
/// and the sending half on which the operator's choice is reported.
pub struct Flags {
    pub midi_options: Vec<String>,
    pub patch_options: Vec<String>,
    pub result_sender: std::sync::mpsc::Sender<DeviceResult>,
}

/// Events the picker reacts to.
pub enum Message {
    /// Report the current choice and leave.
    Start,
    /// Leave without reporting a choice.
    Quit,
    PatchFileChanged(String),
    MidiInChanged(String),
    MidiOutChanged(String),
    /// The window was resized to this width and height.
    Resized(u32, u32),
}

/// The string when it holds anything, `None` when it is empty.
pub fn non_empty(s: String) -> (r: Option<String>)
    ensures
        match r {
            Some(t) => t == s && s@.len() > 0,
            None => s@.len() == 0,
        },
{
    if s.as_str().is_empty() {
        None
    } else {
        Some(s)
    }
}

/// Selection state for the two ports and the patch list; an empty string
/// stands for "nothing picked".
pub struct DevicePicker {
    pub midi_in_options: Vec<String>,
    pub midi_in: String,
    pub midi_out_options: Vec<String>,
    pub midi_out: String,
    pub patch_options: Vec<String>,
    pub patch_file: String,
    pub exit: bool,
    pub screen_width: u32,
    pub screen_height: u32,
    pub result_sender: std::sync::mpsc::Sender<DeviceResult>,
    pub last_error: String,
}

/// How handling `m` relates the picker before and after.
pub open spec fn picker_step(pre: DevicePicker, post: DevicePicker, m: Message) -> bool {
    match m {
        Message::Start => if pre.exit {
            post == pre
        } else {
            &&& post.midi_in_options == pre.midi_in_options
            &&& post.midi_in == pre.midi_in
            &&& post.midi_out_options == pre.midi_out_options
            &&& post.midi_out == pre.midi_out
            &&& post.patch_options == pre.patch_options
            &&& post.patch_file == pre.patch_file
            &&& post.screen_width == pre.screen_width
            &&& post.screen_height == pre.screen_height
            &&& post.result_sender == pre.result_sender
            &&& {
                ||| (post.exit && post.last_error == pre.last_error)
                ||| (!post.exit && post.last_error@ == "the relay is no longer listening"@)
            }
        },
        Message::Quit => post == (DevicePicker { exit: true, ..pre }),
        Message::PatchFileChanged(s) => post == (DevicePicker { patch_file: s, ..pre }),
        Message::MidiInChanged(s) => post == (DevicePicker { midi_in: s, ..pre }),
        Message::MidiOutChanged(s) => post == (DevicePicker { midi_out: s, ..pre }),
        Message::Resized(w, h) => post == (DevicePicker {
            screen_width: w,
            screen_height: h,
            ..pre
        }),
    }
}

impl DevicePicker {
    /// The choice as currently picked: empty selections count as absent.
    pub fn device_result(&self) -> (r: DeviceResult)
        ensures
            match r.midi_in {
                Some(t) => t == self.midi_in && self.midi_in@.len() > 0,
                None => self.midi_in@.len() == 0,
            },
            r.midi_out == self.midi_out,
            match r.patch_file {
                Some(t) => t == self.patch_file && self.patch_file@.len() > 0,
                None => self.patch_file@.len() == 0,
            },
    {
        DeviceResult {
            midi_in: non_empty(self.midi_in.clone()),
            midi_out: self.midi_out.clone(),
            patch_file: non_empty(self.patch_file.clone()),
        }
    }

    /// A picker over the options found on the machine.  With a single MIDI
    /// device it becomes the output and no input is preselected; with more,
    /// the first two become input and output.  The first patch list found
    /// is preselected.  Each option list is offered with an empty entry,
    /// standing for "none", in front.
    pub fn new(flags: Flags) -> (r: DevicePicker)
        requires
            flags.midi_options@.len() > 0,
        ensures
            flags.midi_options@.len() == 1 ==> r.midi_in@ == Seq::<char>::empty() && r.midi_out
                == flags.midi_options@[0],
            flags.midi_options@.len() >= 2 ==> r.midi_in == flags.midi_options@[0] && r.midi_out
                == flags.midi_options@[1],
            flags.patch_options@.len() == 0 ==> r.patch_file@ == Seq::<char>::empty(),
            flags.patch_options@.len() > 0 ==> r.patch_file == flags.patch_options@[0],
            r.midi_in_options@.len() == flags.midi_options@.len() + 1,
            r.midi_in_options@[0]@ == Seq::<char>::empty(),
            forall|i: int|
                0 <= i < flags.midi_options@.len() ==> r.midi_in_options@[i + 1]
                    == flags.midi_options@[i],
            r.midi_out_options@ == flags.midi_options@,
            r.patch_options@.len() == flags.patch_options@.len() + 1,
            r.patch_options@[0]@ == Seq::<char>::empty(),
            forall|i: int|
                0 <= i < flags.patch_options@.len() ==> r.patch_options@[i + 1]
                    == flags.patch_options@[i],
            !r.exit,
            r.screen_width == 100 && r.screen_height == 100,
            r.last_error@ == Seq::<char>::empty(),
            r.result_sender == flags.result_sender,
    {
        let (midi_in, midi_out) = if flags.midi_options.len() == 1 {
            (String::new(), flags.midi_options[0].clone())
        } else {
            (flags.midi_options[0].clone(), flags.midi_options[1].clone())
        };
        let patch_file = if flags.patch_options.len() == 0 {
            String::new()
        } else {
            flags.patch_options[0].clone()
        };
        let mut midi_in_options = clone_strings(&flags.midi_options);
        midi_in_options.insert(0, String::new());
        let mut patch_options = flags.patch_options;
        patch_options.insert(0, String::new());
        DevicePicker {
            midi_in_options,
            midi_out_options: flags.midi_options,
            patch_options,
            result_sender: flags.result_sender,
            midi_in,
            midi_out,
            patch_file,
            exit: false,
            screen_width: 100,
            screen_height: 100,
            last_error: String::new(),
        }
    }

    /// Handle one event.
    pub fn update(&mut self, message: Message)
        ensures
            picker_step(*old(self), *final(self), message),
    {
        match message {
            Message::Resized(width, height) => {
                self.screen_width = width;
                self.screen_height = height;
            },
            Message::Start => {
                if !self.exit {
                    let result = self.device_result();
                    match self.result_sender.send(result) {
                        Ok(_) => {
                            self.exit = true;
                        },
                        Err(_) => {
                            self.last_error = "the relay is no longer listening".to_owned();
                        },
                    }
                }
            },
            Message::Quit => {
                self.exit = true;
            },
            Message::MidiInChanged(midi_in) => {
                self.midi_in = midi_in;
            },
            Message::MidiOutChanged(midi_out) => {
                self.midi_out = midi_out;
            },
            Message::PatchFileChanged(patch_file) => {
                self.patch_file = patch_file;
            },
        }
    }
}

/// An equal copy of a list of names.
fn clone_strings(v: &Vec<String>) -> (r: Vec<String>)
    ensures
        r@ == v@,
{
    let mut r: Vec<String> = Vec::new();
    let mut i: usize = 0;
    while i < v.len()
        invariant
            0 <= i <= v@.len(),
            r@ == v@.take(i as int),
        decreases v@.len() - i,
    {
        r.push(v[i].clone());
        proof {
            assert(v@.take(i as int).push(v@[i as int]) =~= v@.take(i + 1 as int));
        }
        i = i + 1;
    }
    proof {
        assert(v@.take(v@.len() as int) =~= v@);
    }
    r
}

} // verus!
