use std::sync::mpsc;

use midithru::device::ThruDevice;
use midithru::devicepicker::{self, DevicePicker, DeviceResult, Flags};
use midithru::message::MidiMessage;
use midithru::patch::Patch;
use midithru::patchsystem::{self, MouseButton, PatchSystem};

#[test]
fn non_empty_distinguishes_blank_selections() {
    assert_eq!(devicepicker::non_empty(String::new()), None);
    assert_eq!(devicepicker::non_empty("/dev/midi1".to_string()), Some("/dev/midi1".to_string()));
}

fn picker_with(midi: &[&str], patches: &[&str]) -> (DevicePicker, mpsc::Receiver<DeviceResult>) {
    let (tx, rx) = mpsc::channel();
    let flags = Flags {
        midi_options: midi.iter().map(|s| s.to_string()).collect(),
        patch_options: patches.iter().map(|s| s.to_string()).collect(),
        result_sender: tx,
    };
    (DevicePicker::new(flags), rx)
}

#[test]
fn picker_defaults_with_two_devices() {
    let (p, _rx) = picker_with(&["/dev/midi1", "/dev/midi2"], &["songs.json"]);
    assert_eq!(p.midi_in, "/dev/midi1");
    assert_eq!(p.midi_out, "/dev/midi2");
    assert_eq!(p.patch_file, "songs.json");
    assert_eq!(p.midi_in_options, vec!["", "/dev/midi1", "/dev/midi2"]);
    assert_eq!(p.midi_out_options, vec!["/dev/midi1", "/dev/midi2"]);
    assert_eq!(p.patch_options, vec!["", "songs.json"]);
    assert!(!p.exit);
}

#[test]
fn picker_defaults_with_one_device() {
    let (p, _rx) = picker_with(&["/dev/midi1"], &[]);
    assert_eq!(p.midi_in, "", "no input is preselected");
    assert_eq!(p.midi_out, "/dev/midi1");
    assert_eq!(p.patch_file, "");
}

#[test]
fn picker_updates_selections_and_size() {
    let (mut p, _rx) = picker_with(&["/dev/midi1", "/dev/midi2"], &[]);
    p.update(devicepicker::Message::MidiInChanged("".to_string()));
    assert_eq!(p.midi_in, "");
    p.update(devicepicker::Message::MidiOutChanged("/dev/midi1".to_string()));
    assert_eq!(p.midi_out, "/dev/midi1");
    p.update(devicepicker::Message::PatchFileChanged("other.json".to_string()));
    assert_eq!(p.patch_file, "other.json");
    p.update(devicepicker::Message::Resized(640, 480));
    assert_eq!((p.screen_width, p.screen_height), (640, 480));
    assert!(!p.exit);
}

#[test]
fn picker_start_reports_the_choice_and_exits() {
    let (mut p, rx) = picker_with(&["/dev/midi1", "/dev/midi2"], &["songs.json"]);
    p.update(devicepicker::Message::MidiInChanged("".to_string()));
    p.update(devicepicker::Message::Start);
    assert!(p.exit);
    let result = rx.try_recv().expect("the choice was reported");
    assert_eq!(result.midi_in, None, "a blank selection counts as absent");
    assert_eq!(result.midi_out, "/dev/midi2");
    assert_eq!(result.patch_file, Some("songs.json".to_string()));
}

#[test]
fn picker_quit_exits_without_reporting() {
    let (mut p, rx) = picker_with(&["/dev/midi1"], &[]);
    p.update(devicepicker::Message::Quit);
    assert!(p.exit);
    assert!(rx.try_recv().is_err(), "nothing was reported");
}

fn system_with_patches() -> (PatchSystem, mpsc::Receiver<MidiMessage>) {
    let (tx, rx) = mpsc::channel();
    let patches = vec![
        Patch {
            name: "a".to_string(),
            channel: Some(0),
            bank_msb: None,
            bank_lsb: None,
            program: Some(1),
        },
        Patch {
            name: "b".to_string(),
            channel: Some(0),
            bank_msb: None,
            bank_lsb: None,
            program: Some(2),
        },
    ];
    let device = ThruDevice::new(patches, tx);
    while rx.try_recv().is_ok() {}
    (PatchSystem::new(device), rx)
}

#[test]
fn buttons_navigate_the_device() {
    let (mut s, _rx) = system_with_patches();
    s.update(patchsystem::Message::NextPatch);
    assert_eq!(s.device.current_patch().unwrap().1.name, "b");
    s.update(patchsystem::Message::PreviousPatch);
    assert_eq!(s.device.current_patch().unwrap().1.name, "a");
    s.update(patchsystem::Message::ResetPatch);
    assert_eq!(s.device.current_patch().unwrap().0, 1);
}

#[test]
fn reset_button_resends_even_at_the_first_patch() {
    let (mut s, rx) = system_with_patches();
    s.update(patchsystem::Message::ResetPatch);
    assert_eq!(
        rx.try_recv().expect("the first patch was re-sent"),
        MidiMessage::ProgramChange { channel: 0, program: 1 }
    );
}

#[test]
fn click_steps_forward_and_backward() {
    let (mut s, _rx) = system_with_patches();
    s.update(patchsystem::Message::MousePressed);
    s.update(patchsystem::Message::MouseReleased(MouseButton::Left));
    assert_eq!(s.device.current_patch().unwrap().1.name, "b");
    s.update(patchsystem::Message::MousePressed);
    s.update(patchsystem::Message::MouseReleased(MouseButton::Right));
    assert_eq!(s.device.current_patch().unwrap().1.name, "a");
    assert!(!s.mouse_down);
}

#[test]
fn a_release_without_a_press_does_nothing() {
    let (mut s, _rx) = system_with_patches();
    s.update(patchsystem::Message::MouseReleased(MouseButton::Left));
    assert_eq!(s.device.current_patch().unwrap().1.name, "a");
}

#[test]
fn holding_the_mouse_toggles_the_menu() {
    let (mut s, _rx) = system_with_patches();
    s.update(patchsystem::Message::MousePressed);
    s.update(patchsystem::Message::MouseHeld);
    assert!(s.show_buttons, "the menu appears after a long press");
    assert!(!s.mouse_down);
    // a plain click while the menu shows only dismisses it
    s.update(patchsystem::Message::MousePressed);
    s.update(patchsystem::Message::MouseReleased(MouseButton::Left));
    assert!(!s.show_buttons);
    assert_eq!(s.device.current_patch().unwrap().1.name, "a", "no navigation happened");
}

#[test]
fn a_middle_click_opens_the_menu() {
    let (mut s, _rx) = system_with_patches();
    s.update(patchsystem::Message::MousePressed);
    s.update(patchsystem::Message::MouseReleased(MouseButton::Other));
    assert!(s.show_buttons);
}

#[test]
fn quit_and_resize_touch_only_the_screen_state() {
    let (mut s, _rx) = system_with_patches();
    s.update(patchsystem::Message::Resized(800, 600));
    assert_eq!((s.screen_width, s.screen_height), (800, 600));
    s.update(patchsystem::Message::QuitApplication);
    assert!(s.exit);
    assert_eq!(s.device.current_patch().unwrap().1.name, "a");
}
