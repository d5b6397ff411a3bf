use midithru::framer::{FeedOutcome, MessageFramer};
use midithru::message::MidiMessage;

#[test]
fn status_and_two_data_bytes_yield_one_message() {
    let mut f = MessageFramer::new();
    assert_eq!(f.feed(0x90), FeedOutcome::Incomplete);
    assert_eq!(f.feed(60), FeedOutcome::Incomplete);
    match f.feed(64) {
        FeedOutcome::Message(m) => assert_eq!(m.to_bytes(), vec![0x90, 60, 64]),
        other => panic!("expected a complete message, got {:?}", other),
    }
    // the residual buffer is empty: a new status byte starts a fresh message
    assert_eq!(f.feed(0x91), FeedOutcome::Incomplete);
}

#[test]
fn lone_data_byte_resynchronizes() {
    let mut f = MessageFramer::new();
    assert_eq!(f.feed(0x40), FeedOutcome::Invalid);
    // ready again: a complete message right after parses normally
    assert_eq!(f.feed(0xC5), FeedOutcome::Incomplete);
    match f.feed(7) {
        FeedOutcome::Message(m) => {
            assert_eq!(m, MidiMessage::ProgramChange { channel: 5, program: 7 });
            assert_eq!(m.to_bytes(), vec![0xC5, 7]);
        }
        other => panic!("expected a program change, got {:?}", other),
    }
}

#[test]
fn control_change_parses_typed() {
    let mut f = MessageFramer::new();
    assert_eq!(f.feed(0xB2), FeedOutcome::Incomplete);
    assert_eq!(f.feed(0), FeedOutcome::Incomplete);
    match f.feed(33) {
        FeedOutcome::Message(m) => {
            assert_eq!(m, MidiMessage::ControlChange { channel: 2, control: 0, value: 33 });
        }
        other => panic!("expected a control change, got {:?}", other),
    }
}

#[test]
fn note_on_is_an_opaque_frame() {
    let mut f = MessageFramer::new();
    f.feed(0x93);
    f.feed(72);
    match f.feed(100) {
        FeedOutcome::Message(m) => {
            assert_eq!(m, MidiMessage::Frame { bytes: vec![0x93, 72, 100] });
        }
        other => panic!("expected a frame, got {:?}", other),
    }
}

#[test]
fn sysex_collects_until_end_byte() {
    let mut f = MessageFramer::new();
    assert_eq!(f.feed(0xF0), FeedOutcome::Incomplete);
    assert_eq!(f.feed(1), FeedOutcome::Incomplete);
    assert_eq!(f.feed(2), FeedOutcome::Incomplete);
    assert_eq!(f.feed(3), FeedOutcome::Incomplete);
    match f.feed(0xF7) {
        FeedOutcome::Message(m) => {
            assert_eq!(m.to_bytes(), vec![0xF0, 1, 2, 3, 0xF7]);
        }
        other => panic!("expected the exclusive block, got {:?}", other),
    }
}

#[test]
fn status_byte_interrupting_sysex_resynchronizes() {
    let mut f = MessageFramer::new();
    f.feed(0xF0);
    f.feed(1);
    assert_eq!(f.feed(0x90), FeedOutcome::Invalid);
    // the interrupted block is gone; framing continues cleanly
    f.feed(0xC0);
    match f.feed(0) {
        FeedOutcome::Message(m) => {
            assert_eq!(m, MidiMessage::ProgramChange { channel: 0, program: 0 });
        }
        other => panic!("expected a program change, got {:?}", other),
    }
}

#[test]
fn status_byte_interrupting_fixed_message_resynchronizes() {
    let mut f = MessageFramer::new();
    f.feed(0x90);
    f.feed(60);
    // a new status byte before the third byte: no running status
    assert_eq!(f.feed(0x91), FeedOutcome::Invalid);
}

#[test]
fn real_time_message_is_one_byte() {
    let mut f = MessageFramer::new();
    match f.feed(0xF8) {
        FeedOutcome::Message(m) => assert_eq!(m.to_bytes(), vec![0xF8]),
        other => panic!("expected a real-time message, got {:?}", other),
    }
}

#[test]
fn undefined_statuses_are_invalid() {
    let mut f = MessageFramer::new();
    assert_eq!(f.feed(0xF4), FeedOutcome::Invalid);
    assert_eq!(f.feed(0xF5), FeedOutcome::Invalid);
    // a stray end-of-exclusive with no start
    assert_eq!(f.feed(0xF7), FeedOutcome::Invalid);
}

#[test]
fn two_byte_system_messages_complete() {
    let mut f = MessageFramer::new();
    f.feed(0xF1);
    match f.feed(0x12) {
        FeedOutcome::Message(m) => assert_eq!(m.to_bytes(), vec![0xF1, 0x12]),
        other => panic!("expected a quarter-frame message, got {:?}", other),
    }
    f.feed(0xF2);
    f.feed(0x01);
    match f.feed(0x02) {
        FeedOutcome::Message(m) => assert_eq!(m.to_bytes(), vec![0xF2, 0x01, 0x02]),
        other => panic!("expected a song-position message, got {:?}", other),
    }
}
