use std::sync::mpsc;

use midithru::message::MidiMessage;
use midithru::patch::Patch;

// Two producer handles of one channel: the messages drained by the single
// consumer carry each message whole, in the global enqueue order, so the
// written byte stream is the concatenation of the messages' bytes with no
// byte of one message inside another.
#[test]
fn two_producers_never_interleave_message_bytes() {
    let (tx, rx) = mpsc::channel::<MidiMessage>();
    let reader_handle = tx.clone();
    let navigation_handle = tx.clone();
    drop(tx);

    let thru = vec![
        MidiMessage::Frame { bytes: vec![0x90, 60, 100] },
        MidiMessage::Frame { bytes: vec![0xF0, 1, 2, 3, 0xF7] },
        MidiMessage::Frame { bytes: vec![0x80, 60, 0] },
    ];
    let switch = vec![
        MidiMessage::ControlChange { channel: 0, control: 0, value: 1 },
        MidiMessage::ControlChange { channel: 0, control: 32, value: 2 },
        MidiMessage::ProgramChange { channel: 0, program: 3 },
    ];

    // alternate enqueues between the two handles
    let mut expected: Vec<MidiMessage> = Vec::new();
    for (a, b) in thru.iter().zip(switch.iter()) {
        reader_handle.send(a.clone()).unwrap();
        expected.push(a.clone());
        navigation_handle.send(b.clone()).unwrap();
        expected.push(b.clone());
    }
    drop(reader_handle);
    drop(navigation_handle);

    // the writer's loop: dequeue, serialize whole, append
    let mut stream: Vec<u8> = Vec::new();
    let mut drained: Vec<MidiMessage> = Vec::new();
    for m in rx {
        stream.extend(m.to_bytes());
        drained.push(m);
    }

    assert_eq!(drained, expected, "global FIFO order across both producers");
    let mut concatenation: Vec<u8> = Vec::new();
    let mut offsets: Vec<(usize, usize)> = Vec::new();
    for m in &expected {
        let bytes = m.to_bytes();
        offsets.push((concatenation.len(), bytes.len()));
        concatenation.extend(bytes);
    }
    assert_eq!(stream, concatenation, "exactly the bytes of all messages");
    for (m, (start, len)) in expected.iter().zip(offsets) {
        assert_eq!(&stream[start..start + len], m.to_bytes().as_slice());
    }
}

// A patch switch issued between two passthrough frames queues behind the
// first and before the second: the atomic unit is one message.
#[test]
fn switch_messages_queue_between_whole_frames() {
    let (tx, rx) = mpsc::channel::<MidiMessage>();
    let reader_handle = tx.clone();

    reader_handle.send(MidiMessage::Frame { bytes: vec![0xF0, 9, 9, 0xF7] }).unwrap();
    let p = Patch {
        name: "lead".to_string(),
        channel: Some(1),
        bank_msb: Some(5),
        bank_lsb: None,
        program: Some(8),
    };
    assert!(p.send(&tx));
    reader_handle.send(MidiMessage::Frame { bytes: vec![0x90, 64, 90] }).unwrap();
    drop(tx);
    drop(reader_handle);

    let mut stream: Vec<u8> = Vec::new();
    for m in rx {
        stream.extend(m.to_bytes());
    }
    assert_eq!(
        stream,
        vec![0xF0, 9, 9, 0xF7, 0xB1, 0, 5, 0xC1, 8, 0x90, 64, 90],
        "sysex whole, then the switch sequence, then the note"
    );
}
