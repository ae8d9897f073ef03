use pc_keyboard::{DecodedKey, KeyCode, KeyEvent, KeyState};
use rinuxcore::task::executor::{Executor, TaskWaker};
use rinuxcore::task::keyboard::{add_scancode, EventBridge, ScancodeOutcome};
use rinuxcore::task::keys::{completed_event, print_keypresses, Key, KeyDecoder, Keypresses};
use rinuxcore::task::{Poll, TaskId, TaskIdCounter};

#[test]
fn scancode_of_key_a_decodes_to_the_letter() {
    let mut decoder = KeyDecoder::new();
    assert_eq!(decoder.decode(0x1E), Some(Key::Unicode('a')));
}

#[test]
fn key_release_gives_no_key() {
    let mut decoder = KeyDecoder::new();
    assert_eq!(decoder.decode(0x1E), Some(Key::Unicode('a')));
    assert_eq!(decoder.decode(0x9E), None);
}

#[test]
fn shift_is_a_raw_key_and_changes_what_follows() {
    let mut decoder = KeyDecoder::new();
    assert_eq!(decoder.decode(0x2A), Some(Key::RawKey(KeyCode::LShift)));
    assert_eq!(decoder.decode(0x1E), Some(Key::Unicode('A')));
    assert_eq!(decoder.decode(0xAA), None);
    assert_eq!(decoder.decode(0x1E), Some(Key::Unicode('a')));
}

#[test]
fn extended_prefix_completes_no_event() {
    let mut decoder = KeyDecoder::new();
    assert_eq!(decoder.decode(0xE0), None);
    assert_eq!(decoder.decode(0x48), Some(Key::RawKey(KeyCode::ArrowUp)));
}

#[test]
fn completed_event_keeps_only_a_finished_event() {
    let event = KeyEvent::new(KeyCode::A, KeyState::Down);
    assert_eq!(completed_event(Ok(Some(event.clone()))), Some(event));
    assert_eq!(completed_event(Ok(None)), None);
    assert_eq!(completed_event(Err(pc_keyboard::Error::UnknownKeyCode)), None);
}

#[test]
fn decoded_key_matches_the_decoder_of_the_crate() {
    let mut decoder = KeyDecoder::new();
    let mut reference = pc_keyboard::Keyboard::new(
        pc_keyboard::ScancodeSet1::new(),
        pc_keyboard::layouts::Us104Key,
        pc_keyboard::HandleControl::Ignore,
    );
    for scancode in [0x10u8, 0x90, 0x1D, 0x2E, 0xAE, 0x9D, 0x39, 0x02] {
        let expected = match reference.add_byte(scancode) {
            Ok(Some(event)) => match reference.process_keyevent(event) {
                Some(DecodedKey::Unicode(character)) => Some(Key::Unicode(character)),
                Some(DecodedKey::RawKey(code)) => Some(Key::RawKey(code)),
                None => None,
            },
            _ => None,
        };
        assert_eq!(decoder.decode(scancode), expected);
    }
}

#[test]
fn keypresses_skip_scancodes_that_complete_no_key() {
    let mut ids = TaskIdCounter::new();
    let mut keyboard = EventBridge::new();
    let mut executor = Executor::new();
    let consumer = TaskWaker::new(TaskId::new(&mut ids));
    let mut keys = Keypresses::new(&mut keyboard);
    assert!(keyboard.is_initialized());
    for scancode in [0x9Eu8, 0x1E, 0x9E, 0x30] {
        assert_eq!(add_scancode(scancode, &mut keyboard, &mut executor), ScancodeOutcome::Delivered);
    }
    assert_eq!(keys.poll_next(&mut keyboard, &consumer), Poll::Ready(Key::Unicode('a')));
    assert_eq!(keyboard.unread(), 2);
    assert_eq!(keyboard.waiting(), None);
    assert_eq!(keys.poll_next(&mut keyboard, &consumer), Poll::Ready(Key::Unicode('b')));
    assert_eq!(keyboard.unread(), 0);
    assert_eq!(keys.poll_next(&mut keyboard, &consumer), Poll::Pending);
    assert_eq!(keyboard.waiting(), Some(consumer));
}

#[test]
fn keypresses_suspend_when_the_scancodes_run_out() {
    let mut ids = TaskIdCounter::new();
    let mut keyboard = EventBridge::new();
    let mut executor = Executor::new();
    let consumer = TaskWaker::new(TaskId::new(&mut ids));
    let mut keys = Keypresses::new(&mut keyboard);
    assert_eq!(add_scancode(0x9E, &mut keyboard, &mut executor), ScancodeOutcome::Delivered);
    assert_eq!(keys.poll_next(&mut keyboard, &consumer), Poll::Pending);
    assert_eq!(keyboard.unread(), 0);
    assert_eq!(keyboard.waiting(), Some(consumer));
    assert_eq!(add_scancode(0x1E, &mut keyboard, &mut executor), ScancodeOutcome::Delivered);
    assert_eq!(executor.queue_len(), 1);
    assert_eq!(keys.poll_next(&mut keyboard, &consumer), Poll::Ready(Key::Unicode('a')));
}

#[test]
fn print_keypresses_gives_every_key_in_order_and_suspends() {
    let mut ids = TaskIdCounter::new();
    let mut keyboard = EventBridge::new();
    let mut executor = Executor::new();
    let consumer = TaskWaker::new(TaskId::new(&mut ids));
    let mut keys = Keypresses::new(&mut keyboard);
    for scancode in [0x23u8, 0xA3, 0x17, 0x97, 0x2A] {
        assert_eq!(add_scancode(scancode, &mut keyboard, &mut executor), ScancodeOutcome::Delivered);
    }
    let mut printed = vec![Key::Unicode('>')];
    let outcome = print_keypresses(&mut keys, &mut keyboard, &consumer, &mut printed);
    assert_eq!(outcome, Poll::Pending);
    assert_eq!(
        printed,
        vec![
            Key::Unicode('>'),
            Key::Unicode('h'),
            Key::Unicode('i'),
            Key::RawKey(KeyCode::LShift)
        ]
    );
    assert_eq!(keyboard.unread(), 0);
    assert_eq!(keyboard.waiting(), Some(consumer));
}

#[test]
fn print_keypresses_with_nothing_unread_only_registers() {
    let mut ids = TaskIdCounter::new();
    let mut keyboard = EventBridge::new();
    let consumer = TaskWaker::new(TaskId::new(&mut ids));
    let mut keys = Keypresses::new(&mut keyboard);
    let mut printed = Vec::new();
    assert_eq!(print_keypresses(&mut keys, &mut keyboard, &consumer, &mut printed), Poll::Pending);
    assert!(printed.is_empty());
    assert_eq!(keyboard.waiting(), Some(consumer));
}
