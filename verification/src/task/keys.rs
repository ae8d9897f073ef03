//! Decoding of scancodes into keys, which `pc_keyboard` does, and what a
//! key press prints.

use super::executor::TaskWaker;
use super::keyboard::{BridgeView, EventBridge, ScancodeStream};
use super::Poll;
use pc_keyboard::layouts::Us104Key;
use pc_keyboard::{DecodedKey, Error, HandleControl, KeyCode, KeyEvent, Keyboard, ScancodeSet1};
use vstd::prelude::*;

verus! {

/// The decoder of `pc_keyboard` for scancode set 1 and the US layout,
/// with the state that it keeps between scancodes. Verus does not look
/// inside; what the decoder does is told over names, below.
#[verifier::external_body]
pub struct Us104Keyboard {
    keyboard: Keyboard<Us104Key, ScancodeSet1>,
}

/// The decoder together with the record of what it has been fed.
pub struct KeyDecoder {
    keyboard: Us104Keyboard,
    fed: Ghost<Seq<u8>>,
}

impl View for KeyDecoder {
    type V = Seq<u8>;

    /// The scancodes that the decoder has been fed, oldest first.
    closed spec fn view(&self) -> Seq<u8> {
        self.fed@
    }
}

/// `pc_keyboard::KeyEvent`, a key going down or up.
#[verifier::external_type_specification]
#[verifier::external_body]
pub struct ExKeyEvent(KeyEvent);

/// `pc_keyboard::Error`, a scancode that does not decode.
#[verifier::external_type_specification]
#[verifier::external_body]
pub struct ExError(Error);

/// `pc_keyboard::KeyCode`, the name of a key.
#[verifier::external_type_specification]
#[verifier::external_body]
pub struct ExKeyCode(KeyCode);

/// `pc_keyboard::DecodedKey`, a key press as the decoder gives it out.
#[verifier::external_type_specification]
#[verifier::external_body]
pub struct ExDecodedKey(DecodedKey);

/// A key press: a character, or a key that stands for none.
#[derive(Debug, Clone, Copy, PartialEq, Eq)]
pub enum Key {
    /// A key that has no character, by its name.
    RawKey(KeyCode),
    /// The character that the key press produces.
    Unicode(char),
}

/// The decoder after `Keyboard::add_byte` was called on it with `byte`.
pub uninterp spec fn after_byte(decoder: Us104Keyboard, byte: u8) -> Us104Keyboard;

/// What `Keyboard::add_byte` returns for `byte` on this decoder.
pub uninterp spec fn byte_event(decoder: Us104Keyboard, byte: u8) -> Result<
    Option<KeyEvent>,
    Error,
>;

/// The decoder after `Keyboard::process_keyevent` was called on it with
/// `event`.
pub uninterp spec fn after_event(decoder: Us104Keyboard, event: KeyEvent) -> Us104Keyboard;

/// What `Keyboard::process_keyevent` returns for `event` on this decoder.
pub uninterp spec fn event_key(decoder: Us104Keyboard, event: KeyEvent) -> Option<DecodedKey>;

/// The key press that a `DecodedKey` stands for.
pub uninterp spec fn plain_key(key: DecodedKey) -> Key;

/// `Keyboard::new` for scancode set 1 and the US layout, with the control
/// keys passed through as they are.
#[verifier::external_body]
pub(crate) fn new_keyboard() -> (decoder: Us104Keyboard) {
    Us104Keyboard { keyboard: Keyboard::new(ScancodeSet1::new(), Us104Key, HandleControl::Ignore) }
}

/// `Keyboard::add_byte`: feeds one scancode to the decoder. The answer and
/// the decoder afterwards depend on the decoder before and on the scancode,
/// and on nothing else.
#[verifier::external_body]
fn add_byte(decoder: &mut Us104Keyboard, byte: u8) -> (event: Result<Option<KeyEvent>, Error>)
    ensures
        *final(decoder) == after_byte(*old(decoder), byte),
        event == byte_event(*old(decoder), byte),
{
    decoder.keyboard.add_byte(byte)
}

/// `Keyboard::process_keyevent`: turns a key event into a key press, if it
/// is one. The answer and the decoder afterwards depend on the decoder
/// before, which holds the modifier keys, and on the event, and on nothing
/// else.
#[verifier::external_body]
fn process_keyevent(decoder: &mut Us104Keyboard, event: KeyEvent) -> (key: Option<DecodedKey>)
    ensures
        *final(decoder) == after_event(*old(decoder), event),
        key == event_key(*old(decoder), event),
{
    decoder.keyboard.process_keyevent(event)
}

/// Tells the two forms of a `DecodedKey` apart.
#[verifier::external_body]
fn decoded_key(key: DecodedKey) -> (plain: Key)
    ensures
        plain == plain_key(key),
{
    match key {
        DecodedKey::RawKey(code) => Key::RawKey(code),
        DecodedKey::Unicode(character) => Key::Unicode(character),
    }
}

/// The key event in the decoder's answer to a scancode: a scancode that
/// completes no event, or does not decode, gives none.
pub open spec fn completed(answer: Result<Option<KeyEvent>, Error>) -> Option<KeyEvent> {
    match answer {
        Ok(Some(event)) => Some(event),
        _ => None,
    }
}

/// The key press that `scancode` completes on this decoder, if it
/// completes one: the decoder is fed the scancode, and if that completes a
/// key event, the event is turned into a key press.
pub open spec fn key_of(decoder: Us104Keyboard, scancode: u8) -> Option<Key> {
    match completed(byte_event(decoder, scancode)) {
        Some(event) => match event_key(after_byte(decoder, scancode), event) {
            Some(key) => Some(plain_key(key)),
            None => None,
        },
        None => None,
    }
}

/// The decoder after it has decoded `scancode`.
pub open spec fn decoder_after(decoder: Us104Keyboard, scancode: u8) -> Us104Keyboard {
    match completed(byte_event(decoder, scancode)) {
        Some(event) => after_event(after_byte(decoder, scancode), event),
        None => after_byte(decoder, scancode),
    }
}

/// The decoder after it has decoded `scancodes`, one after the other.
pub open spec fn decoder_after_all(decoder: Us104Keyboard, scancodes: Seq<u8>) -> Us104Keyboard
    decreases scancodes.len(),
{
    if scancodes.len() == 0 {
        decoder
    } else {
        decoder_after(decoder_after_all(decoder, scancodes.drop_last()), scancodes.last())
    }
}

/// The key presses that `scancodes` complete on this decoder, in order.
pub open spec fn keys_of(decoder: Us104Keyboard, scancodes: Seq<u8>) -> Seq<Key>
    decreases scancodes.len(),
{
    if scancodes.len() == 0 {
        Seq::empty()
    } else {
        let before = keys_of(decoder, scancodes.drop_last());
        match key_of(decoder_after_all(decoder, scancodes.drop_last()), scancodes.last()) {
            Some(key) => before.push(key),
            None => before,
        }
    }
}

/// Decoding goes scancode by scancode: to decode two runs of scancodes one
/// after the other is to decode them as one run.
pub proof fn lemma_decode_in_parts(decoder: Us104Keyboard, first: Seq<u8>, second: Seq<u8>)
    ensures
        decoder_after_all(decoder, first + second) == decoder_after_all(
            decoder_after_all(decoder, first),
            second,
        ),
        keys_of(decoder, first + second) == keys_of(decoder, first) + keys_of(
            decoder_after_all(decoder, first),
            second,
        ),
    decreases second.len(),
{
    if second.len() == 0 {
        assert(first + second =~= first);
        assert(keys_of(decoder, first) + Seq::<Key>::empty() =~= keys_of(decoder, first));
    } else {
        lemma_decode_in_parts(decoder, first, second.drop_last());
        assert((first + second).drop_last() =~= first + second.drop_last());
        assert((first + second).last() == second.last());
        let middle = decoder_after_all(decoder, first);
        let before = keys_of(middle, second.drop_last());
        match key_of(decoder_after_all(middle, second.drop_last()), second.last()) {
            Some(key) => {
                assert((keys_of(decoder, first) + before).push(key) =~= keys_of(decoder, first)
                    + before.push(key));
            },
            None => {},
        }
    }
}

/// The key event in the decoder's answer to a scancode: a scancode that
/// completes no event, or does not decode, gives none.
pub fn completed_event(answer: Result<Option<KeyEvent>, Error>) -> (event: Option<KeyEvent>)
    ensures
        event == completed(answer),
{
    match answer {
        Ok(Some(completed)) => Some(completed),
        _ => None,
    }
}

impl KeyDecoder {
    /// The decoder of `pc_keyboard` in the state that it is in.
    pub closed spec fn decoder(&self) -> Us104Keyboard {
        self.keyboard
    }

    /// A decoder that has been fed no scancode.
    pub fn new() -> (decoder: KeyDecoder)
        ensures
            decoder@ == Seq::<u8>::empty(),
    {
        KeyDecoder { keyboard: new_keyboard(), fed: Ghost(Seq::empty()) }
    }

    /// Feeds one scancode to the decoder, which has then been fed one
    /// scancode more. A scancode that completes a key press gives that
    /// key; every other scancode only moves the decoder on. Which it is,
    /// and which key, the decoder of `pc_keyboard` says.
    pub fn decode(&mut self, scancode: u8) -> (key: Option<Key>)
        ensures
            final(self)@ == old(self)@.push(scancode),
            key == key_of(old(self).decoder(), scancode),
            final(self).decoder() == decoder_after(old(self).decoder(), scancode),
    {
        self.fed = Ghost(self.fed@.push(scancode));
        match completed_event(add_byte(&mut self.keyboard, scancode)) {
            Some(event) => match process_keyevent(&mut self.keyboard, event) {
                Some(key) => Some(decoded_key(key)),
                None => None,
            },
            None => None,
        }
    }
}

/// The keys that are pressed, one after the other: the scancode stream
/// seen through the decoder.
pub struct Keypresses {
    scancodes: ScancodeStream,
    keyboard: KeyDecoder,
}

impl Keypresses {
    /// The scancodes that have been taken from the stream and fed to the
    /// decoder, oldest first.
    pub closed spec fn decoded(&self) -> Seq<u8> {
        self.keyboard@
    }

    /// The decoder of `pc_keyboard` in the state that it is in.
    pub closed spec fn decoder(&self) -> Us104Keyboard {
        self.keyboard.decoder()
    }

    /// Opens the scancode stream, which initializes the bridge, and pairs
    /// it with a new decoder. On a bridge that is initialized it is the
    /// caller's error.
    pub fn new(keyboard: &mut EventBridge) -> (keys: Keypresses)
        requires
            !old(keyboard)@.initialized(),
        ensures
            final(keyboard)@ == old(keyboard)@.init(),
            keys.decoded() == Seq::<u8>::empty(),
    {
        Keypresses { scancodes: ScancodeStream::new(keyboard), keyboard: KeyDecoder::new() }
    }

    /// Whether `taken` is how many of the scancodes `unread` a request for
    /// the next key press takes from a decoder in this state, and `next`
    /// what it returns. The request takes scancode after scancode and stops
    /// at the first that completes a key press, which it returns; if none
    /// does, it takes them all and suspends.
    pub open spec fn takes(
        decoder: Us104Keyboard,
        unread: Seq<u8>,
        taken: int,
        next: Poll<Key>,
    ) -> bool {
        match next {
            Poll::Ready(key) => {
                &&& 0 < taken <= unread.len()
                &&& keys_of(decoder, unread.take(taken - 1)) == Seq::<Key>::empty()
                &&& key_of(decoder_after_all(decoder, unread.take(taken - 1)), unread[taken - 1])
                    == Some(key)
            },
            Poll::Pending => {
                &&& taken == unread.len()
                &&& keys_of(decoder, unread) == Seq::<Key>::empty()
            },
        }
    }

    /// Asks for the next key press on behalf of the task that `waker`
    /// resumes. Unread scancodes are taken in order and fed to the decoder
    /// until one completes a key press, which is returned; the scancodes
    /// behind it stay unread. When the scancodes run out first, all of
    /// them have been fed to the decoder, and the consumer is registered
    /// and suspends.
    pub fn poll_next(&mut self, keyboard: &mut EventBridge, waker: &TaskWaker) -> (next: Poll<Key>)
        requires
            old(keyboard)@.initialized(),
        ensures
            final(keyboard)@.initialized(),
            final(keyboard)@.waker == (if next is Pending {
                Some(*waker)
            } else {
                old(keyboard)@.waker
            }),
            exists|taken: int|
                {
                    &&& #[trigger] Keypresses::takes(
                        old(self).decoder(),
                        old(keyboard)@.queue.unwrap(),
                        taken,
                        next,
                    )
                    &&& final(keyboard)@.queue.unwrap() == old(keyboard)@.queue.unwrap().skip(taken)
                    &&& final(self).decoded() == old(self).decoded() + old(keyboard)@.queue.unwrap().take(taken)
                    &&& final(self).decoder() == decoder_after_all(
                        old(self).decoder(),
                        old(keyboard)@.queue.unwrap().take(taken),
                    )
                },
    {
        let ghost unread = keyboard@.queue.unwrap();
        let ghost start = self.decoder();
        let ghost mut taken: int = 0;
        proof {
            assert(unread.skip(0) =~= unread);
            assert(self.decoded() + unread.take(0) =~= self.decoded());
            assert(unread.take(0) =~= Seq::<u8>::empty());
        }
        loop
            invariant
                keyboard@.initialized(),
                0 <= taken <= unread.len(),
                keyboard@.queue.unwrap() == unread.skip(taken),
                keyboard@.waker == old(keyboard)@.waker,
                unread == old(keyboard)@.queue.unwrap(),
                start == old(self).decoder(),
                self.decoded() == old(self).decoded() + unread.take(taken),
                self.decoder() == decoder_after_all(start, unread.take(taken)),
                keys_of(start, unread.take(taken)) == Seq::<Key>::empty(),
            decreases unread.len() - taken,
        {
            match self.scancodes.poll_next(keyboard, waker) {
                Poll::Ready(Some(scancode)) => {
                    proof {
                        assert(unread.skip(taken).drop_first() =~= unread.skip(taken + 1));
                        assert((old(self).decoded() + unread.take(taken)).push(scancode)
                            =~= old(self).decoded() + unread.take(taken + 1));
                        assert(unread.take(taken + 1).drop_last() =~= unread.take(taken));
                        assert(unread.take(taken + 1).last() == scancode);
                        taken = taken + 1;
                    }
                    match self.keyboard.decode(scancode) {
                        Some(key) => {
                            proof {
                                assert(Keypresses::takes(start, unread, taken, Poll::Ready(key)));
                            }
                            return Poll::Ready(key);
                        },
                        None => {},
                    }
                },
                _ => {
                    proof {
                        assert(unread.take(taken) =~= unread);
                        assert(Keypresses::takes(start, unread, taken, Poll::Pending));
                    }
                    return Poll::Pending;
                },
            }
        }
    }
}

/// One advance of the task that prints the keys that are pressed. Every
/// unread scancode is taken and decoded, and the key presses that they
/// complete are appended to `printed`, all of them and in that order, for
/// the caller to show. The task never finishes: with the scancodes used up
/// it is registered and suspends.
pub fn print_keypresses(
    keys: &mut Keypresses,
    keyboard: &mut EventBridge,
    waker: &TaskWaker,
    printed: &mut Vec<Key>,
) -> (outcome: Poll<()>)
    requires
        old(keyboard)@.initialized(),
    ensures
        outcome is Pending,
        final(keyboard)@ == (BridgeView { queue: Some(Seq::empty()), waker: Some(*waker) }),
        final(printed)@ == old(printed)@ + keys_of(
            old(keys).decoder(),
            old(keyboard)@.queue.unwrap(),
        ),
        final(keys).decoder() == decoder_after_all(
            old(keys).decoder(),
            old(keyboard)@.queue.unwrap(),
        ),
        final(keys).decoded() == old(keys).decoded() + old(keyboard)@.queue.unwrap(),
{
    let ghost unread = keyboard@.queue.unwrap();
    let ghost start = keys.decoder();
    let ghost mut done: int = 0;
    proof {
        assert(unread.take(0) =~= Seq::<u8>::empty());
        assert(unread.skip(0) =~= unread);
        assert(printed@ + Seq::<Key>::empty() =~= printed@);
        assert(keys.decoded() + unread.take(0) =~= keys.decoded());
    }
    loop
        invariant
            keyboard@.initialized(),
            unread == old(keyboard)@.queue.unwrap(),
            start == old(keys).decoder(),
            0 <= done <= unread.len(),
            keyboard@.queue.unwrap() == unread.skip(done),
            keys.decoder() == decoder_after_all(start, unread.take(done)),
            keys.decoded() == old(keys).decoded() + unread.take(done),
            printed@ == old(printed)@ + keys_of(start, unread.take(done)),
        decreases unread.len() - done,
    {
        let ghost middle = keys.decoder();
        let ghost left = keyboard@.queue.unwrap();
        let ghost fed = keys.decoded();
        let next: Poll<Key> = keys.poll_next(keyboard, waker);
        proof {
            let taken = choose|taken: int|
                {
                    &&& #[trigger] Keypresses::takes(middle, left, taken, next)
                    &&& keyboard@.queue.unwrap() == left.skip(taken)
                    &&& keys.decoded() == fed + left.take(taken)
                    &&& keys.decoder() == decoder_after_all(middle, left.take(taken))
                };
            lemma_decode_in_parts(start, unread.take(done), left.take(taken));
            assert(unread.take(done) + left.take(taken) =~= unread.take(done + taken));
            assert(unread.skip(done).skip(taken) =~= unread.skip(done + taken));
            assert(old(keys).decoded() + unread.take(done) + left.take(taken) =~= old(keys).decoded() + unread.take(done + taken));
            match next {
                Poll::Ready(key) => {
                    assert(left.take(taken).drop_last() =~= left.take(taken - 1));
                    assert(left.take(taken).last() == left[taken - 1]);
                    assert(keys_of(middle, left.take(taken)) =~= seq![key]);
                    assert(old(printed)@ + keys_of(start, unread.take(done)) + seq![key] =~= (
                    old(printed)@ + keys_of(start, unread.take(done))).push(key));
                },
                Poll::Pending => {
                    assert(left.take(taken) =~= left);
                    assert(unread.take(done + taken) =~= unread);
                    assert(unread.skip(done + taken) =~= Seq::<u8>::empty());
                    assert(keys_of(start, unread.take(done)) + Seq::<Key>::empty() =~= keys_of(
                        start,
                        unread.take(done),
                    ));
                },
            }
            done = done + taken;
        }
        match next {
            Poll::Ready(key) => {
                printed.push(key);
            },
            Poll::Pending => {
                return Poll::Pending;
            },
        }
    }
}

} // verus!
