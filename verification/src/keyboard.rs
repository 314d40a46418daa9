//! The decoding step of the keyboard interrupt handler.
//!
//! The interrupt service routine itself (reading the scancode port,
//! acknowledging the interrupt controller) is hardware plumbing and lives
//! outside this library; what it hands over is the raw scancode byte. This
//! module owns the process-wide decoder state and turns one byte at a time
//! into at most one decoded key, through the `pc_keyboard` crate. Decoding
//! is a deterministic function of the byte sequence fed so far, which is
//! what the contracts here state.

use vstd::prelude::*;

use crate::events::EventQueue;

verus! {

/// Relies on pc_keyboard::ScancodeSet1: the IBM XT scancode state machine.
#[verifier::external_type_specification]
#[verifier::external_body]
pub struct ExScancodeSet1(pc_keyboard::ScancodeSet1);

/// Relies on pc_keyboard::KeyEvent: a key-up/key-down event.
#[verifier::external_type_specification]
#[verifier::external_body]
pub struct ExKeyEvent(pc_keyboard::KeyEvent);

/// Relies on pc_keyboard::Error: a scancode-stream decode error.
#[verifier::external_type_specification]
#[verifier::external_body]
pub struct ExError(pc_keyboard::Error);

/// The process-wide keyboard decoder state, guarded by the caller for the
/// duration of one decode step (an interrupt handler must hold its lock only
/// while decoding a single event, never across a call that could block).
///
/// Relies on pc_keyboard::PS2Keyboard, held opaquely: the type's bounds name
/// traits of the outside crate, so the struct hides the field and the
/// functions below carry the contracts.
#[verifier::external_body]
pub struct KeyboardDecoder {
    kb: pc_keyboard::PS2Keyboard<pc_keyboard::layouts::Us104Key, pc_keyboard::ScancodeSet1>,
}

/// The scancode bytes a `ScancodeSet1` state machine has consumed.
pub uninterp spec fn set_bytes(s: pc_keyboard::ScancodeSet1) -> Seq<u8>;

/// The scancode bytes a decoder has consumed through the handler protocol:
/// every byte is fed with `add_byte`, and every event that `add_byte`
/// completes is handed to `process_keyevent` exactly once before the next
/// byte. [`KeyboardDecoder::decode`] is the only caller of the two and
/// follows that protocol.
pub uninterp spec fn kb_bytes(d: KeyboardDecoder) -> Seq<u8>;

/// What `add_byte` returns once the decoder has consumed the byte sequence
/// `bytes`: the scancode state machine is deterministic, so the outcome is a
/// function of the bytes alone.
pub uninterp spec fn step_of(bytes: Seq<u8>) -> Result<Option<pc_keyboard::KeyEvent>, pc_keyboard::Error>;

/// The key that `process_keyevent` decodes for the event `ev` on a decoder
/// that has consumed `bytes`: the layout mapping and the modifier bookkeeping
/// are deterministic, so the outcome is a function of the two alone.
pub uninterp spec fn key_for(bytes: Seq<u8>, ev: pc_keyboard::KeyEvent) -> Option<Key>;

/// A decoded key: either a printable Unicode character or the raw code of a
/// key with no Unicode equivalent.
#[derive(Clone, Copy, Debug, PartialEq, Eq)]
pub enum Key {
    /// A Unicode character, e.g. from a letter or digit key.
    Unicode(char),
    /// The numeric code of a non-printable key.
    Raw(u32),
}

/// Relies on pc_keyboard::ScancodeSet1::new: a state machine that has
/// consumed nothing.
#[verifier::external_body]
fn new_scancode_set1() -> (s: pc_keyboard::ScancodeSet1)
    ensures
        set_bytes(s) == Seq::<u8>::empty(),
{
    pc_keyboard::ScancodeSet1::new()
}

/// Relies on pc_keyboard::PS2Keyboard::new: a decoder in its initial
/// modifier state that has consumed exactly what its scancode state machine
/// has.
#[verifier::external_body]
fn decoder_from_set(s: pc_keyboard::ScancodeSet1) -> (d: KeyboardDecoder)
    ensures
        kb_bytes(d) == set_bytes(s),
{
    KeyboardDecoder {
        kb: pc_keyboard::PS2Keyboard::new(
            s,
            pc_keyboard::layouts::Us104Key,
            pc_keyboard::HandleControl::Ignore,
        ),
    }
}

/// Relies on pc_keyboard::PS2Keyboard::add_byte: consumes one scancode byte
/// and reports whether it completed a key event; deterministic in the bytes
/// consumed so far.
#[verifier::external_body]
fn kb_add_byte(
    d: &mut KeyboardDecoder,
    byte: u8,
) -> (r: Result<Option<pc_keyboard::KeyEvent>, pc_keyboard::Error>)
    ensures
        kb_bytes(*final(d)) == kb_bytes(*old(d)).push(byte),
        r == step_of(kb_bytes(*old(d)).push(byte)),
{
    d.kb.add_byte(byte)
}

/// Relies on pc_keyboard::PS2Keyboard::process_keyevent: maps a completed
/// key event to a decoded key under the current modifiers; consumes no
/// bytes, and is deterministic in the bytes consumed and the event.
#[verifier::external_body]
fn kb_process_keyevent(d: &mut KeyboardDecoder, ev: pc_keyboard::KeyEvent) -> (r: Option<Key>)
    ensures
        kb_bytes(*final(d)) == kb_bytes(*old(d)),
        r == key_for(kb_bytes(*old(d)), ev),
{
    match d.kb.process_keyevent(ev) {
        Some(pc_keyboard::DecodedKey::Unicode(c)) => Some(Key::Unicode(c)),
        Some(pc_keyboard::DecodedKey::RawKey(code)) => Some(Key::Raw(code as u32)),
        None => None,
    }
}

/// The key decoded when the last byte of `bytes` is fed to a decoder that
/// consumed the rest before it: none when the byte did not complete an event
/// (a partial multi-byte sequence, or a malformed byte — by design neither
/// is an error, the handler just waits for the next byte).
pub open spec fn decode_spec(bytes: Seq<u8>) -> Option<Key> {
    match step_of(bytes) {
        Ok(Some(ev)) => key_for(bytes, ev),
        _ => None,
    }
}

/// Every key decoded while consuming `bytes` byte by byte, in order.
pub open spec fn decoded_seq(bytes: Seq<u8>) -> Seq<Key>
    decreases bytes.len(),
{
    if bytes.len() == 0 {
        Seq::empty()
    } else {
        decoded_seq(bytes.drop_last()) + match decode_spec(bytes) {
            Some(k) => seq![k],
            None => Seq::empty(),
        }
    }
}

impl View for KeyboardDecoder {
    type V = Seq<u8>;

    /// A decoder is modeled by the scancode bytes it has consumed.
    closed spec fn view(&self) -> Seq<u8> {
        kb_bytes(*self)
    }
}

impl KeyboardDecoder {
    /// A fresh decoder that has consumed nothing.
    pub fn new() -> (d: KeyboardDecoder)
        ensures
            d@ == Seq::<u8>::empty(),
    {
        let s = new_scancode_set1();
        decoder_from_set(s)
    }

    /// Consumes one scancode byte; returns the key it completes, if any.
    /// A byte that completes nothing — or is malformed — yields `None`, not
    /// an error: the handler exits and waits for the next byte.
    pub fn decode(&mut self, byte: u8) -> (r: Option<Key>)
        ensures
            final(self)@ == old(self)@.push(byte),
            r == decode_spec(old(self)@.push(byte)),
    {
        match kb_add_byte(self, byte) {
            Ok(Some(ev)) => kb_process_keyevent(self, ev),
            _ => None,
        }
    }

    /// Decodes a whole byte sequence on a fresh decoder, collecting every
    /// completed key in order.
    pub fn decode_bytes(bytes: &Vec<u8>) -> (keys: Vec<Key>)
        ensures
            keys@ == decoded_seq(bytes@),
    {
        let mut d = KeyboardDecoder::new();
        let mut keys: Vec<Key> = Vec::new();
        let mut i: usize = 0;
        while i < bytes.len()
            invariant
                i <= bytes.len(),
                d@ == bytes@.subrange(0, i as int),
                keys@ == decoded_seq(bytes@.subrange(0, i as int)),
            decreases bytes.len() - i,
        {
            let ghost prefix = bytes@.subrange(0, i as int);
            let b: u8 = bytes[i];
            let r = d.decode(b);
            proof {
                assert(prefix.push(b) =~= bytes@.subrange(0, i + 1));
                assert(bytes@.subrange(0, i + 1).drop_last() =~= prefix);
            }
            match r {
                Some(k) => keys.push(k),
                None => {},
            }
            proof {
                assert(keys@ =~= decoded_seq(bytes@.subrange(0, i + 1)));
            }
            i = i + 1;
        }
        proof {
            assert(bytes@.subrange(0, bytes@.len() as int) =~= bytes@);
        }
        keys
    }
}

/// The compute half of the keyboard interrupt handler: consumes one hardware
/// byte; if it completes a meaningful key, buffers the key for mainline code
/// instead of forwarding it to an output sink from interrupt context (the
/// sink's lock may be held by interrupted mainline code — a deadlock
/// hazard). Returns whether a key was buffered; a full buffer drops the key.
/// The surrounding service routine must acknowledge the interrupt to the
/// interrupt controller afterward on every exit path, queued or not.
pub fn handle_scancode(
    decoder: &mut KeyboardDecoder,
    queue: &mut EventQueue,
    byte: u8,
) -> (queued: bool)
    ensures
        final(decoder)@ == old(decoder)@.push(byte),
        final(queue).cap() == old(queue).cap(),
        decode_spec(old(decoder)@.push(byte)) is None ==> !queued && final(queue)@ == old(queue)@,
        decode_spec(old(decoder)@.push(byte)) matches Some(k) ==> {
            &&& old(queue)@.len() < old(queue).cap() ==> queued && final(queue)@ == old(queue)@.push(k)
            &&& old(queue)@.len() >= old(queue).cap() ==> !queued && final(queue)@ == old(queue)@
        },
{
    match decoder.decode(byte) {
        Some(key) => queue.push(key),
        None => false,
    }
}

/// Decoder determinism: a byte sequence decodes to exactly one key sequence,
/// so two independent decodings of the same bytes — two handler runs over
/// freshly constructed decoders — agree on every decoded key.
pub proof fn lemma_decoding_deterministic(bytes: Seq<u8>, keys1: Seq<Key>, keys2: Seq<Key>)
    requires
        keys1 == decoded_seq(bytes),
        keys2 == decoded_seq(bytes),
    ensures
        keys1 == keys2,
{
}

} // verus!
