//! Decoder for control frames sent by an automotive head-unit to an
//! emulated CD-changer accessory.
//!
//! The head-unit transmits each button press or state-change notification
//! as a fixed-width four-byte frame: two fixed prefix bytes (`0xCA`, `0x34`),
//! one command byte, and one parity byte that is the bitwise complement of
//! the command byte. [`Event::deserialize`] validates such a frame and turns
//! it into a typed [`Event`], or reports why the frame could not be decoded.

use vstd::prelude::*;

verus! {

/// First byte of the fixed two-byte marker that opens every head-unit frame.
pub const EVENT_PREFIX_0: u8 = 0xCA;

/// Second byte of the fixed two-byte marker that opens every head-unit frame.
pub const EVENT_PREFIX_1: u8 = 0x34;

/// An enumeration of events received from the head-unit.
///
/// Events from the head-unit are usually key presses or head-unit state
/// changes. Each is represented on the wire by four bytes: two identity
/// bytes (always `0xCA` and `0x34`), one command byte (the type of event),
/// and one parity byte (the bitwise complement of the command byte).
#[derive(Clone, Copy, Debug, PartialEq, Eq, Structural)]
pub enum Event {
    /// A button press of the "scan" button.
    Scan,
    Random1CD,
    Random6CD,
    Radio,
    /// Long-press of the previous-track button to seek backward in the current track.
    Rewind,
    /// Long-press of the next-track button to seek forward in the current track.
    Forward,
    LoadCD,
    /// A button press of the previous-track button to play the previous track.
    PreviousTrack,
    /// A button press of the next-track button to play the next track.
    NextTrack,
    PowerOn,
    PowerOff,
    /// Playback should resume, fast-forward/reverse has ended.
    Resume,
    /// A button press of the disc 1 button.
    Disc1,
    /// A button press of the disc 2 button.
    Disc2,
    /// A button press of the disc 3 button.
    Disc3,
    /// A button press of the disc 4 button.
    Disc4,
    /// A button press of the disc 5 button.
    Disc5,
    /// A button press of the disc 6 button.
    Disc6,
    /// A button press of the disc 7 button.
    Disc7,
    /// A button press of the disc 8 button.
    Disc8,
    /// A button press of the disc 9 button.
    Disc9,
    CDChange,
}

/// Why a four-byte frame failed to decode. Each variant carries the
/// offending byte values for diagnostics.
#[derive(Clone, Copy, Debug, PartialEq, Eq, Structural)]
pub enum DecodeError {
    /// The first two bytes were not `0xCA, 0x34`: the frame is misaligned
    /// (bus desync) or noise.
    InvalidPrefix { prefix0: u8, prefix1: u8 },
    /// The parity byte is not the bitwise complement of the command byte:
    /// bit-level corruption on a correctly aligned frame.
    ParityMismatch { command: u8, parity: u8, expected: u8 },
    /// A structurally valid, parity-correct frame whose command byte has no
    /// known mapping: an unmodeled but real head-unit signal. The command
    /// table is only partially reverse-engineered, so such frames are
    /// expected in the field and must stay recoverable.
    UnknownCommand { command: u8 },
}

/// The first two bytes of a frame carry the fixed prefix.
pub open spec fn spec_prefix_ok(prefix0: u8, prefix1: u8) -> bool {
    prefix0 == EVENT_PREFIX_0 && prefix1 == EVENT_PREFIX_1
}

/// The parity byte is the bitwise complement of the command byte.
pub open spec fn spec_parity_ok(command: u8, parity: u8) -> bool {
    parity == command ^ 0xFF
}

/// The known command table: the event assigned to each recognized command
/// byte, or `None` for a command with no known mapping. Intentionally
/// non-exhaustive: the remaining [`Event`] variants exist in the type but
/// have no assigned command code yet, pending further protocol
/// reverse-engineering.
pub open spec fn spec_event_for_command(command: u8) -> Option<Event> {
    match command {
        0x05 => Some(Event::Scan),
        0x06 => Some(Event::Random1CD),
        0x07 => Some(Event::Random6CD),
        0x08 => Some(Event::Radio),
        _ => None,
    }
}

/// What decoding a frame `[prefix0, prefix1, command, parity]` returns:
/// fail-fast validation, first failing check wins. The prefix check runs
/// strictly before the parity check, and an unrecognized command on an
/// otherwise valid frame is a distinct, recoverable error.
pub open spec fn spec_decode(frame: [u8; 4]) -> Result<Event, DecodeError> {
    if !spec_prefix_ok(frame[0], frame[1]) {
        Err(DecodeError::InvalidPrefix { prefix0: frame[0], prefix1: frame[1] })
    } else if !spec_parity_ok(frame[2], frame[3]) {
        Err(DecodeError::ParityMismatch {
            command: frame[2],
            parity: frame[3],
            expected: frame[2] ^ 0xFF,
        })
    } else {
        match spec_event_for_command(frame[2]) {
            Some(event) => Ok(event),
            None => Err(DecodeError::UnknownCommand { command: frame[2] }),
        }
    }
}

impl Event {
    /// Attempt to deserialize an event from a four-byte frame.
    ///
    /// Commands received from the head-unit are always four bytes long,
    /// interpreted positionally, in transmission order, as
    /// `[prefix0, prefix1, command, parity]`. The first two bytes must be
    /// `0xCA` and `0x34`, and the parity byte must be the bitwise
    /// complement of the command byte; the command byte is then looked up
    /// in the known command table.
    ///
    /// Pure and stateless: the result is a function of the frame bytes
    /// alone, so repeated calls on the same frame return the same value.
    pub fn deserialize(frame: [u8; 4]) -> (r: Result<Event, DecodeError>)
        ensures
            r == spec_decode(frame),
            !spec_prefix_ok(frame[0], frame[1]) ==> r == Err::<Event, DecodeError>(
                DecodeError::InvalidPrefix { prefix0: frame[0], prefix1: frame[1] },
            ),
            spec_prefix_ok(frame[0], frame[1]) && !spec_parity_ok(frame[2], frame[3]) ==> r
                == Err::<Event, DecodeError>(
                DecodeError::ParityMismatch {
                    command: frame[2],
                    parity: frame[3],
                    expected: frame[2] ^ 0xFF,
                },
            ),
            spec_prefix_ok(frame[0], frame[1]) && spec_parity_ok(frame[2], frame[3])
                && spec_event_for_command(frame[2]) is Some ==> r == Ok::<Event, DecodeError>(
                spec_event_for_command(frame[2])->Some_0,
            ),
            spec_prefix_ok(frame[0], frame[1]) && spec_parity_ok(frame[2], frame[3])
                && spec_event_for_command(frame[2]) is None ==> r == Err::<Event, DecodeError>(
                DecodeError::UnknownCommand { command: frame[2] },
            ),
    {
        let prefix0 = frame[0];
        let prefix1 = frame[1];
        let command = frame[2];
        let parity = frame[3];

        if prefix0 != EVENT_PREFIX_0 || prefix1 != EVENT_PREFIX_1 {
            return Err(DecodeError::InvalidPrefix { prefix0, prefix1 });
        }

        let expected = command ^ 0xFF;
        if parity != expected {
            return Err(DecodeError::ParityMismatch { command, parity, expected });
        }

        match command {
            0x05 => Ok(Event::Scan),
            0x06 => Ok(Event::Random1CD),
            0x07 => Ok(Event::Random6CD),
            0x08 => Ok(Event::Radio),
            _ => Err(DecodeError::UnknownCommand { command }),
        }
    }
}

/// The parity relation stated three equivalent ways: the parity byte is the
/// bitwise complement of the command byte exactly when the two bytes OR to
/// `0xFF` and AND to `0x00`.
pub proof fn lemma_parity_characterization(command: u8, parity: u8)
    ensures
        spec_parity_ok(command, parity) <==> (command | parity == 0xFF && command & parity == 0x00),
{
    assert(parity == command ^ 0xFF <==> (command | parity == 0xFF && command & parity == 0x00))
        by (bit_vector);
}

/// Round trip: for each command byte in the known table, the frame
/// `[0xCA, 0x34, command, !command]` decodes to exactly the event that the
/// table assigns to that command byte.
pub proof fn lemma_round_trip(frame: [u8; 4], event: Event)
    requires
        frame[0] == EVENT_PREFIX_0,
        frame[1] == EVENT_PREFIX_1,
        frame[3] == frame[2] ^ 0xFF,
        spec_event_for_command(frame[2]) == Some(event),
    ensures
        spec_decode(frame) == Ok::<Event, DecodeError>(event),
{
}

} // verus!
