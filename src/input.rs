use vstd::prelude::*;
use crate::kind::{flip_key_index, flip_spec, lemma_flip_key_index_involution, lemma_kind_geometry, Kind};

verus! {

/// An input event decoded from an encoder or touch-screen report.
#[derive(Debug, PartialEq, Eq)]
pub enum StreamDeckInput {
    /// Pressed state of each encoder.
    EncoderStateChange(Vec<bool>),
    /// Rotation of each encoder, in detents; the sign gives the direction.
    EncoderTwist(Vec<i8>),
    /// Short touch at a point of the screen.
    TouchScreenPress(u16, u16),
    /// Long touch at a point of the screen.
    TouchScreenLongPress(u16, u16),
    /// Swipe from a start point to an end point.
    TouchScreenSwipe((u16, u16), (u16, u16)),
}

/// Errors of report decoding.
#[derive(Clone, Copy, Debug, PartialEq, Eq, Structural)]
pub enum StreamDeckError {
    /// The sub-type byte of a report holds no known value.
    BadData,
}

/// Offset of the first key byte in a button report of `kind`.
pub open spec fn button_offset(kind: Kind) -> int {
    match kind {
        Kind::Original | Kind::Mini | Kind::MiniMk2 => 1,
        _ => 4,
    }
}

/// Byte, relative to the first key byte, that carries logical key `i`.
pub open spec fn physical_key(kind: Kind, i: int) -> int {
    if kind.spec_is_mirrored() {
        flip_spec(kind.spec_column_count() as int, i)
    } else {
        i
    }
}

/// Length a button report of `kind` needs when it carries key bytes.
pub open spec fn button_report_len(kind: Kind) -> int {
    button_offset(kind) + kind.spec_key_count()
}

/// The activity of each logical key, as a button report holds it.
pub open spec fn button_states_spec(kind: Kind, states: Seq<u8>) -> Seq<bool> {
    if states[0] == 0 {
        Seq::empty()
    } else {
        Seq::new(
            kind.spec_key_count() as nat,
            |i: int| states[button_offset(kind) + physical_key(kind, i)] != 0,
        )
    }
}

/// Reads the state of each key from a button report; empty when the
/// report's first byte says that it carries no key data.
pub fn read_button_states(kind: &Kind, states: &Vec<u8>) -> (r: Vec<bool>)
    requires
        states.len() >= 1,
        states[0] != 0 ==> states.len() >= button_report_len(*kind),
    ensures
        r@ == button_states_spec(*kind, states@),
        states[0] == 0 ==> r@.len() == 0,
        states[0] != 0 ==> r@.len() == kind.spec_key_count(),
{
    if states[0] == 0 {
        return Vec::new();
    }
    proof {
        lemma_kind_geometry(*kind);
    }
    let offset: usize = match kind {
        Kind::Original | Kind::Mini | Kind::MiniMk2 => 1,
        _ => 4,
    };
    let n = kind.key_count();
    let mut bools: Vec<bool> = Vec::new();
    for i in 0..n
        invariant
            n == kind.spec_key_count(),
            offset == button_offset(*kind),
            states[0] != 0,
            states.len() >= button_report_len(*kind),
            bools@.len() == i,
            forall|j: int|
                0 <= j < i ==> #[trigger] bools@[j] == (states@[button_offset(*kind)
                    + physical_key(*kind, j)] != 0),
    {
        let p: usize = if *kind == Kind::Original {
            proof {
                lemma_flip_key_index_involution(*kind, i as int);
            }
            flip_key_index(kind, i) as usize
        } else {
            i as usize
        };
        bools.push(states[offset + p] != 0);
    }
    proof {
        assert(bools@ =~= button_states_spec(*kind, states@));
    }
    bools
}

/// The little-endian 16-bit value of bytes `at` and `at + 1`.
pub open spec fn le16(data: Seq<u8>, at: int) -> u16 {
    (data[at] as int + 256 * data[at + 1] as int) as u16
}

/// Reads a little-endian 16-bit value from two bytes.
fn read_le16(data: &Vec<u8>, at: usize) -> (r: u16)
    requires
        at + 1 < data.len(),
    ensures
        r == le16(data@, at as int),
{
    data[at] as u16 + 256 * (data[at + 1] as u16)
}

/// Decodes a touch-screen report. Byte 4 selects a press (1), a long press
/// (2) or a swipe (3); points are little-endian pairs from byte 6 on.
pub fn read_lcd_input(data: &Vec<u8>) -> (r: Result<StreamDeckInput, StreamDeckError>)
    requires
        data.len() >= 5,
        data[4] == 1 || data[4] == 2 ==> data.len() >= 10,
        data[4] == 3 ==> data.len() >= 14,
    ensures
        data[4] == 1 ==> r == Ok::<StreamDeckInput, StreamDeckError>(
            StreamDeckInput::TouchScreenPress(le16(data@, 6), le16(data@, 8)),
        ),
        data[4] == 2 ==> r == Ok::<StreamDeckInput, StreamDeckError>(
            StreamDeckInput::TouchScreenLongPress(le16(data@, 6), le16(data@, 8)),
        ),
        data[4] == 3 ==> r == Ok::<StreamDeckInput, StreamDeckError>(
            StreamDeckInput::TouchScreenSwipe(
                (le16(data@, 6), le16(data@, 8)),
                (le16(data@, 10), le16(data@, 12)),
            ),
        ),
        data[4] == 0 || data[4] > 3 ==> r == Err::<StreamDeckInput, StreamDeckError>(
            StreamDeckError::BadData,
        ),
{
    match data[4] {
        1 => Ok(StreamDeckInput::TouchScreenPress(read_le16(data, 6), read_le16(data, 8))),
        2 => Ok(StreamDeckInput::TouchScreenLongPress(read_le16(data, 6), read_le16(data, 8))),
        3 => {
            let start = (read_le16(data, 6), read_le16(data, 8));
            let end = (read_le16(data, 10), read_le16(data, 12));
            Ok(StreamDeckInput::TouchScreenSwipe(start, end))
        },
        _ => Err(StreamDeckError::BadData),
    }
}

/// The two's-complement value of a byte.
pub open spec fn signed_byte(b: u8) -> i8 {
    if b < 128 {
        b as i8
    } else {
        (b as int - 256) as i8
    }
}

/// Pressed state of each encoder, from the bytes after the sub-type byte.
pub open spec fn encoder_pressed_spec(kind: Kind, data: Seq<u8>) -> Seq<bool> {
    Seq::new(kind.spec_encoder_count() as nat, |i: int| data[5 + i] != 0)
}

/// Rotation of each encoder, from the bytes after the sub-type byte.
pub open spec fn encoder_twist_spec(kind: Kind, data: Seq<u8>) -> Seq<i8> {
    Seq::new(kind.spec_encoder_count() as nat, |i: int| signed_byte(data[5 + i]))
}

/// Decodes an encoder report. Byte 4 selects presses (0) or rotation (1);
/// one byte per encoder follows from byte 5 on.
pub fn read_encoder_input(kind: &Kind, data: &Vec<u8>) -> (r: Result<
    StreamDeckInput,
    StreamDeckError,
>)
    requires
        data.len() >= 5,
        data[4] <= 1 ==> data.len() >= 5 + kind.spec_encoder_count(),
    ensures
        match r {
            Ok(StreamDeckInput::EncoderStateChange(v)) => data[4] == 0 && v@
                == encoder_pressed_spec(*kind, data@),
            Ok(StreamDeckInput::EncoderTwist(v)) => data[4] == 1 && v@ == encoder_twist_spec(
                *kind,
                data@,
            ),
            Ok(_) => false,
            Err(e) => data[4] > 1 && e == StreamDeckError::BadData,
        },
{
    proof {
        lemma_kind_geometry(*kind);
    }
    let n = kind.encoder_count() as usize;
    match data[4] {
        0 => {
            let mut pressed: Vec<bool> = Vec::new();
            for i in 0..n
                invariant
                    n == kind.spec_encoder_count(),
                    data.len() >= 5 + n,
                    pressed@.len() == i,
                    forall|j: int| 0 <= j < i ==> #[trigger] pressed@[j] == (data@[5 + j] != 0),
            {
                pressed.push(data[5 + i] != 0);
            }
            proof {
                assert(pressed@ =~= encoder_pressed_spec(*kind, data@));
            }
            Ok(StreamDeckInput::EncoderStateChange(pressed))
        },
        1 => {
            let mut twist: Vec<i8> = Vec::new();
            for i in 0..n
                invariant
                    n == kind.spec_encoder_count(),
                    data.len() >= 5 + n,
                    twist@.len() == i,
                    forall|j: int|
                        0 <= j < i ==> #[trigger] twist@[j] == signed_byte(data@[5 + j]),
            {
                let b = data[5 + i];
                let t: i8 = if b < 128 {
                    b as i8
                } else {
                    (b as i16 - 256) as i8
                };
                twist.push(t);
            }
            proof {
                assert(twist@ =~= encoder_twist_spec(*kind, data@));
            }
            Ok(StreamDeckInput::EncoderTwist(twist))
        },
        _ => Err(StreamDeckError::BadData),
    }
}

} // verus!
