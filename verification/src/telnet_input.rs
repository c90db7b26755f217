//! The byte-level input state machine of a TELNET connection: commands,
//! escape and control sequences, compose sequences for Latin-1 characters
//! and the word-editing commands.

use vstd::prelude::*;
use crate::telnet::{
    backward_char_spec, beginning_of_line_spec, bell, clear_screen_spec, close_spec, delete_char_spec,
    do_dont_spec, end_of_line_spec, erase_char_spec, erase_line_spec, forward_char_spec,
    insert_char_spec, insert_with_prefix_spec, kill_line_spec, next_line_spec, previous_line_spec,
    subnegotiation_spec, transpose_chars_spec, utf8_lossy, will_wont_spec, wrap_fix, yank_spec,
    Telnet, TelnetEvent, TelnetState, TelnetView, BACKSPACE, CMD_AO, CMD_AYT, CMD_DO, CMD_DONT,
    CMD_EC, CMD_EL, CMD_SB, CMD_WILL, CMD_WONT, CONTROL_A, CONTROL_B, CONTROL_C, CONTROL_D,
    CONTROL_E, CONTROL_F, CONTROL_K, CONTROL_L, CONTROL_N, CONTROL_P, CONTROL_T, CONTROL_U,
    CONTROL_X, CONTROL_Y, CSI, DELETE, ESCAPE, IAC, NEWLINE, OPT_TIMING_MARK, RETURN, SPACE,
    TELNET_ENABLED,
};
use vstd::string::StringSliceAdditionalSpecFns;

verus! {

// ---------------------------------------------------------------------------
// Compose sequences
// ---------------------------------------------------------------------------

/// The state a Control-C compose sequence moves to on its second byte,
/// when that byte starts a two-byte accent sequence.
#[verifier::opaque]
pub open spec fn compose_prefix_spec(state: TelnetState, byte: u8) -> Option<TelnetState> {
    if state == TelnetState::ControlC {
        if byte == 9 {
            Some(TelnetState::ControlI)
        } else if byte == 12 {
            Some(TelnetState::ControlL)
        } else if byte == 15 {
            Some(TelnetState::DegreeSign)
        } else if byte == 34 {
            Some(TelnetState::Umlaut)
        } else if byte == 96 {
            Some(TelnetState::Backquote)
        } else if byte == 39 {
            Some(TelnetState::AcuteAccent)
        } else if byte == 94 {
            Some(TelnetState::Carat)
        } else if byte == 126 {
            Some(TelnetState::Tilde)
        } else if byte == 47 {
            Some(TelnetState::Slash)
        } else if byte == 44 {
            Some(TelnetState::Cedilla)
        } else {
            None
        }
    } else {
        None
    }
}

/// The state a Control-C compose sequence moves to on its second byte.
pub fn compose_prefix(state: TelnetState, byte: u8) -> (r: Option<TelnetState>)
    ensures
        r == compose_prefix_spec(state, byte),
{
    reveal(compose_prefix_spec);
    if state == TelnetState::ControlC {
        match byte {
            9u8 => Some(TelnetState::ControlI),
            12u8 => Some(TelnetState::ControlL),
            15u8 => Some(TelnetState::DegreeSign),
            34u8 => Some(TelnetState::Umlaut),  // '"'
            96u8 => Some(TelnetState::Backquote),  // '`'
            39u8 => Some(TelnetState::AcuteAccent),  // quote
            94u8 => Some(TelnetState::Carat),  // '^'
            126u8 => Some(TelnetState::Tilde),  // '~'
            47u8 => Some(TelnetState::Slash),  // '/'
            44u8 => Some(TelnetState::Cedilla),  // ','
            _ => None,
        }
    } else {
        None
    }
}

/// The Latin-1 character that a compose sequence in `state` gives for its
/// last byte, if any.
#[verifier::opaque]
pub open spec fn compose_char_spec(state: TelnetState, byte: u8) -> Option<u8> {
    match state {
        TelnetState::ControlC => match byte {
            14u8 => Some(0xACu8),
            21u8 => Some(0xB5u8),
            25u8 => Some(0xA5u8),
            32u8 => Some(0xA0u8),
            33u8 => Some(0xA1u8),  // '!'
            35u8 => Some(0xA3u8),  // '#'
            36u8 => Some(0xA4u8),  // '$'
            46u8 => Some(0xB7u8),  // '.'
            49u8 => Some(0xB9u8),  // '1'
            50u8 => Some(0xB2u8),  // '2'
            51u8 => Some(0xB3u8),  // '3'
            43u8 => Some(0xB1u8),  // '+'
            45u8 => Some(0xADu8),  // '-'
            60u8 => Some(0xABu8),  // '<'
            62u8 => Some(0xBBu8),  // '>'
            63u8 => Some(0xBFu8),  // '?'
            65u8 => Some(0xC1u8),  // 'A'
            67u8 => Some(0xA9u8),  // 'C'
            69u8 => Some(0xC9u8),  // 'E'
            70u8 => Some(0xAAu8),  // 'F'
            73u8 => Some(0xCDu8),  // 'I'
            77u8 => Some(0xBAu8),  // 'M'
            78u8 => Some(0xD1u8),  // 'N'
            79u8 => Some(0xD3u8),  // 'O'
            80u8 => Some(0xB6u8),  // 'P'
            82u8 => Some(0xAEu8),  // 'R'
            83u8 => Some(0xA7u8),  // 'S'
            85u8 => Some(0xDAu8),  // 'U'
            89u8 => Some(0xDDu8),  // 'Y'
            97u8 => Some(0xE1u8),  // 'a'
            99u8 => Some(0xA2u8),  // 'c'
            100u8 => Some(0xB0u8),  // 'd'
            101u8 => Some(0xE9u8),  // 'e'
            105u8 => Some(0xEDu8),  // 'i'
            110u8 => Some(0xF1u8),  // 'n'
            111u8 => Some(0xF3u8),  // 'o'
            117u8 => Some(0xFAu8),  // 'u'
            120u8 => Some(0xD7u8),  // 'x'
            121u8 => Some(0xFDu8),  // 'y'
            124u8 => Some(0xA6u8),  // '|'
            95u8 => Some(0xAFu8),  // '_'
            _ => None,
        },
        TelnetState::Umlaut => match byte {
            34u8 => Some(0xA8u8),  // '"'
            65u8 => Some(0xC4u8),  // 'A'
            69u8 => Some(0xCBu8),  // 'E'
            73u8 => Some(0xCFu8),  // 'I'
            79u8 => Some(0xD6u8),  // 'O'
            85u8 => Some(0xDCu8),  // 'U'
            97u8 => Some(0xE4u8),  // 'a'
            101u8 => Some(0xEBu8),  // 'e'
            105u8 => Some(0xEFu8),  // 'i'
            111u8 => Some(0xF6u8),  // 'o'
            117u8 => Some(0xFCu8),  // 'u'
            121u8 => Some(0xFFu8),  // 'y'
            _ => None,
        },
        TelnetState::Backquote => match byte {
            96u8 => Some(0x60u8),  // '`'
            65u8 => Some(0xC0u8),  // 'A'
            69u8 => Some(0xC8u8),  // 'E'
            73u8 => Some(0xCCu8),  // 'I'
            79u8 => Some(0xD2u8),  // 'O'
            85u8 => Some(0xD9u8),  // 'U'
            97u8 => Some(0xE0u8),  // 'a'
            101u8 => Some(0xE8u8),  // 'e'
            105u8 => Some(0xECu8),  // 'i'
            111u8 => Some(0xF2u8),  // 'o'
            117u8 => Some(0xF9u8),  // 'u'
            _ => None,
        },
        TelnetState::AcuteAccent => match byte {
            39u8 => Some(0xB4u8),  // quote
            65u8 => Some(0xC1u8),  // 'A'
            69u8 => Some(0xC9u8),  // 'E'
            73u8 => Some(0xCDu8),  // 'I'
            79u8 => Some(0xD3u8),  // 'O'
            85u8 => Some(0xDAu8),  // 'U'
            89u8 => Some(0xDDu8),  // 'Y'
            97u8 => Some(0xE1u8),  // 'a'
            101u8 => Some(0xE9u8),  // 'e'
            105u8 => Some(0xEDu8),  // 'i'
            111u8 => Some(0xF3u8),  // 'o'
            117u8 => Some(0xFAu8),  // 'u'
            121u8 => Some(0xFDu8),  // 'y'
            _ => None,
        },
        TelnetState::Carat => match byte {
            94u8 => Some(0x5Eu8),  // '^'
            65u8 => Some(0xC2u8),  // 'A'
            69u8 => Some(0xCAu8),  // 'E'
            73u8 => Some(0xCEu8),  // 'I'
            79u8 => Some(0xD4u8),  // 'O'
            85u8 => Some(0xDBu8),  // 'U'
            97u8 => Some(0xE2u8),  // 'a'
            101u8 => Some(0xEAu8),  // 'e'
            105u8 => Some(0xEEu8),  // 'i'
            111u8 => Some(0xF4u8),  // 'o'
            117u8 => Some(0xFBu8),  // 'u'
            _ => None,
        },
        TelnetState::Tilde => match byte {
            126u8 => Some(0x7Eu8),  // '~'
            65u8 => Some(0xC3u8),  // 'A'
            78u8 => Some(0xD1u8),  // 'N'
            79u8 => Some(0xD5u8),  // 'O'
            97u8 => Some(0xE3u8),  // 'a'
            110u8 => Some(0xF1u8),  // 'n'
            111u8 => Some(0xF5u8),  // 'o'
            _ => None,
        },
        TelnetState::DegreeSign => match byte {
            15u8 => Some(0xB0u8),
            111u8 => Some(0xB0u8),  // 'o'
            65u8 => Some(0xC5u8),  // 'A'
            97u8 => Some(0xE5u8),  // 'a'
            _ => None,
        },
        TelnetState::Slash => match byte {
            47u8 => Some(0xF7u8),  // '/'
            50u8 => Some(0xBDu8),  // '2'
            51u8 => Some(0xBEu8),  // '3'
            52u8 => Some(0xBCu8),  // '4'
            79u8 => Some(0xD8u8),  // 'O'
            111u8 => Some(0xF8u8),  // 'o'
            _ => None,
        },
        TelnetState::Cedilla => match byte {
            44u8 => Some(0xB8u8),  // ','
            67u8 => Some(0xC7u8),  // 'C'
            99u8 => Some(0xE7u8),  // 'c'
            _ => None,
        },
        TelnetState::ControlI => match byte {
            69u8 => Some(0xD0u8),  // 'E'
            84u8 => Some(0xDEu8),  // 'T'
            101u8 => Some(0xF0u8),  // 'e'
            116u8 => Some(0xFEu8),  // 't'
            _ => None,
        },
        TelnetState::ControlL => match byte {
            65u8 => Some(0xC6u8),  // 'A'
            97u8 => Some(0xE6u8),  // 'a'
            115u8 => Some(0xDFu8),  // 's'
            _ => None,
        },
        _ => None,
    }
}

/// The Latin-1 character that a compose sequence in `state` gives for its
/// last byte, if any.
pub fn compose_char(state: TelnetState, byte: u8) -> (r: Option<u8>)
    ensures
        r == compose_char_spec(state, byte),
{
    reveal(compose_char_spec);
    match state {
        TelnetState::ControlC => match byte {
            14u8 => Some(0xACu8),
            21u8 => Some(0xB5u8),
            25u8 => Some(0xA5u8),
            32u8 => Some(0xA0u8),
            33u8 => Some(0xA1u8),  // '!'
            35u8 => Some(0xA3u8),  // '#'
            36u8 => Some(0xA4u8),  // '$'
            46u8 => Some(0xB7u8),  // '.'
            49u8 => Some(0xB9u8),  // '1'
            50u8 => Some(0xB2u8),  // '2'
            51u8 => Some(0xB3u8),  // '3'
            43u8 => Some(0xB1u8),  // '+'
            45u8 => Some(0xADu8),  // '-'
            60u8 => Some(0xABu8),  // '<'
            62u8 => Some(0xBBu8),  // '>'
            63u8 => Some(0xBFu8),  // '?'
            65u8 => Some(0xC1u8),  // 'A'
            67u8 => Some(0xA9u8),  // 'C'
            69u8 => Some(0xC9u8),  // 'E'
            70u8 => Some(0xAAu8),  // 'F'
            73u8 => Some(0xCDu8),  // 'I'
            77u8 => Some(0xBAu8),  // 'M'
            78u8 => Some(0xD1u8),  // 'N'
            79u8 => Some(0xD3u8),  // 'O'
            80u8 => Some(0xB6u8),  // 'P'
            82u8 => Some(0xAEu8),  // 'R'
            83u8 => Some(0xA7u8),  // 'S'
            85u8 => Some(0xDAu8),  // 'U'
            89u8 => Some(0xDDu8),  // 'Y'
            97u8 => Some(0xE1u8),  // 'a'
            99u8 => Some(0xA2u8),  // 'c'
            100u8 => Some(0xB0u8),  // 'd'
            101u8 => Some(0xE9u8),  // 'e'
            105u8 => Some(0xEDu8),  // 'i'
            110u8 => Some(0xF1u8),  // 'n'
            111u8 => Some(0xF3u8),  // 'o'
            117u8 => Some(0xFAu8),  // 'u'
            120u8 => Some(0xD7u8),  // 'x'
            121u8 => Some(0xFDu8),  // 'y'
            124u8 => Some(0xA6u8),  // '|'
            95u8 => Some(0xAFu8),  // '_'
            _ => None,
        },
        TelnetState::Umlaut => match byte {
            34u8 => Some(0xA8u8),  // '"'
            65u8 => Some(0xC4u8),  // 'A'
            69u8 => Some(0xCBu8),  // 'E'
            73u8 => Some(0xCFu8),  // 'I'
            79u8 => Some(0xD6u8),  // 'O'
            85u8 => Some(0xDCu8),  // 'U'
            97u8 => Some(0xE4u8),  // 'a'
            101u8 => Some(0xEBu8),  // 'e'
            105u8 => Some(0xEFu8),  // 'i'
            111u8 => Some(0xF6u8),  // 'o'
            117u8 => Some(0xFCu8),  // 'u'
            121u8 => Some(0xFFu8),  // 'y'
            _ => None,
        },
        TelnetState::Backquote => match byte {
            96u8 => Some(0x60u8),  // '`'
            65u8 => Some(0xC0u8),  // 'A'
            69u8 => Some(0xC8u8),  // 'E'
            73u8 => Some(0xCCu8),  // 'I'
            79u8 => Some(0xD2u8),  // 'O'
            85u8 => Some(0xD9u8),  // 'U'
            97u8 => Some(0xE0u8),  // 'a'
            101u8 => Some(0xE8u8),  // 'e'
            105u8 => Some(0xECu8),  // 'i'
            111u8 => Some(0xF2u8),  // 'o'
            117u8 => Some(0xF9u8),  // 'u'
            _ => None,
        },
        TelnetState::AcuteAccent => match byte {
            39u8 => Some(0xB4u8),  // quote
            65u8 => Some(0xC1u8),  // 'A'
            69u8 => Some(0xC9u8),  // 'E'
            73u8 => Some(0xCDu8),  // 'I'
            79u8 => Some(0xD3u8),  // 'O'
            85u8 => Some(0xDAu8),  // 'U'
            89u8 => Some(0xDDu8),  // 'Y'
            97u8 => Some(0xE1u8),  // 'a'
            101u8 => Some(0xE9u8),  // 'e'
            105u8 => Some(0xEDu8),  // 'i'
            111u8 => Some(0xF3u8),  // 'o'
            117u8 => Some(0xFAu8),  // 'u'
            121u8 => Some(0xFDu8),  // 'y'
            _ => None,
        },
        TelnetState::Carat => match byte {
            94u8 => Some(0x5Eu8),  // '^'
            65u8 => Some(0xC2u8),  // 'A'
            69u8 => Some(0xCAu8),  // 'E'
            73u8 => Some(0xCEu8),  // 'I'
            79u8 => Some(0xD4u8),  // 'O'
            85u8 => Some(0xDBu8),  // 'U'
            97u8 => Some(0xE2u8),  // 'a'
            101u8 => Some(0xEAu8),  // 'e'
            105u8 => Some(0xEEu8),  // 'i'
            111u8 => Some(0xF4u8),  // 'o'
            117u8 => Some(0xFBu8),  // 'u'
            _ => None,
        },
        TelnetState::Tilde => match byte {
            126u8 => Some(0x7Eu8),  // '~'
            65u8 => Some(0xC3u8),  // 'A'
            78u8 => Some(0xD1u8),  // 'N'
            79u8 => Some(0xD5u8),  // 'O'
            97u8 => Some(0xE3u8),  // 'a'
            110u8 => Some(0xF1u8),  // 'n'
            111u8 => Some(0xF5u8),  // 'o'
            _ => None,
        },
        TelnetState::DegreeSign => match byte {
            15u8 => Some(0xB0u8),
            111u8 => Some(0xB0u8),  // 'o'
            65u8 => Some(0xC5u8),  // 'A'
            97u8 => Some(0xE5u8),  // 'a'
            _ => None,
        },
        TelnetState::Slash => match byte {
            47u8 => Some(0xF7u8),  // '/'
            50u8 => Some(0xBDu8),  // '2'
            51u8 => Some(0xBEu8),  // '3'
            52u8 => Some(0xBCu8),  // '4'
            79u8 => Some(0xD8u8),  // 'O'
            111u8 => Some(0xF8u8),  // 'o'
            _ => None,
        },
        TelnetState::Cedilla => match byte {
            44u8 => Some(0xB8u8),  // ','
            67u8 => Some(0xC7u8),  // 'C'
            99u8 => Some(0xE7u8),  // 'c'
            _ => None,
        },
        TelnetState::ControlI => match byte {
            69u8 => Some(0xD0u8),  // 'E'
            84u8 => Some(0xDEu8),  // 'T'
            101u8 => Some(0xF0u8),  // 'e'
            116u8 => Some(0xFEu8),  // 't'
            _ => None,
        },
        TelnetState::ControlL => match byte {
            65u8 => Some(0xC6u8),  // 'A'
            97u8 => Some(0xE6u8),  // 'a'
            115u8 => Some(0xDFu8),  // 's'
            _ => None,
        },
        _ => None,
    }
}

/// A byte in one of the compose states: either a further accent state,
/// the composed character, or the bell.
#[verifier::opaque]
pub open spec fn compose_spec(v: TelnetView, byte: u8) -> TelnetView {
    match compose_prefix_spec(v.state, byte) {
        Some(s) => TelnetView { state: s, ..v },
        None => match compose_char_spec(v.state, byte) {
            Some(c) => TelnetView { state: TelnetState::Data, ..insert_char_spec(v, c) },
            None => TelnetView { state: TelnetState::Data, ..v.emit(bell()) },
        },
    }
}

impl Telnet {
    /// Handles a byte in one of the compose states.
    #[verifier::rlimit(60)]
    pub fn process_compose(&mut self, byte: u8)
        requires
            old(self)@.wf(),
        ensures
            final(self)@ == compose_spec(old(self)@, byte),
            final(self)@.wf(),
    {
        proof {
            reveal(compose_spec);
        }
        match compose_prefix(self.state, byte) {
            Some(s) => {
                self.state = s;
            },
            None => {
                match compose_char(self.state, byte) {
                    Some(c) => {
                        self.insert_char(c);
                    },
                    None => {
                        self.output_buffer.push(7u8);
                    },
                }
                self.state = TelnetState::Data;
            },
        }
    }
}

// ---------------------------------------------------------------------------
// Word commands
// ---------------------------------------------------------------------------

/// An ASCII letter.
pub open spec fn alpha(b: u8) -> bool {
    (65 <= b && b <= 90) || (97 <= b && b <= 122)
}

/// Moving forward by characters while the character at the point is (or,
/// for `letters` false, is not) a letter.
pub open spec fn forward_while_spec(v: TelnetView, letters: bool) -> TelnetView
    decreases v.data.len() - v.point,
{
    if v.point < v.data.len() && alpha(v.data[v.point as int]) == letters {
        forward_while_spec(forward_char_spec(v), letters)
    } else {
        v
    }
}

/// Moving backward by characters while the character before the point is
/// (or is not) a letter.
pub open spec fn backward_while_spec(v: TelnetView, letters: bool) -> TelnetView
    decreases v.point,
{
    if v.point > 0 && alpha(v.data[v.point - 1]) == letters {
        backward_while_spec(backward_char_spec(v), letters)
    } else {
        v
    }
}

/// Moving forward past the next word.
#[verifier::opaque]
pub open spec fn forward_word_spec(v: TelnetView) -> TelnetView {
    forward_while_spec(forward_while_spec(v, false), true)
}

/// Moving backward to the start of the previous word.
#[verifier::opaque]
pub open spec fn backward_word_spec(v: TelnetView) -> TelnetView {
    backward_while_spec(backward_while_spec(v, false), true)
}

/// Where the next word ends, searching from `i`: past non-letters, then
/// past letters.
pub open spec fn word_end(d: Seq<u8>, i: nat, letters: bool) -> nat
    decreases d.len() - i,
{
    if i < d.len() && alpha(d[i as int]) == letters {
        word_end(d, i + 1, letters)
    } else {
        i
    }
}

/// Where the previous word starts, searching back from `i`.
pub open spec fn word_start(d: Seq<u8>, i: nat, letters: bool) -> nat
    decreases i,
{
    if i > 0 && i <= d.len() && alpha(d[i - 1]) == letters {
        word_start(d, (i - 1) as nat, letters)
    } else {
        i
    }
}

/// Deleting `n` characters at the point.
pub open spec fn delete_chars_spec(v: TelnetView, n: nat) -> TelnetView
    decreases n,
{
    if n == 0 {
        v
    } else {
        delete_chars_spec(delete_char_spec(v), (n - 1) as nat)
    }
}

/// Erasing `n` characters before the point.
pub open spec fn erase_chars_spec(v: TelnetView, n: nat) -> TelnetView
    decreases n,
{
    if n == 0 {
        v
    } else {
        erase_chars_spec(erase_char_spec(v), (n - 1) as nat)
    }
}

/// Deleting the next word.
#[verifier::opaque]
pub open spec fn delete_word_spec(v: TelnetView) -> TelnetView {
    let end = word_end(v.data, word_end(v.data, v.point, false), true);
    delete_chars_spec(v, (end - v.point) as nat)
}

/// Erasing the previous word.
#[verifier::opaque]
pub open spec fn erase_word_spec(v: TelnetView) -> TelnetView {
    let start = word_start(v.data, word_start(v.data, v.point, false), true);
    erase_chars_spec(v, (v.point - start) as nat)
}

/// How a word command changes the case of a letter: 0 makes it upper
/// case, 1 lower case.
pub open spec fn recase(b: u8, mode: u8) -> u8 {
    if mode == 0 && 97 <= b && b <= 122 {
        (b - 32) as u8
    } else if mode != 0 && 65 <= b && b <= 90 {
        (b + 32) as u8
    } else {
        b
    }
}

/// Changing the case of the letter at the point and moving past it,
/// echoing it.
pub open spec fn recase_step_spec(v: TelnetView, mode: u8) -> TelnetView {
    let c = recase(v.data[v.point as int], mode);
    let v1 = TelnetView { data: v.data.update(v.point as int, c), point: v.point + 1, ..v };
    if v.echoing() {
        v1.emit(seq![c])
    } else {
        v1
    }
}

/// Changing the case of the letters from the point on.
pub open spec fn recase_run_spec(v: TelnetView, mode: u8) -> TelnetView
    decreases v.data.len() - v.point,
{
    if v.point < v.data.len() && alpha(v.data[v.point as int]) {
        recase_run_spec(recase_step_spec(v, mode), mode)
    } else {
        v
    }
}

/// After a case change: the wrap fix at the new point.
pub open spec fn finish_word_spec(v: TelnetView) -> TelnetView {
    v.emit(wrap_fix(v, v.point))
}

/// Upper-casing the next word.
#[verifier::opaque]
pub open spec fn upcase_word_spec(v: TelnetView) -> TelnetView {
    finish_word_spec(recase_run_spec(forward_while_spec(v, false), 0))
}

/// Lower-casing the next word.
#[verifier::opaque]
pub open spec fn downcase_word_spec(v: TelnetView) -> TelnetView {
    finish_word_spec(recase_run_spec(forward_while_spec(v, false), 1))
}

/// Capitalizing the next word.
#[verifier::opaque]
pub open spec fn capitalize_word_spec(v: TelnetView) -> TelnetView {
    let v0 = forward_while_spec(v, false);
    let v1 = if v0.point < v0.data.len() && alpha(v0.data[v0.point as int]) {
        recase_step_spec(v0, 0)
    } else {
        v0
    };
    finish_word_spec(recase_run_spec(v1, 1))
}

/// Whether a byte is an ASCII letter.
fn is_alpha(b: u8) -> (r: bool)
    ensures
        r == alpha(b),
{
    (65 <= b && b <= 90) || (97 <= b && b <= 122)
}

impl Telnet {
    /// Moves forward while the character at the point is (or is not) a
    /// letter.
    fn forward_while(&mut self, letters: bool)
        requires
            old(self)@.wf(),
        ensures
            final(self)@ == forward_while_spec(old(self)@, letters),
            final(self)@.wf(),
        decreases old(self).data.len() - old(self).point,
    {
        if self.point < self.data.len() && is_alpha(self.data[self.point]) == letters {
            self.forward_char();
            self.forward_while(letters);
        }
    }

    /// Moves backward while the character before the point is (or is not)
    /// a letter.
    fn backward_while(&mut self, letters: bool)
        requires
            old(self)@.wf(),
        ensures
            final(self)@ == backward_while_spec(old(self)@, letters),
            final(self)@.wf(),
        decreases old(self).point,
    {
        if self.point > 0 && is_alpha(self.data[self.point - 1]) == letters {
            self.backward_char();
            self.backward_while(letters);
        }
    }

    /// Moves forward past the next word.
    pub fn forward_word(&mut self)
        requires
            old(self)@.wf(),
        ensures
            final(self)@ == forward_word_spec(old(self)@),
            final(self)@.wf(),
    {
        proof {
            reveal(forward_word_spec);
        }
        self.forward_while(false);
        self.forward_while(true);
    }

    /// Moves backward to the start of the previous word.
    pub fn backward_word(&mut self)
        requires
            old(self)@.wf(),
        ensures
            final(self)@ == backward_word_spec(old(self)@),
            final(self)@.wf(),
    {
        proof {
            reveal(backward_word_spec);
        }
        self.backward_while(false);
        self.backward_while(true);
    }

    /// Deletes `n` characters at the point.
    fn delete_chars(&mut self, n: usize)
        requires
            old(self)@.wf(),
        ensures
            final(self)@ == delete_chars_spec(old(self)@, n as nat),
            final(self)@.wf(),
        decreases n,
    {
        if n > 0 {
            self.delete_char();
            self.delete_chars(n - 1);
        }
    }

    /// Erases `n` characters before the point.
    fn erase_chars(&mut self, n: usize)
        requires
            old(self)@.wf(),
        ensures
            final(self)@ == erase_chars_spec(old(self)@, n as nat),
            final(self)@.wf(),
        decreases n,
    {
        if n > 0 {
            self.erase_char();
            self.erase_chars(n - 1);
        }
    }

    /// Where the next word ends.
    fn find_word_end(&self, i: usize, letters: bool) -> (r: usize)
        requires
            i <= self.data.len(),
        ensures
            r == word_end(self.data@, i as nat, letters),
            i <= r <= self.data.len(),
        decreases self.data.len() - i,
    {
        if i < self.data.len() && is_alpha(self.data[i]) == letters {
            self.find_word_end(i + 1, letters)
        } else {
            i
        }
    }

    /// Where the previous word starts.
    fn find_word_start(&self, i: usize, letters: bool) -> (r: usize)
        requires
            i <= self.data.len(),
        ensures
            r == word_start(self.data@, i as nat, letters),
            r <= i,
        decreases i,
    {
        if i > 0 && is_alpha(self.data[i - 1]) == letters {
            self.find_word_start(i - 1, letters)
        } else {
            i
        }
    }

    /// Deletes the next word.
    pub fn delete_word(&mut self)
        requires
            old(self)@.wf(),
        ensures
            final(self)@ == delete_word_spec(old(self)@),
            final(self)@.wf(),
    {
        proof {
            reveal(delete_word_spec);
        }
        let e1 = self.find_word_end(self.point, false);
        let end = self.find_word_end(e1, true);
        self.delete_chars(end - self.point);
    }

    /// Erases the previous word.
    pub fn erase_word(&mut self)
        requires
            old(self)@.wf(),
        ensures
            final(self)@ == erase_word_spec(old(self)@),
            final(self)@.wf(),
    {
        proof {
            reveal(erase_word_spec);
        }
        let s1 = self.find_word_start(self.point, false);
        let start = self.find_word_start(s1, true);
        self.erase_chars(self.point - start);
    }

    /// Changes the case of the letter at the point and moves past it.
    fn recase_step(&mut self, mode: u8)
        requires
            old(self)@.wf(),
            old(self).point < old(self).data.len(),
        ensures
            final(self)@ == recase_step_spec(old(self)@, mode),
            final(self)@.wf(),
    {
        let p = self.point;
        let b = self.data[p];
        let c = if mode == 0 && 97 <= b && b <= 122 {
            b - 32
        } else if mode != 0 && 65 <= b && b <= 90 {
            b + 32
        } else {
            b
        };
        self.data.set(p, c);
        self.point = p + 1;
        if self.echo == TELNET_ENABLED && self.do_echo {
            self.output_buffer.push(c);
        }
    }

    /// Changes the case of the letters from the point on.
    fn recase_run(&mut self, mode: u8)
        requires
            old(self)@.wf(),
        ensures
            final(self)@ == recase_run_spec(old(self)@, mode),
            final(self)@.wf(),
        decreases old(self).data.len() - old(self).point,
    {
        if self.point < self.data.len() && is_alpha(self.data[self.point]) {
            self.recase_step(mode);
            self.recase_run(mode);
        }
    }

    /// Draws the wrap fix at the point.
    fn finish_word(&mut self)
        requires
            old(self)@.wf(),
        ensures
            final(self)@ == finish_word_spec(old(self)@),
            final(self)@.wf(),
    {
        let p = self.point;
        if (self.prompt.len() + p) % self.width == 0 {
            if p < self.data.len() {
                let c = self.data[p];
                self.output_buffer.push(c);
                self.output_buffer.push(BACKSPACE);
            } else {
                self.output_buffer.push(SPACE);
                self.output_buffer.push(BACKSPACE);
            }
        }
    }

    /// Upper-cases the next word.
    pub fn upcase_word(&mut self)
        requires
            old(self)@.wf(),
        ensures
            final(self)@ == upcase_word_spec(old(self)@),
            final(self)@.wf(),
    {
        proof {
            reveal(upcase_word_spec);
        }
        self.forward_while(false);
        self.recase_run(0);
        self.finish_word();
    }

    /// Lower-cases the next word.
    pub fn downcase_word(&mut self)
        requires
            old(self)@.wf(),
        ensures
            final(self)@ == downcase_word_spec(old(self)@),
            final(self)@.wf(),
    {
        proof {
            reveal(downcase_word_spec);
        }
        self.forward_while(false);
        self.recase_run(1);
        self.finish_word();
    }

    /// Capitalizes the next word.
    pub fn capitalize_word(&mut self)
        requires
            old(self)@.wf(),
        ensures
            final(self)@ == capitalize_word_spec(old(self)@),
            final(self)@.wf(),
    {
        proof {
            reveal(capitalize_word_spec);
        }
        self.forward_while(false);
        if self.point < self.data.len() && is_alpha(self.data[self.point]) {
            self.recase_step(0);
        }
        self.recase_run(1);
        self.finish_word();
    }

    /// Swapping words is not supported: rings the bell.
    pub fn transpose_words(&mut self)
        ensures
            final(self)@ == old(self)@.emit(bell()),
    {
        self.output_buffer.push(7u8);
    }
}

// ---------------------------------------------------------------------------
// The byte state machine
// ---------------------------------------------------------------------------

/// The bytes sent for `IAC AYT`: "\r\n[Yes]\r\n".
pub open spec fn yes_reply() -> Seq<u8> {
    seq![13u8, 10u8, 91u8, 89u8, 101u8, 115u8, 93u8, 13u8, 10u8]
}

/// A byte after `IAC`.
pub open spec fn iac_spec(v: TelnetView, byte: u8) -> TelnetView {
    if byte == CMD_WILL {
        TelnetView { state: TelnetState::Will, ..v }
    } else if byte == CMD_WONT {
        TelnetView { state: TelnetState::Wont, ..v }
    } else if byte == CMD_DO {
        TelnetView { state: TelnetState::Do, ..v }
    } else if byte == CMD_DONT {
        TelnetView { state: TelnetState::Dont, ..v }
    } else if byte == CMD_SB {
        TelnetView { state: TelnetState::SubnegotiationBegin, ..v }
    } else {
        let v1 = if byte == CMD_AO {
            TelnetView { out: Seq::empty(), ..v }
        } else if byte == CMD_AYT {
            TelnetView { cmd: v.cmd + yes_reply(), ..v }
        } else if byte == CMD_EC {
            erase_char_spec(v)
        } else if byte == CMD_EL {
            erase_line_spec(v)
        } else if byte == IAC {
            insert_char_spec(v, IAC)
        } else {
            v
        };
        TelnetView { state: TelnetState::Data, ..v1 }
    }
}

/// A byte after ESC.
pub open spec fn escape_spec(v: TelnetView, byte: u8) -> TelnetView {
    if byte == 91 || byte == 79 {
        TelnetView { state: TelnetState::CSI, ..v }
    } else {
        let v1 = if byte == CONTROL_L {
            clear_screen_spec(v)
        } else if byte == 98 {
            backward_word_spec(v)
        } else if byte == 99 {
            capitalize_word_spec(v)
        } else if byte == 100 {
            delete_word_spec(v)
        } else if byte == 102 {
            forward_word_spec(v)
        } else if byte == 108 {
            downcase_word_spec(v)
        } else if byte == 117 {
            upcase_word_spec(v)
        } else if byte == BACKSPACE || byte == DELETE {
            erase_word_spec(v)
        } else {
            v.emit(bell())
        };
        TelnetView { state: TelnetState::Data, ..v1 }
    }
}

/// A byte after CSI (or ESC [): the cursor keys.
pub open spec fn csi_spec(v: TelnetView, byte: u8) -> TelnetView {
    let v1 = if byte == 65 {
        previous_line_spec(v)
    } else if byte == 66 {
        next_line_spec(v)
    } else if byte == 67 {
        forward_char_spec(v)
    } else if byte == 68 {
        backward_char_spec(v)
    } else {
        v.emit(bell())
    };
    TelnetView { state: TelnetState::Data, ..v1 }
}

/// A byte after Control-X: Control-E toggles remote echo.
pub open spec fn control_x_spec(v: TelnetView, byte: u8) -> TelnetView {
    let v1 = if byte == CONTROL_E {
        TelnetView {
            echo: if v.echo != TELNET_ENABLED {
                TELNET_ENABLED
            } else {
                0
            },
            ..v
        }
    } else {
        v.emit(bell())
    };
    TelnetView { state: TelnetState::Data, ..v1 }
}

/// Control-D closes an empty line when end of input closes the
/// connection.
pub open spec fn closes_on(v: TelnetView, byte: u8) -> bool {
    byte == CONTROL_D && v.close_on_eof && v.data.len() == 0
}

/// A data byte: an editing command or a character to insert; `le` and
/// `rp` are the session's last explicit and reply sendlists.
pub open spec fn data_byte_spec(v: TelnetView, byte: u8, le: Seq<u8>, rp: Seq<u8>) -> TelnetView {
    if byte == IAC {
        TelnetView { state: TelnetState::IAC, ..v }
    } else if byte == CONTROL_A {
        beginning_of_line_spec(v)
    } else if byte == CONTROL_B {
        backward_char_spec(v)
    } else if byte == CONTROL_C {
        TelnetView { state: TelnetState::ControlC, ..v }
    } else if byte == CONTROL_D {
        if closes_on(v, byte) {
            close_spec(v, true)
        } else {
            delete_char_spec(v)
        }
    } else if byte == CONTROL_E {
        end_of_line_spec(v)
    } else if byte == CONTROL_F {
        forward_char_spec(v)
    } else if byte == CONTROL_K {
        kill_line_spec(v, utf8_lossy(v.data.subrange(v.point as int, v.data.len() as int)))
    } else if byte == CONTROL_L {
        clear_screen_spec(v)
    } else if byte == CONTROL_N {
        next_line_spec(v)
    } else if byte == CONTROL_P {
        previous_line_spec(v)
    } else if byte == CONTROL_T {
        transpose_chars_spec(v)
    } else if byte == CONTROL_U {
        erase_line_spec(v)
    } else if byte == CONTROL_X {
        TelnetView { state: TelnetState::ControlX, ..v }
    } else if byte == CONTROL_Y {
        yank_spec(v)
    } else if byte == BACKSPACE || byte == DELETE {
        erase_char_spec(v)
    } else if byte == 59 {
        insert_with_prefix_spec(v, le, 59)
    } else if byte == 58 {
        insert_with_prefix_spec(v, rp, 58)
    } else if byte == RETURN {
        TelnetView { state: TelnetState::Return, ..v }
    } else if byte == NEWLINE {
        v
    } else if byte == ESCAPE {
        TelnetView { state: TelnetState::Escape, ..v }
    } else if byte == CSI {
        TelnetView { state: TelnetState::CSI, ..v }
    } else {
        insert_char_spec(v, byte)
    }
}

/// What a data byte asks of the session.
pub open spec fn data_byte_event(v: TelnetView, byte: u8) -> TelnetEvent {
    if byte == RETURN || byte == NEWLINE {
        TelnetEvent::Accept
    } else if closes_on(v, byte) {
        TelnetEvent::Close
    } else {
        TelnetEvent::Nothing
    }
}

/// A received byte, in whatever state the connection is in.
pub open spec fn process_byte_spec(v: TelnetView, byte: u8, le: Seq<u8>, rp: Seq<u8>) -> TelnetView {
    match v.state {
        TelnetState::Data => data_byte_spec(v, byte, le, rp),
        TelnetState::IAC => iac_spec(v, byte),
        TelnetState::Will => will_wont_spec(v, true, byte),
        TelnetState::Wont => will_wont_spec(v, false, byte),
        TelnetState::Do => do_dont_spec(v, true, byte),
        TelnetState::Dont => do_dont_spec(v, false, byte),
        TelnetState::SubnegotiationBegin => subnegotiation_spec(v, byte),
        TelnetState::SubnegotiationEnd => subnegotiation_spec(v, byte),
        TelnetState::Return => {
            let v1 = TelnetView { state: TelnetState::Data, ..v };
            if byte != NEWLINE {
                data_byte_spec(v1, byte, le, rp)
            } else {
                v1
            }
        },
        TelnetState::Escape => escape_spec(v, byte),
        TelnetState::CSI => csi_spec(v, byte),
        TelnetState::ControlX => control_x_spec(v, byte),
        _ => compose_spec(v, byte),
    }
}

/// What a received byte asks of the session.
pub open spec fn process_byte_event(v: TelnetView, byte: u8) -> TelnetEvent {
    match v.state {
        TelnetState::Data => data_byte_event(v, byte),
        TelnetState::Return => if byte != NEWLINE {
            data_byte_event(v, byte)
        } else {
            TelnetEvent::Nothing
        },
        TelnetState::Will => if byte == OPT_TIMING_MARK && v.acknowledge {
            TelnetEvent::AcknowledgeOutput
        } else {
            TelnetEvent::Nothing
        },
        TelnetState::Wont => if byte == OPT_TIMING_MARK && v.acknowledge {
            TelnetEvent::AcknowledgeOutput
        } else {
            TelnetEvent::Nothing
        },
        _ => TelnetEvent::Nothing,
    }
}

impl Telnet {
    /// Handles a byte after `IAC`.
    #[verifier::rlimit(100)]
    pub fn process_iac(&mut self, byte: u8)
        requires
            old(self)@.wf(),
        ensures
            final(self)@ == iac_spec(old(self)@, byte),
            final(self)@.wf(),
    {
        if byte == CMD_WILL {
            self.state = TelnetState::Will;
        } else if byte == CMD_WONT {
            self.state = TelnetState::Wont;
        } else if byte == CMD_DO {
            self.state = TelnetState::Do;
        } else if byte == CMD_DONT {
            self.state = TelnetState::Dont;
        } else if byte == CMD_SB {
            self.state = TelnetState::SubnegotiationBegin;
        } else {
            if byte == CMD_AO {
                self.output_buffer.clear();
            } else if byte == CMD_AYT {
                self.command_buffer.push(13u8);
                self.command_buffer.push(10u8);
                self.command_buffer.push(91u8);
                self.command_buffer.push(89u8);
                self.command_buffer.push(101u8);
                self.command_buffer.push(115u8);
                self.command_buffer.push(93u8);
                self.command_buffer.push(13u8);
                self.command_buffer.push(10u8);
            } else if byte == CMD_EC {
                self.erase_char();
            } else if byte == CMD_EL {
                self.erase_line();
            } else if byte == IAC {
                self.insert_char(IAC);
            }
            self.state = TelnetState::Data;
        }
    }

    /// Handles a byte after ESC.
    #[verifier::rlimit(100)]
    pub fn process_escape(&mut self, byte: u8)
        requires
            old(self)@.wf(),
        ensures
            final(self)@ == escape_spec(old(self)@, byte),
            final(self)@.wf(),
    {
        if byte == 91 || byte == 79 {
            self.state = TelnetState::CSI;
            return;
        }
        if byte == CONTROL_L {
            self.clear_screen();
        } else if byte == 98 {
            self.backward_word();
        } else if byte == 99 {
            self.capitalize_word();
        } else if byte == 100 {
            self.delete_word();
        } else if byte == 102 {
            self.forward_word();
        } else if byte == 108 {
            self.downcase_word();
        } else if byte == 117 {
            self.upcase_word();
        } else if byte == BACKSPACE || byte == DELETE {
            self.erase_word();
        } else {
            self.output_buffer.push(7u8);
        }
        self.state = TelnetState::Data;
    }

    /// Handles a byte after CSI.
    #[verifier::rlimit(100)]
    pub fn process_csi(&mut self, byte: u8)
        requires
            old(self)@.wf(),
        ensures
            final(self)@ == csi_spec(old(self)@, byte),
            final(self)@.wf(),
    {
        if byte == 65 {
            self.previous_line();
        } else if byte == 66 {
            self.next_line();
        } else if byte == 67 {
            self.forward_char();
        } else if byte == 68 {
            self.backward_char();
        } else {
            self.output_buffer.push(7u8);
        }
        self.state = TelnetState::Data;
    }

    /// Handles a byte after Control-X.
    pub fn process_control_x(&mut self, byte: u8)
        requires
            old(self)@.wf(),
        ensures
            final(self)@ == control_x_spec(old(self)@, byte),
            final(self)@.wf(),
    {
        if byte == CONTROL_E {
            self.echo = if self.echo != TELNET_ENABLED {
                TELNET_ENABLED
            } else {
                0
            };
        } else {
            self.output_buffer.push(7u8);
        }
        self.state = TelnetState::Data;
    }
}

impl Telnet {
    /// Handles a data byte: an editing command or a character to insert;
    /// `last_explicit` and `reply` are the session's last explicit and
    /// reply sendlists, put before a semicolon or colon typed on an empty
    /// line.
    #[verifier::rlimit(100)]
    pub fn process_data_byte(&mut self, byte: u8, last_explicit: &str, reply: &str) -> (e: TelnetEvent)
        requires
            old(self)@.wf(),
        ensures
            final(self)@ == data_byte_spec(old(self)@, byte, last_explicit.spec_bytes(), reply.spec_bytes()),
            e == data_byte_event(old(self)@, byte),
            final(self)@.wf(),
    {
        if byte == IAC {
            self.state = TelnetState::IAC;
        } else if byte == CONTROL_A {
            self.beginning_of_line();
        } else if byte == CONTROL_B {
            self.backward_char();
        } else if byte == CONTROL_C {
            self.state = TelnetState::ControlC;
        } else if byte == CONTROL_D {
            if self.close_on_eof && self.data.len() == 0 {
                self.close_begin(true);
                return TelnetEvent::Close;
            } else {
                self.delete_char();
            }
        } else if byte == CONTROL_E {
            self.end_of_line();
        } else if byte == CONTROL_F {
            self.forward_char();
        } else if byte == CONTROL_K {
            self.kill_line();
        } else if byte == CONTROL_L {
            self.clear_screen();
        } else if byte == CONTROL_N {
            self.next_line();
        } else if byte == CONTROL_P {
            self.previous_line();
        } else if byte == CONTROL_T {
            self.transpose_chars();
        } else if byte == CONTROL_U {
            self.erase_line();
        } else if byte == CONTROL_X {
            self.state = TelnetState::ControlX;
        } else if byte == CONTROL_Y {
            self.yank();
        } else if byte == BACKSPACE || byte == DELETE {
            self.erase_char();
        } else if byte == 59 {
            self.do_semicolon(last_explicit);
        } else if byte == 58 {
            self.do_colon(reply);
        } else if byte == RETURN {
            self.state = TelnetState::Return;
            return TelnetEvent::Accept;
        } else if byte == NEWLINE {
            return TelnetEvent::Accept;
        } else if byte == ESCAPE {
            self.state = TelnetState::Escape;
        } else if byte == CSI {
            self.state = TelnetState::CSI;
        } else {
            self.insert_char(byte);
        }
        TelnetEvent::Nothing
    }

    /// Handles a received byte in whatever state the connection is in,
    /// and says what the session is to do about it.
    pub fn process_byte(&mut self, byte: u8, last_explicit: &str, reply: &str) -> (e: TelnetEvent)
        requires
            old(self)@.wf(),
        ensures
            final(self)@ == process_byte_spec(old(self)@, byte, last_explicit.spec_bytes(), reply.spec_bytes()),
            e == process_byte_event(old(self)@, byte),
            final(self)@.wf(),
    {
        match self.state {
            TelnetState::Data => self.process_data_byte(byte, last_explicit, reply),
            TelnetState::IAC => {
                self.process_iac(byte);
                TelnetEvent::Nothing
            },
            TelnetState::Will => {
                if self.process_will_wont(true, byte) {
                    TelnetEvent::AcknowledgeOutput
                } else {
                    TelnetEvent::Nothing
                }
            },
            TelnetState::Wont => {
                if self.process_will_wont(false, byte) {
                    TelnetEvent::AcknowledgeOutput
                } else {
                    TelnetEvent::Nothing
                }
            },
            TelnetState::Do => {
                self.process_do_dont(true, byte);
                TelnetEvent::Nothing
            },
            TelnetState::Dont => {
                self.process_do_dont(false, byte);
                TelnetEvent::Nothing
            },
            TelnetState::SubnegotiationBegin => {
                self.process_subnegotiation(byte);
                TelnetEvent::Nothing
            },
            TelnetState::SubnegotiationEnd => {
                self.process_subnegotiation(byte);
                TelnetEvent::Nothing
            },
            TelnetState::Return => {
                self.state = TelnetState::Data;
                if byte != NEWLINE {
                    self.process_data_byte(byte, last_explicit, reply)
                } else {
                    TelnetEvent::Nothing
                }
            },
            TelnetState::Escape => {
                self.process_escape(byte);
                TelnetEvent::Nothing
            },
            TelnetState::CSI => {
                self.process_csi(byte);
                TelnetEvent::Nothing
            },
            TelnetState::ControlX => {
                self.process_control_x(byte);
                TelnetEvent::Nothing
            },
            _ => {
                self.process_compose(byte);
                TelnetEvent::Nothing
            },
        }
    }
}

} // verus!
