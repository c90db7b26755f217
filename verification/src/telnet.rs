//! The TELNET protocol engine and the input line editor.
//!
//! `Telnet` holds the whole state of one connection's protocol and input
//! line: option negotiation, subnegotiation, the byte-level state machine,
//! the input buffer with its point, history and kill ring, and the bytes
//! queued for the client.  The network side hands it every received byte
//! and writes out what it queued; the few things that need the session
//! (accepting a line, closing, acknowledging output) are reported back as
//! events.

use vstd::prelude::*;
use crate::chars::{str_chars, string_from_chars};
use vstd::string::StringSliceAdditionalSpecFns;

verus! {

// ---------------------------------------------------------------------------
// Byte constants
// ---------------------------------------------------------------------------

pub const NULL: u8 = 0;
pub const CONTROL_A: u8 = 1;
pub const CONTROL_B: u8 = 2;
pub const CONTROL_C: u8 = 3;
pub const CONTROL_D: u8 = 4;
pub const CONTROL_E: u8 = 5;
pub const CONTROL_F: u8 = 6;
pub const BACKSPACE: u8 = 8;
pub const CONTROL_I: u8 = 9;
pub const NEWLINE: u8 = 10;
pub const CONTROL_K: u8 = 11;
pub const CONTROL_L: u8 = 12;
pub const RETURN: u8 = 13;
pub const CONTROL_N: u8 = 14;
pub const CONTROL_O: u8 = 15;
pub const CONTROL_P: u8 = 16;
pub const CONTROL_T: u8 = 20;
pub const CONTROL_U: u8 = 21;
pub const CONTROL_X: u8 = 24;
pub const CONTROL_Y: u8 = 25;
pub const ESCAPE: u8 = 27;
pub const SPACE: u8 = 32;
pub const DELETE: u8 = 127;
pub const CSI: u8 = 155;
pub const NBSP: u8 = 160;
pub const Y_UMLAUT_LOWER: u8 = 255;

/// The TELNET "interpret as command" byte.
pub const IAC: u8 = 255;

// Telnet option bits
pub const TELNET_WILL_WONT: u8 = 1;
pub const TELNET_DO_DONT: u8 = 2;
pub const TELNET_ENABLED: u8 = 3;

// Terminal defaults
pub const DEFAULT_WIDTH: usize = 80;
pub const MINIMUM_WIDTH: usize = 10;
pub const DEFAULT_HEIGHT: usize = 24;
pub const HISTORY_MAX: usize = 200;
pub const KILL_RING_MAX: usize = 1;

// ---------------------------------------------------------------------------
// Commands, options and states
// ---------------------------------------------------------------------------

/// TELNET commands.
#[derive(Debug, Clone, Copy, PartialEq, Eq, Structural)]
pub enum TelnetCommand {
    SubnegotiationEnd,
    NOP,
    DataMark,
    Break,
    InterruptProcess,
    AbortOutput,
    AreYouThere,
    EraseCharacter,
    EraseLine,
    GoAhead,
    SubnegotiationBegin,
    Will,
    Wont,
    Do,
    Dont,
    IAC,
}

impl TelnetCommand {
    /// The command's byte on the wire.
    pub open spec fn code_spec(self) -> u8 {
        match self {
            TelnetCommand::SubnegotiationEnd => 240,
            TelnetCommand::NOP => 241,
            TelnetCommand::DataMark => 242,
            TelnetCommand::Break => 243,
            TelnetCommand::InterruptProcess => 244,
            TelnetCommand::AbortOutput => 245,
            TelnetCommand::AreYouThere => 246,
            TelnetCommand::EraseCharacter => 247,
            TelnetCommand::EraseLine => 248,
            TelnetCommand::GoAhead => 249,
            TelnetCommand::SubnegotiationBegin => 250,
            TelnetCommand::Will => 251,
            TelnetCommand::Wont => 252,
            TelnetCommand::Do => 253,
            TelnetCommand::Dont => 254,
            TelnetCommand::IAC => 255,
        }
    }

    /// The command's byte on the wire.
    pub fn code(self) -> (r: u8)
        ensures
            r == self.code_spec(),
    {
        match self {
            TelnetCommand::SubnegotiationEnd => 240,
            TelnetCommand::NOP => 241,
            TelnetCommand::DataMark => 242,
            TelnetCommand::Break => 243,
            TelnetCommand::InterruptProcess => 244,
            TelnetCommand::AbortOutput => 245,
            TelnetCommand::AreYouThere => 246,
            TelnetCommand::EraseCharacter => 247,
            TelnetCommand::EraseLine => 248,
            TelnetCommand::GoAhead => 249,
            TelnetCommand::SubnegotiationBegin => 250,
            TelnetCommand::Will => 251,
            TelnetCommand::Wont => 252,
            TelnetCommand::Do => 253,
            TelnetCommand::Dont => 254,
            TelnetCommand::IAC => 255,
        }
    }
}

/// TELNET options.
#[derive(Debug, Clone, Copy, PartialEq, Eq, Structural)]
pub enum TelnetOption {
    TransmitBinary,
    Echo,
    SuppressGoAhead,
    TimingMark,
    NAWS,
}

impl TelnetOption {
    /// The option's byte on the wire.
    pub open spec fn code_spec(self) -> u8 {
        match self {
            TelnetOption::TransmitBinary => 0,
            TelnetOption::Echo => 1,
            TelnetOption::SuppressGoAhead => 3,
            TelnetOption::TimingMark => 6,
            TelnetOption::NAWS => 31,
        }
    }

    /// The option's byte on the wire.
    pub fn code(self) -> (r: u8)
        ensures
            r == self.code_spec(),
    {
        match self {
            TelnetOption::TransmitBinary => 0,
            TelnetOption::Echo => 1,
            TelnetOption::SuppressGoAhead => 3,
            TelnetOption::TimingMark => 6,
            TelnetOption::NAWS => 31,
        }
    }
}

pub const OPT_BINARY: u8 = 0;
pub const OPT_ECHO: u8 = 1;
pub const OPT_SGA: u8 = 3;
pub const OPT_TIMING_MARK: u8 = 6;
pub const OPT_NAWS: u8 = 31;

pub const CMD_SE: u8 = 240;
pub const CMD_AO: u8 = 245;
pub const CMD_AYT: u8 = 246;
pub const CMD_EC: u8 = 247;
pub const CMD_EL: u8 = 248;
pub const CMD_SB: u8 = 250;
pub const CMD_WILL: u8 = 251;
pub const CMD_WONT: u8 = 252;
pub const CMD_DO: u8 = 253;
pub const CMD_DONT: u8 = 254;

/// Name of a TELNET command byte, for debugging output.
pub open spec fn command_name_spec(cmd: u8) -> Seq<char> {
    if cmd == 240 {
        "SE"@
    } else if cmd == 241 {
        "NOP"@
    } else if cmd == 242 {
        "DATA_MARK"@
    } else if cmd == 243 {
        "BREAK"@
    } else if cmd == 244 {
        "IP"@
    } else if cmd == 245 {
        "AO"@
    } else if cmd == 246 {
        "AYT"@
    } else if cmd == 247 {
        "EC"@
    } else if cmd == 248 {
        "EL"@
    } else if cmd == 249 {
        "GA"@
    } else if cmd == 250 {
        "SB"@
    } else if cmd == 251 {
        "WILL"@
    } else if cmd == 252 {
        "WONT"@
    } else if cmd == 253 {
        "DO"@
    } else if cmd == 254 {
        "DONT"@
    } else if cmd == 255 {
        "IAC"@
    } else {
        "UNKNOWN"@
    }
}

/// Name of a TELNET command byte, for debugging output.
pub fn telnet_command_name(cmd: u8) -> (r: &'static str)
    ensures
        r@ == command_name_spec(cmd),
{
    match cmd {
        240 => "SE",
        241 => "NOP",
        242 => "DATA_MARK",
        243 => "BREAK",
        244 => "IP",
        245 => "AO",
        246 => "AYT",
        247 => "EC",
        248 => "EL",
        249 => "GA",
        250 => "SB",
        251 => "WILL",
        252 => "WONT",
        253 => "DO",
        254 => "DONT",
        255 => "IAC",
        _ => "UNKNOWN",
    }
}

/// Name of a TELNET option byte, for debugging output.
pub open spec fn option_name_spec(opt: u8) -> Seq<char> {
    if opt == 0 {
        "TRANSMIT_BINARY"@
    } else if opt == 1 {
        "ECHO"@
    } else if opt == 3 {
        "SUPPRESS_GO_AHEAD"@
    } else if opt == 6 {
        "TIMING_MARK"@
    } else if opt == 31 {
        "NAWS"@
    } else {
        "UNKNOWN"@
    }
}

/// Name of a TELNET option byte, for debugging output.
pub fn telnet_option_name(opt: u8) -> (r: &'static str)
    ensures
        r@ == option_name_spec(opt),
{
    match opt {
        0 => "TRANSMIT_BINARY",
        1 => "ECHO",
        3 => "SUPPRESS_GO_AHEAD",
        6 => "TIMING_MARK",
        31 => "NAWS",
        _ => "UNKNOWN",
    }
}

/// States of the input byte state machine.
#[derive(Debug, Clone, Copy, PartialEq, Eq, Structural)]
pub enum TelnetState {
    Data,
    IAC,
    Will,
    Wont,
    Do,
    Dont,
    SubnegotiationBegin,
    SubnegotiationEnd,
    Return,
    Escape,
    CSI,
    ControlC,
    ControlX,
    ControlI,
    ControlL,
    ControlO,
    Umlaut,
    Backquote,
    AcuteAccent,
    Carat,
    Tilde,
    Slash,
    Cedilla,
    DegreeSign,
}

impl TelnetState {
    /// The state's number.
    pub open spec fn code_spec(self) -> u8 {
        match self {
            TelnetState::Data => 0,
            TelnetState::IAC => 1,
            TelnetState::Will => 2,
            TelnetState::Wont => 3,
            TelnetState::Do => 4,
            TelnetState::Dont => 5,
            TelnetState::SubnegotiationBegin => 6,
            TelnetState::SubnegotiationEnd => 7,
            TelnetState::Return => 8,
            TelnetState::Escape => 9,
            TelnetState::CSI => 10,
            TelnetState::ControlC => 11,
            TelnetState::ControlX => 12,
            TelnetState::ControlI => 13,
            TelnetState::ControlL => 14,
            TelnetState::ControlO => 15,
            TelnetState::Umlaut => 16,
            TelnetState::Backquote => 17,
            TelnetState::AcuteAccent => 18,
            TelnetState::Carat => 19,
            TelnetState::Tilde => 20,
            TelnetState::Slash => 21,
            TelnetState::Cedilla => 22,
            TelnetState::DegreeSign => 23,
        }
    }

    /// The state with the given number; numbers past the last state give
    /// `Data`.
    pub open spec fn from_u8_spec(n: u8) -> TelnetState {
        if n == 1 {
            TelnetState::IAC
        } else if n == 2 {
            TelnetState::Will
        } else if n == 3 {
            TelnetState::Wont
        } else if n == 4 {
            TelnetState::Do
        } else if n == 5 {
            TelnetState::Dont
        } else if n == 6 {
            TelnetState::SubnegotiationBegin
        } else if n == 7 {
            TelnetState::SubnegotiationEnd
        } else if n == 8 {
            TelnetState::Return
        } else if n == 9 {
            TelnetState::Escape
        } else if n == 10 {
            TelnetState::CSI
        } else if n == 11 {
            TelnetState::ControlC
        } else if n == 12 {
            TelnetState::ControlX
        } else if n == 13 {
            TelnetState::ControlI
        } else if n == 14 {
            TelnetState::ControlL
        } else if n == 15 {
            TelnetState::ControlO
        } else if n == 16 {
            TelnetState::Umlaut
        } else if n == 17 {
            TelnetState::Backquote
        } else if n == 18 {
            TelnetState::AcuteAccent
        } else if n == 19 {
            TelnetState::Carat
        } else if n == 20 {
            TelnetState::Tilde
        } else if n == 21 {
            TelnetState::Slash
        } else if n == 22 {
            TelnetState::Cedilla
        } else if n == 23 {
            TelnetState::DegreeSign
        } else {
            TelnetState::Data
        }
    }

    /// The state's number.
    pub fn to_u8(self) -> (r: u8)
        ensures
            r == self.code_spec(),
    {
        match self {
            TelnetState::Data => 0,
            TelnetState::IAC => 1,
            TelnetState::Will => 2,
            TelnetState::Wont => 3,
            TelnetState::Do => 4,
            TelnetState::Dont => 5,
            TelnetState::SubnegotiationBegin => 6,
            TelnetState::SubnegotiationEnd => 7,
            TelnetState::Return => 8,
            TelnetState::Escape => 9,
            TelnetState::CSI => 10,
            TelnetState::ControlC => 11,
            TelnetState::ControlX => 12,
            TelnetState::ControlI => 13,
            TelnetState::ControlL => 14,
            TelnetState::ControlO => 15,
            TelnetState::Umlaut => 16,
            TelnetState::Backquote => 17,
            TelnetState::AcuteAccent => 18,
            TelnetState::Carat => 19,
            TelnetState::Tilde => 20,
            TelnetState::Slash => 21,
            TelnetState::Cedilla => 22,
            TelnetState::DegreeSign => 23,
        }
    }

    /// The state with the given number; numbers past the last state give
    /// `Data`.
    pub fn from_u8(n: u8) -> (r: Self)
        ensures
            r == Self::from_u8_spec(n),
    {
        match n {
            1 => Self::IAC,
            2 => Self::Will,
            3 => Self::Wont,
            4 => Self::Do,
            5 => Self::Dont,
            6 => Self::SubnegotiationBegin,
            7 => Self::SubnegotiationEnd,
            8 => Self::Return,
            9 => Self::Escape,
            10 => Self::CSI,
            11 => Self::ControlC,
            12 => Self::ControlX,
            13 => Self::ControlI,
            14 => Self::ControlL,
            15 => Self::ControlO,
            16 => Self::Umlaut,
            17 => Self::Backquote,
            18 => Self::AcuteAccent,
            19 => Self::Carat,
            20 => Self::Tilde,
            21 => Self::Slash,
            22 => Self::Cedilla,
            23 => Self::DegreeSign,
            _ => Self::Data,
        }
    }
}

/// Every state survives the round trip through its number.
pub proof fn lemma_telnet_state_roundtrip(s: TelnetState)
    ensures
        TelnetState::from_u8_spec(s.code_spec()) == s,
{
}

/// States of a subnegotiation sequence.
#[derive(Debug, Clone, Copy, PartialEq, Eq, Structural)]
pub enum TelnetSubnegotiationState {
    Idle,
    NAWSWidthHigh,
    NAWSWidthLow,
    NAWSHeightHigh,
    NAWSHeightLow,
    NAWSDone,
    Unknown,
}

impl TelnetSubnegotiationState {
    /// The state's number.
    pub open spec fn code_spec(self) -> u8 {
        match self {
            TelnetSubnegotiationState::Idle => 0,
            TelnetSubnegotiationState::NAWSWidthHigh => 1,
            TelnetSubnegotiationState::NAWSWidthLow => 2,
            TelnetSubnegotiationState::NAWSHeightHigh => 3,
            TelnetSubnegotiationState::NAWSHeightLow => 4,
            TelnetSubnegotiationState::NAWSDone => 5,
            TelnetSubnegotiationState::Unknown => 6,
        }
    }

    /// The state with the given number; numbers past the last state give
    /// `Idle`.
    pub open spec fn from_u8_spec(n: u8) -> TelnetSubnegotiationState {
        if n == 1 {
            TelnetSubnegotiationState::NAWSWidthHigh
        } else if n == 2 {
            TelnetSubnegotiationState::NAWSWidthLow
        } else if n == 3 {
            TelnetSubnegotiationState::NAWSHeightHigh
        } else if n == 4 {
            TelnetSubnegotiationState::NAWSHeightLow
        } else if n == 5 {
            TelnetSubnegotiationState::NAWSDone
        } else if n == 6 {
            TelnetSubnegotiationState::Unknown
        } else {
            TelnetSubnegotiationState::Idle
        }
    }

    /// The state's number.
    pub fn to_u8(self) -> (r: u8)
        ensures
            r == self.code_spec(),
    {
        match self {
            TelnetSubnegotiationState::Idle => 0,
            TelnetSubnegotiationState::NAWSWidthHigh => 1,
            TelnetSubnegotiationState::NAWSWidthLow => 2,
            TelnetSubnegotiationState::NAWSHeightHigh => 3,
            TelnetSubnegotiationState::NAWSHeightLow => 4,
            TelnetSubnegotiationState::NAWSDone => 5,
            TelnetSubnegotiationState::Unknown => 6,
        }
    }

    /// The state with the given number; numbers past the last state give
    /// `Idle`.
    pub fn from_u8(n: u8) -> (r: Self)
        ensures
            r == Self::from_u8_spec(n),
    {
        match n {
            1 => Self::NAWSWidthHigh,
            2 => Self::NAWSWidthLow,
            3 => Self::NAWSHeightHigh,
            4 => Self::NAWSHeightLow,
            5 => Self::NAWSDone,
            6 => Self::Unknown,
            _ => Self::Idle,
        }
    }
}

/// Every subnegotiation state survives the round trip through its number.
pub proof fn lemma_subnegotiation_state_roundtrip(s: TelnetSubnegotiationState)
    ensures
        TelnetSubnegotiationState::from_u8_spec(s.code_spec()) == s,
{
}

// ---------------------------------------------------------------------------
// Output encoding
// ---------------------------------------------------------------------------

/// How one byte of text goes on the wire: IAC is doubled, a carriage
/// return is followed by NUL and a newline becomes CR LF.
pub open spec fn esc_byte(b: u8) -> Seq<u8> {
    if b == IAC {
        seq![IAC, IAC]
    } else if b == RETURN {
        seq![RETURN, NULL]
    } else if b == NEWLINE {
        seq![RETURN, NEWLINE]
    } else {
        seq![b]
    }
}

/// How a byte string of text goes on the wire.
pub open spec fn escape(s: Seq<u8>) -> Seq<u8>
    decreases s.len(),
{
    if s.len() == 0 {
        Seq::empty()
    } else {
        escape(s.drop_last()) + esc_byte(s.last())
    }
}

/// The decimal digits of a number.
pub open spec fn dec(n: nat) -> Seq<u8>
    decreases n,
{
    if n < 10 {
        seq![(n + 48) as u8]
    } else {
        dec(n / 10).push(((n % 10) + 48) as u8)
    }
}

/// The ANSI control sequence `ESC [ n c`.
pub open spec fn csi_seq(n: nat, c: u8) -> Seq<u8> {
    seq![ESCAPE, 91u8] + dec(n) + seq![c]
}

/// Cursor motion by `lines` lines, `ESC [ lines c`, or nothing.
pub open spec fn vert(lines: int, c: u8) -> Seq<u8> {
    if lines > 0 {
        csi_seq(lines as nat, c)
    } else {
        Seq::empty()
    }
}

/// Cursor motion by `cols` columns: `pos` for a positive count and `neg`
/// for a negative one.
pub open spec fn horiz(cols: int, pos: u8, neg: u8) -> Seq<u8> {
    if cols > 0 {
        csi_seq(cols as nat, pos)
    } else if cols < 0 {
        csi_seq((-cols) as nat, neg)
    } else {
        Seq::empty()
    }
}

/// Appends the decimal digits of `n`.
pub fn push_dec(v: &mut Vec<u8>, n: usize)
    ensures
        final(v)@ == old(v)@ + dec(n as nat),
    decreases n,
{
    if n < 10 {
        let d: u8 = (n as u8) + 48;
        v.push(d);
        assert(dec(n as nat) == seq![((n as nat) + 48) as u8]);
    } else {
        push_dec(v, n / 10);
        let d: u8 = ((n % 10) as u8) + 48;
        v.push(d);
        assert(dec(n as nat) == dec((n / 10) as nat).push((((n as nat) % 10) + 48) as u8));
    }
}

/// Appends `ESC [ n c`.
pub fn push_csi(v: &mut Vec<u8>, n: usize, c: u8)
    ensures
        final(v)@ == old(v)@ + csi_seq(n as nat, c),
{
    v.push(ESCAPE);
    v.push(91u8);
    push_dec(v, n);
    v.push(c);
    assert(final(v)@ =~= old(v)@ + csi_seq(n as nat, c));
}

/// Appends the cursor motion from column `from` to column `to`: `pos`
/// moves when `to` is the larger and `neg` when `from` is.
pub fn push_horiz(v: &mut Vec<u8>, to: usize, from: usize, pos: u8, neg: u8)
    ensures
        final(v)@ == old(v)@ + horiz(to - from, pos, neg),
{
    if to > from {
        push_csi(v, to - from, pos);
    } else if to < from {
        push_csi(v, from - to, neg);
    } else {
        assert(old(v)@ + horiz(to - from, pos, neg) == old(v)@);
    }
}

/// Appends the cursor motion for `lines` lines.
pub fn push_vert(v: &mut Vec<u8>, lines: usize, c: u8)
    ensures
        final(v)@ == old(v)@ + vert(lines as int, c),
{
    if lines > 0 {
        push_csi(v, lines, c);
    } else {
        assert(old(v)@ + vert(lines as int, c) == old(v)@);
    }
}

/// Appends the wire form of text bytes.
pub fn push_escaped(v: &mut Vec<u8>, s: &[u8])
    ensures
        final(v)@ == old(v)@ + escape(s@),
{
    let mut i: usize = 0;
    while i < s.len()
        invariant
            i <= s.len(),
            v@ == old(v)@ + escape(s@.subrange(0, i as int)),
        decreases s.len() - i,
    {
        let b = s[i];
        proof {
            let t = s@.subrange(0, i + 1);
            assert(t.drop_last() == s@.subrange(0, i as int));
            assert(t.last() == b);
        }
        if b == IAC {
            v.push(IAC);
            v.push(IAC);
        } else if b == RETURN {
            v.push(RETURN);
            v.push(NULL);
        } else if b == NEWLINE {
            v.push(RETURN);
            v.push(NEWLINE);
        } else {
            v.push(b);
        }
        i += 1;
    }
    assert(s@.subrange(0, s.len() as int) == s@);
}

} // verus!

verus! {

// ---------------------------------------------------------------------------
// The connection state
// ---------------------------------------------------------------------------

/// What the protocol engine asks of the session after a byte.
#[derive(Debug, Clone, Copy, PartialEq, Eq, Structural)]
pub enum TelnetEvent {
    /// Nothing to do.
    Nothing,
    /// An input line is complete: accept it (`accept_input_begin`, then the
    /// session's own steps, then `accept_input_end`).
    Accept,
    /// The client ended input on an empty line before login: close the
    /// connection, draining output first.
    Close,
    /// A timing mark came back while output was being acknowledged.
    AcknowledgeOutput,
}

/// The protocol and input-line state of one TELNET connection.
pub struct Telnet {
    pub state: TelnetState,
    pub sb_state: TelnetSubnegotiationState,
    pub echo: u8,
    pub lsga: u8,
    pub rsga: u8,
    pub lbin: u8,
    pub rbin: u8,
    pub naws: u8,
    pub width: usize,
    pub height: usize,
    pub naws_width: usize,
    pub naws_height: usize,
    pub outstanding: usize,
    pub acknowledge: bool,
    pub welcome_sent: bool,
    pub closing: bool,
    pub close_on_eof: bool,
    pub do_echo: bool,
    pub undrawn: bool,
    pub data: Vec<u8>,
    pub point: usize,
    pub mark: Option<usize>,
    pub prompt: Vec<u8>,
    pub history: Vec<String>,
    pub history_position: Option<usize>,
    pub kill_ring: Vec<String>,
    pub output_buffer: Vec<u8>,
    pub command_buffer: Vec<u8>,
}

/// The mathematical state of a connection.
#[verifier::ext_equal]
pub ghost struct TelnetView {
    pub state: TelnetState,
    pub sb_state: TelnetSubnegotiationState,
    pub echo: u8,
    pub lsga: u8,
    pub rsga: u8,
    pub lbin: u8,
    pub rbin: u8,
    pub naws: u8,
    pub width: nat,
    pub height: nat,
    pub naws_width: nat,
    pub naws_height: nat,
    pub outstanding: usize,
    pub acknowledge: bool,
    pub welcome_sent: bool,
    pub closing: bool,
    pub close_on_eof: bool,
    pub do_echo: bool,
    pub undrawn: bool,
    pub data: Seq<u8>,
    pub point: nat,
    pub mark: Option<usize>,
    pub prompt: Seq<u8>,
    pub history: Seq<Seq<char>>,
    pub history_position: Option<usize>,
    pub kill_ring: Seq<Seq<char>>,
    pub out: Seq<u8>,
    pub cmd: Seq<u8>,
}

impl View for Telnet {
    type V = TelnetView;

    open spec fn view(&self) -> TelnetView {
        TelnetView {
            state: self.state,
            sb_state: self.sb_state,
            echo: self.echo,
            lsga: self.lsga,
            rsga: self.rsga,
            lbin: self.lbin,
            rbin: self.rbin,
            naws: self.naws,
            width: self.width as nat,
            height: self.height as nat,
            naws_width: self.naws_width as nat,
            naws_height: self.naws_height as nat,
            outstanding: self.outstanding,
            acknowledge: self.acknowledge,
            welcome_sent: self.welcome_sent,
            closing: self.closing,
            close_on_eof: self.close_on_eof,
            do_echo: self.do_echo,
            undrawn: self.undrawn,
            data: self.data@,
            point: self.point as nat,
            mark: self.mark,
            prompt: self.prompt@,
            history: texts(self.history@),
            history_position: self.history_position,
            kill_ring: texts(self.kill_ring@),
            out: self.output_buffer@,
            cmd: self.command_buffer@,
        }
    }
}

/// The text of each string.
#[verifier::opaque]
pub open spec fn texts(v: Seq<String>) -> Seq<Seq<char>> {
    v.map_values(|s: String| s@)
}

/// What `texts` gives, element by element.
pub proof fn lemma_texts(v: Seq<String>)
    ensures
        texts(v).len() == v.len(),
        forall|i: int| 0 <= i < v.len() ==> #[trigger] texts(v)[i] == v[i]@,
{
    reveal(texts);
}

/// `texts` after a push.
pub proof fn lemma_texts_push(v: Seq<String>, x: String)
    ensures
        texts(v.push(x)) == texts(v).push(x@),
{
    reveal(texts);
    assert(texts(v.push(x)) =~= texts(v).push(x@));
}

/// `texts` after the first string is dropped.
pub proof fn lemma_texts_drop_first(v: Seq<String>)
    requires
        v.len() > 0,
    ensures
        texts(v.remove(0)) == texts(v).drop_first(),
{
    reveal(texts);
    assert(texts(v.remove(0)) =~= texts(v).drop_first());
}

/// The largest input line or prompt (in bytes) that a `Vec` can hold.
pub open spec fn max_len() -> nat {
    isize::MAX as nat
}

impl TelnetView {
    /// The invariant of a connection's state.
    pub open spec fn wf(self) -> bool {
        &&& 1 <= self.width <= max_len()
        &&& self.naws_width <= 0xffff
        &&& self.naws_height <= 0xffff
        &&& (self.sb_state == TelnetSubnegotiationState::NAWSWidthLow ==> self.naws_width <= 0xff00)
        &&& (self.sb_state == TelnetSubnegotiationState::NAWSHeightLow ==> self.naws_height <= 0xff00)
        &&& self.point <= self.data.len()
        &&& self.data.len() <= max_len()
        &&& self.prompt.len() <= max_len()
        &&& self.history.len() <= HISTORY_MAX
        &&& self.kill_ring.len() <= KILL_RING_MAX
        &&& (self.history_position matches Some(p) ==> p < self.history.len())
    }

    /// Input is echoed back to the client.
    pub open spec fn echoing(self) -> bool {
        self.echo == TELNET_ENABLED && self.do_echo
    }

    /// Screen column of position `i` of the input line.
    pub open spec fn col(self, i: nat) -> int {
        ((self.prompt.len() + i) % self.width) as int
    }

    /// Screen line (relative to the prompt's first line) of position `i`.
    pub open spec fn line(self, i: nat) -> int {
        ((self.prompt.len() + i) / self.width) as int
    }

    /// Appends bytes to the output queue.
    pub open spec fn emit(self, s: Seq<u8>) -> TelnetView {
        TelnetView { out: self.out + s, ..self }
    }
}

/// The bell.
pub open spec fn bell() -> Seq<u8> {
    seq![7u8]
}

/// "\r\n" on the wire: CR NUL CR LF.
pub open spec fn crlf_escaped() -> Seq<u8> {
    seq![RETURN, NULL, RETURN, NEWLINE]
}

/// A byte that the line editor accepts into the input line: printable
/// ASCII or Latin-1.
pub open spec fn insertable(ch: u8) -> bool {
    (SPACE <= ch && ch < DELETE) || (NBSP <= ch && ch <= Y_UMLAUT_LOWER)
}

// ---------------------------------------------------------------------------
// Editing: specifications
// ---------------------------------------------------------------------------

/// Moving to the start of the input line.
#[verifier::opaque]
pub open spec fn beginning_of_line_spec(v: TelnetView) -> TelnetView {
    if v.point > 0 {
        let lines = v.line(v.point) - v.line(0);
        let cols = v.col(v.point) - v.col(0);
        TelnetView { point: 0, ..v.emit(vert(lines, 65) + horiz(cols, 68, 67)) }
    } else {
        v
    }
}

/// Moving to the end of the input line.
#[verifier::opaque]
pub open spec fn end_of_line_spec(v: TelnetView) -> TelnetView {
    if v.point < v.data.len() {
        let lines = v.line(v.data.len()) - v.line(v.point);
        let cols = v.col(v.data.len()) - v.col(v.point);
        TelnetView { point: v.data.len(), ..v.emit(vert(lines, 66) + horiz(cols, 67, 68)) }
    } else {
        v
    }
}

/// Moving one character forward.
pub open spec fn forward_char_spec(v: TelnetView) -> TelnetView {
    if v.point < v.data.len() {
        let p = v.point + 1;
        let s = if v.col(p) == 0 {
            crlf_escaped()
        } else {
            seq![ESCAPE, 91u8, 67u8]
        };
        TelnetView { point: p, ..v.emit(s) }
    } else {
        v
    }
}

/// Moving one character backward.
pub open spec fn backward_char_spec(v: TelnetView) -> TelnetView {
    if v.point > 0 {
        let s = if v.col(v.point) == 0 {
            seq![ESCAPE, 91u8, 65u8] + csi_seq((v.width - 1) as nat, 67)
        } else {
            seq![BACKSPACE]
        };
        TelnetView { point: (v.point - 1) as nat, ..v.emit(s) }
    } else {
        v
    }
}

/// One redisplay segment after inserting a character in the middle of the
/// line: new line, insert-character, and the character that wrapped to the
/// start of that screen line (a space past the end).
pub open spec fn insert_wrap_seg(d: Seq<u8>, at: int) -> Seq<u8> {
    seq![RETURN, NULL, RETURN, NEWLINE, ESCAPE, 91u8, 64u8] + (if 0 <= at < d.len() {
        seq![d[at]]
    } else {
        seq![SPACE]
    })
}

/// The redisplay segments for `k` screen lines, starting at data index `at`.
pub open spec fn insert_wraps(d: Seq<u8>, w: nat, at: int, k: nat) -> Seq<u8>
    decreases k,
{
    if k == 0 {
        Seq::empty()
    } else {
        insert_wrap_seg(d, at) + insert_wraps(d, w, at + w, (k - 1) as nat)
    }
}

/// One redisplay segment after deleting a character in the middle of the
/// line: go to the last column, draw the character that wrapped back, and
/// delete the character after it.
pub open spec fn delete_wrap_seg(d: Seq<u8>, w: nat, at: int) -> Seq<u8> {
    seq![RETURN, NULL] + csi_seq((w - 1) as nat, 67) + (if 0 <= at < d.len() {
        seq![d[at]]
    } else {
        seq![SPACE]
    }) + seq![SPACE, BACKSPACE, ESCAPE, 91u8, 80u8]
}

/// The redisplay segments for `k` screen lines after a deletion.
pub open spec fn delete_wraps(d: Seq<u8>, w: nat, at: int, k: nat) -> Seq<u8>
    decreases k,
{
    if k == 0 {
        Seq::empty()
    } else {
        delete_wrap_seg(d, w, at) + delete_wraps(d, w, at + w, (k - 1) as nat)
    }
}

/// After the point moved to position `p`: when the cursor sits in the first
/// column, the character under it is redrawn (or a space) so the terminal
/// wraps.
pub open spec fn wrap_fix(v: TelnetView, p: nat) -> Seq<u8> {
    if v.col(p) == 0 {
        if p < v.data.len() {
            seq![v.data[p as int], BACKSPACE]
        } else {
            seq![SPACE, BACKSPACE]
        }
    } else {
        Seq::empty()
    }
}

/// Screen column of input position `i` after a prompt of `pl` bytes on a
/// terminal `w` columns wide.
pub open spec fn col_of(pl: nat, i: nat, w: nat) -> int {
    ((pl + i) % w) as int
}

/// Screen line of input position `i` after a prompt of `pl` bytes.
pub open spec fn line_of(pl: nat, i: nat, w: nat) -> int {
    ((pl + i) / w) as int
}

/// What is drawn after a character was inserted before the end of the
/// line (`d` and `p` are the data and point after the insertion):
/// insert-character, the character, the characters that wrap to the
/// following screen lines, the cursor motion back, and the fix for a
/// cursor in the first column.
pub open spec fn insert_redisplay(d: Seq<u8>, pl: nat, p: nat, w: nat, ch: u8) -> Seq<u8> {
    let col = col_of(pl, p, w);
    let lines = line_of(pl, d.len(), w) - line_of(pl, p, w);
    let start = p - col + w;
    let tail = if lines > 0 {
        vert(lines, 65) + horiz(1 - col, 68, 67)
    } else {
        Seq::empty()
    };
    let fix = if col == 0 && p < d.len() {
        seq![d[p as int], BACKSPACE]
    } else {
        Seq::empty()
    };
    seq![ESCAPE, 91u8, 64u8, ch] + insert_wraps(d, w, start, lines as nat) + tail + fix
}

/// Inserting a character at the point.
#[verifier::opaque]
pub open spec fn insert_char_spec(v: TelnetView, ch: u8) -> TelnetView {
    if insertable(ch) && v.data.len() < max_len() {
        if v.point >= v.data.len() {
            let v1 = TelnetView { data: v.data.push(ch), point: v.point + 1, ..v };
            if v.echoing() {
                let fix = if v1.col(v1.point) == 0 {
                    seq![SPACE, BACKSPACE]
                } else {
                    Seq::empty()
                };
                v1.emit(seq![ch] + fix)
            } else {
                v1
            }
        } else {
            let v1 = TelnetView { data: v.data.insert(v.point as int, ch), point: v.point + 1, ..v };
            if v.echoing() {
                v1.emit(insert_redisplay(v1.data, v1.prompt.len(), v1.point, v1.width, ch))
            } else {
                v1
            }
        }
    } else {
        v.emit(bell())
    }
}

/// What is drawn after the character at the point was deleted (`d` is
/// the data after the deletion): delete-character, then for each following
/// screen line the character that wraps back to the end of the line above,
/// and the cursor motion back.
pub open spec fn delete_redisplay(d: Seq<u8>, pl: nat, p: nat, w: nat) -> Seq<u8> {
    let col = col_of(pl, p, w);
    let lines = line_of(pl, d.len(), w) - line_of(pl, p, w);
    let start = p - col + w;
    let tail = if lines > 0 {
        vert(lines, 65) + horiz(-col, 68, 67)
    } else {
        Seq::empty()
    };
    seq![ESCAPE, 91u8, 80u8] + delete_wraps(d, w, start, lines as nat) + tail
}

/// Deleting the character at the point.
#[verifier::opaque]
pub open spec fn delete_char_spec(v: TelnetView) -> TelnetView {
    if v.point < v.data.len() {
        let v1 = TelnetView { data: v.data.remove(v.point as int), ..v };
        if v.echoing() {
            v1.emit(delete_redisplay(v1.data, v1.prompt.len(), v1.point, v1.width))
        } else {
            v1
        }
    } else {
        v
    }
}

/// Erasing the character before the point.
pub open spec fn erase_char_spec(v: TelnetView) -> TelnetView {
    if v.point > 0 {
        delete_char_spec(backward_char_spec(v))
    } else {
        v
    }
}

/// Killing the text from the point to the end of the line; `killed` is
/// the killed bytes as text.
#[verifier::opaque]
pub open spec fn kill_line_spec(v: TelnetView, killed: Seq<char>) -> TelnetView {
    if v.point < v.data.len() {
        let v1 = if v.echoing() {
            v.emit(seq![ESCAPE, 91u8, 74u8])
        } else {
            v
        };
        let ring = if v.kill_ring.len() >= KILL_RING_MAX {
            v.kill_ring.drop_first()
        } else {
            v.kill_ring
        };
        TelnetView {
            data: v.data.subrange(0, v.point as int),
            kill_ring: ring.push(killed),
            mark: match v.mark {
                Some(m) => if m > v.point {
                    Some(v.point as usize)
                } else {
                    Some(m)
                },
                None => None,
            },
            ..v1
        }
    } else {
        v
    }
}

/// Inserting each byte of `s` in turn.
pub open spec fn insert_bytes_spec(v: TelnetView, s: Seq<u8>) -> TelnetView
    decreases s.len(),
{
    if s.len() == 0 {
        v
    } else {
        insert_char_spec(insert_bytes_spec(v, s.drop_last()), s.last())
    }
}

/// Inserting bytes leaves the history alone.
pub proof fn lemma_insert_bytes_frame(v: TelnetView, s: Seq<u8>)
    ensures
        insert_bytes_spec(v, s).history == v.history,
        insert_bytes_spec(v, s).history_position == v.history_position,
    decreases s.len(),
{
    reveal(insert_char_spec);
    if s.len() > 0 {
        lemma_insert_bytes_frame(v, s.drop_last());
    }
}

/// Yanking the last killed text back in at the point.
#[verifier::opaque]
pub open spec fn yank_spec(v: TelnetView) -> TelnetView {
    if v.kill_ring.len() > 0 {
        insert_bytes_spec(v, vstd::utf8::encode_utf8(v.kill_ring.last()))
    } else {
        v.emit(bell())
    }
}

/// Erasing the whole input line into the kill ring.
#[verifier::opaque]
pub open spec fn erase_line_spec(v: TelnetView) -> TelnetView {
    kill_line_spec(beginning_of_line_spec(v), utf8_lossy(v.data))
}

/// Recalling the previous line of the history.
#[verifier::opaque]
pub open spec fn previous_line_spec(v: TelnetView) -> TelnetView {
    if v.history.len() == 0 {
        v.emit(bell())
    } else {
        let v1 = erase_line_spec(v);
        match v.history_position {
            None => {
                let pos = (v.history.len() - 1) as nat;
                TelnetView {
                    history_position: Some(pos as usize),
                    ..insert_bytes_spec(v1, vstd::utf8::encode_utf8(v.history[pos as int]))
                }
            },
            Some(pos) => if pos > 0 {
                TelnetView {
                    history_position: Some((pos - 1) as usize),
                    ..insert_bytes_spec(v1, vstd::utf8::encode_utf8(v.history[pos - 1]))
                }
            } else {
                v1.emit(bell())
            },
        }
    }
}

/// Recalling the next line of the history.
#[verifier::opaque]
pub open spec fn next_line_spec(v: TelnetView) -> TelnetView {
    let v1 = erase_line_spec(v);
    match v.history_position {
        Some(pos) => if pos + 1 < v.history.len() {
            TelnetView {
                history_position: Some((pos + 1) as usize),
                ..insert_bytes_spec(v1, vstd::utf8::encode_utf8(v.history[pos + 1]))
            }
        } else {
            TelnetView { history_position: None, ..v1 }
        },
        None => v1.emit(bell()),
    }
}

/// Typing `c` (a semicolon or colon); on an empty line `prefix` is
/// inserted first.
#[verifier::opaque]
pub open spec fn insert_with_prefix_spec(v: TelnetView, prefix: Seq<u8>, c: u8) -> TelnetView {
    let v1 = if v.point == 0 {
        insert_bytes_spec(v, prefix)
    } else {
        v
    };
    insert_char_spec(v1, c)
}


// ---------------------------------------------------------------------------
// Display, options and negotiation: specifications
// ---------------------------------------------------------------------------

/// The library's version, shown in the welcome banner.
pub const VERSION: &'static str = "0.1.0";

/// Clearing from the start of the line `lines` lines up to the end of the
/// screen: CR NUL, cursor up, erase below.
pub open spec fn undraw_seq(lines: nat) -> Seq<u8> {
    if lines > 0 {
        seq![RETURN, NULL] + csi_seq(lines, 65) + seq![ESCAPE, 91u8, 74u8]
    } else {
        seq![RETURN, NULL, ESCAPE, 91u8, 74u8]
    }
}

/// Removing the prompt and input line from the screen.
#[verifier::opaque]
pub open spec fn undraw_input_spec(v: TelnetView) -> TelnetView {
    if v.undrawn {
        v
    } else {
        let v1 = TelnetView { undrawn: true, ..v };
        if v.echoing() {
            if v.prompt.len() == 0 && v.data.len() == 0 {
                v1
            } else {
                v1.emit(undraw_seq(((v.prompt.len() + v.point) / v.width) as nat))
            }
        } else if v.prompt.len() == 0 {
            v1
        } else {
            v1.emit(undraw_seq((v.prompt.len() / v.width) as nat))
        }
    }
}

/// Drawing the prompt and input line again.
#[verifier::opaque]
pub open spec fn redraw_input_spec(v: TelnetView) -> TelnetView {
    if !v.undrawn {
        v
    } else {
        let v1 = TelnetView { undrawn: false, ..v }.emit(escape(v.prompt));
        if v.data.len() > 0 && v.echoing() {
            let len = v.data.len();
            let fix = if v.col(len) == 0 {
                seq![SPACE, BACKSPACE]
            } else {
                Seq::empty()
            };
            let back = if v.point < len {
                vert(v.line(len) - v.line(v.point), 65) + horiz(v.col(len) - v.col(v.point), 68, 67)
            } else {
                Seq::empty()
            };
            v1.emit(escape(v.data) + fix + back)
        } else {
            v1
        }
    }
}

/// The width a terminal size report of `n` columns gives.
pub open spec fn new_width_spec(n: nat) -> nat {
    if n == 0 {
        DEFAULT_WIDTH as nat
    } else if n < MINIMUM_WIDTH {
        MINIMUM_WIDTH as nat
    } else {
        n
    }
}

/// Changing the terminal width, redrawing the input when it changes.
#[verifier::opaque]
pub open spec fn set_new_width_spec(v: TelnetView, n: nat) -> TelnetView {
    let w = new_width_spec(n);
    if v.width != w {
        redraw_input_spec(TelnetView { width: w, ..undraw_input_spec(v) })
    } else {
        v
    }
}

/// The height a terminal size report of `n` lines gives.
pub open spec fn new_height_spec(n: nat) -> nat {
    if n == 0 {
        DEFAULT_HEIGHT as nat
    } else {
        n
    }
}

/// Clearing the screen and drawing the input again.
#[verifier::opaque]
pub open spec fn clear_screen_spec(v: TelnetView) -> TelnetView {
    redraw_input_spec(undraw_input_spec(v).emit(seq![ESCAPE, 91u8, 72u8, ESCAPE, 91u8, 74u8]))
}

/// The initial option negotiations are over.
pub open spec fn options_finished_spec(v: TelnetView) -> bool {
    !(v.lbin == TELNET_WILL_WONT || v.rbin == TELNET_DO_DONT || v.echo == TELNET_WILL_WONT)
}

/// The welcome banner, once.
pub open spec fn welcome_spec(v: TelnetView) -> TelnetView {
    if !v.welcome_sent {
        TelnetView {
            welcome_sent: true,
            ..v.emit(
                escape("\nWelcome to Phoenix! (".spec_bytes()) + escape(VERSION.spec_bytes()) + escape(
                    ")\n\n".spec_bytes(),
                ),
            )
        }
    } else {
        v
    }
}

/// Finishing the initial negotiations: when `force` is set the client is
/// taken for a raw TCP connection; the remarks on refused options and the
/// login prompt follow once the negotiations are over.
#[verifier::opaque]
pub open spec fn check_options_spec(v: TelnetView, force: bool) -> TelnetView {
    if !force && !options_finished_spec(v) {
        v
    } else {
        let v1 = if force {
            welcome_spec(
                TelnetView {
                    lsga: TELNET_ENABLED,
                    rsga: TELNET_ENABLED,
                    lbin: TELNET_ENABLED,
                    rbin: TELNET_ENABLED,
                    echo: 0,
                    naws: 0,
                    welcome_sent: true,
                    ..v
                }.emit(escape(RAW_TCP_NOTICE.spec_bytes())),
            )
        } else {
            v
        };
        let a = if v1.lbin == 0 {
            escape(BINARY_OUTPUT_REFUSED.spec_bytes())
        } else {
            Seq::empty()
        };
        let b = if v1.rbin == 0 {
            escape(BINARY_INPUT_REFUSED.spec_bytes())
        } else {
            Seq::empty()
        };
        let c = if !v1.acknowledge {
            escape(BROKEN_CLIENT.spec_bytes())
        } else {
            Seq::empty()
        };
        v1.emit(a + b + c + escape("login: ".spec_bytes()))
    }
}

/// The notice for a client that does not negotiate.
pub const RAW_TCP_NOTICE: &'static str = "You don't appear to be running a telnet client.  Assuming raw TCP connection.\n(Use C-x C-e to toggle remote echo if you need it.)\n\n";

/// The remark when the client refuses binary output.
pub const BINARY_OUTPUT_REFUSED: &'static str = "Binary output refused, but the refusal will be ignored...\n";

/// The remark when the client refuses to send binary input.
pub const BINARY_INPUT_REFUSED: &'static str = "Binary input refused.  Use compose sequences as necessary.\n";

/// The remark when timing marks were not acknowledged.
pub const BROKEN_CLIENT: &'static str = "Sorry, your telnet client is broken.  Output may be lost by the network.\n\n";

/// A timing mark asked for when output is being acknowledged.
pub open spec fn timing_mark_spec(v: TelnetView) -> TelnetView {
    if v.acknowledge {
        TelnetView {
            outstanding: if v.outstanding == usize::MAX {
                0usize
            } else {
                (v.outstanding + 1) as usize
            },
            ..v.emit(seq![IAC, CMD_DO, OPT_TIMING_MARK])
        }
    } else {
        v
    }
}

/// Starting to close the connection.
pub open spec fn close_spec(v: TelnetView, drain: bool) -> TelnetView {
    let v1 = TelnetView { closing: true, ..v };
    if drain {
        timing_mark_spec(TelnetView { do_echo: false, ..v1 })
    } else {
        v1
    }
}

/// Queues `IAC cmd opt` for the client.
pub open spec fn command_spec(v: TelnetView, cmd: u8, opt: u8) -> TelnetView {
    TelnetView { cmd: v.cmd + seq![IAC, cmd, opt], ..v }
}

/// One side's answer to a request about an option whose state is `bits`:
/// `asked` is the bit of the request, `answered` the bit of our answer.
/// Gives the new state and whether an answer is sent.
pub open spec fn negotiate_spec(bits: u8, on: bool, asked: u8, answered: u8) -> (u8, bool) {
    if on {
        let b = bits | asked;
        if b & answered == 0 {
            (b | answered, true)
        } else {
            (b, false)
        }
    } else {
        let b = bits & !asked;
        if b & answered != 0 {
            (b & !answered, true)
        } else {
            (b, false)
        }
    }
}

/// `IAC WILL/WONT TRANSMIT-BINARY`: answered with DO/DONT; when the
/// client starts sending binary we offer to send binary too.
pub open spec fn will_binary_spec(v: TelnetView, will: bool) -> TelnetView {
    let (b, sent) = negotiate_spec(v.rbin, will, TELNET_WILL_WONT, TELNET_DO_DONT);
    let v0 = if sent {
        command_spec(v, if will { CMD_DO } else { CMD_DONT }, OPT_BINARY)
    } else {
        v
    };
    let v0 = if sent && will && v.lbin == 0 {
        TelnetView { lbin: v.lbin | TELNET_WILL_WONT, ..command_spec(v0, CMD_WILL, OPT_BINARY) }
    } else {
        v0
    };
    TelnetView { rbin: b, ..v0 }
}

/// `IAC WILL/WONT SUPPRESS-GO-AHEAD`, likewise.
pub open spec fn will_sga_spec(v: TelnetView, will: bool) -> TelnetView {
    let (b, sent) = negotiate_spec(v.rsga, will, TELNET_WILL_WONT, TELNET_DO_DONT);
    let v0 = if sent {
        command_spec(v, if will { CMD_DO } else { CMD_DONT }, OPT_SGA)
    } else {
        v
    };
    let v0 = if sent && will && v.lsga == 0 {
        TelnetView { lsga: v.lsga | TELNET_WILL_WONT, ..command_spec(v0, CMD_WILL, OPT_SGA) }
    } else {
        v0
    };
    TelnetView { rsga: b, ..v0 }
}

/// `IAC WILL/WONT NAWS`: answered with DO/DONT.
pub open spec fn will_naws_spec(v: TelnetView, will: bool) -> TelnetView {
    let (b, sent) = negotiate_spec(v.naws, will, TELNET_WILL_WONT, TELNET_DO_DONT);
    let v0 = if sent {
        command_spec(v, if will { CMD_DO } else { CMD_DONT }, OPT_NAWS)
    } else {
        v
    };
    TelnetView { naws: b, ..v0 }
}

/// A timing mark came back: one fewer is outstanding, and output is
/// acknowledged again once none is.
pub open spec fn timing_mark_reply_spec(v: TelnetView) -> TelnetView {
    let o = if v.outstanding > 0 {
        (v.outstanding - 1) as usize
    } else {
        0usize
    };
    TelnetView { outstanding: o, acknowledge: v.acknowledge || o == 0, ..v }
}

/// The answer to `IAC WILL opt` (`will`) or `IAC WONT opt`.
pub open spec fn will_wont_spec(v: TelnetView, will: bool, opt: u8) -> TelnetView {
    TelnetView { state: TelnetState::Data, ..answer_will_wont_spec(v, will, opt) }
}

/// The option state and commands after `IAC WILL opt` or `IAC WONT opt`.
pub open spec fn answer_will_wont_spec(v: TelnetView, will: bool, opt: u8) -> TelnetView {
    if opt == OPT_BINARY {
        will_binary_spec(v, will)
    } else if opt == OPT_SGA {
        will_sga_spec(v, will)
    } else if opt == OPT_NAWS {
        will_naws_spec(v, will)
    } else if opt == OPT_TIMING_MARK {
        timing_mark_reply_spec(v)
    } else if will {
        command_spec(v, CMD_DONT, opt)
    } else {
        v
    }
}

/// `IAC DO/DONT TRANSMIT-BINARY`: answered with WILL/WONT; when we start
/// sending binary we ask the client to send binary too.
pub open spec fn do_binary_spec(v: TelnetView, do_: bool) -> TelnetView {
    let (b, sent) = negotiate_spec(v.lbin, do_, TELNET_DO_DONT, TELNET_WILL_WONT);
    let v0 = if sent {
        command_spec(v, if do_ { CMD_WILL } else { CMD_WONT }, OPT_BINARY)
    } else {
        v
    };
    let v0 = if sent && do_ && v.rbin == 0 {
        TelnetView { rbin: v.rbin | TELNET_DO_DONT, ..command_spec(v0, CMD_DO, OPT_BINARY) }
    } else {
        v0
    };
    TelnetView { lbin: b, ..v0 }
}

/// `IAC DO/DONT ECHO`: answered with WILL/WONT.
pub open spec fn do_echo_spec(v: TelnetView, do_: bool) -> TelnetView {
    let (b, sent) = negotiate_spec(v.echo, do_, TELNET_DO_DONT, TELNET_WILL_WONT);
    let v0 = if sent {
        command_spec(v, if do_ { CMD_WILL } else { CMD_WONT }, OPT_ECHO)
    } else {
        v
    };
    TelnetView { echo: b, ..v0 }
}

/// `IAC DO/DONT SUPPRESS-GO-AHEAD`, like TRANSMIT-BINARY.
pub open spec fn do_sga_spec(v: TelnetView, do_: bool) -> TelnetView {
    let (b, sent) = negotiate_spec(v.lsga, do_, TELNET_DO_DONT, TELNET_WILL_WONT);
    let v0 = if sent {
        command_spec(v, if do_ { CMD_WILL } else { CMD_WONT }, OPT_SGA)
    } else {
        v
    };
    let v0 = if sent && do_ && v.rsga == 0 {
        TelnetView { rsga: v.rsga | TELNET_DO_DONT, ..command_spec(v0, CMD_DO, OPT_SGA) }
    } else {
        v0
    };
    TelnetView { lsga: b, ..v0 }
}

/// The answer to `IAC DO opt` (`do_`) or `IAC DONT opt`.
pub open spec fn do_dont_spec(v: TelnetView, do_: bool, opt: u8) -> TelnetView {
    let v1 = if opt == OPT_BINARY {
        do_binary_spec(v, do_)
    } else if opt == OPT_ECHO {
        do_echo_spec(v, do_)
    } else if opt == OPT_SGA {
        do_sga_spec(v, do_)
    } else if do_ {
        command_spec(v, CMD_WONT, opt)
    } else {
        v
    };
    TelnetView { state: TelnetState::Data, ..v1 }
}

/// A byte of a subnegotiation sequence.
#[verifier::opaque]
pub open spec fn subnegotiation_spec(v: TelnetView, byte: u8) -> TelnetView {
    if v.state == TelnetState::SubnegotiationBegin && byte == IAC {
        TelnetView { state: TelnetState::SubnegotiationEnd, ..v }
    } else if v.state == TelnetState::SubnegotiationEnd && byte == CMD_SE {
        let v1 = if v.sb_state == TelnetSubnegotiationState::NAWSDone {
            let v0 = set_new_width_spec(v, v.naws_width);
            TelnetView { height: new_height_spec(v.naws_height), ..v0 }
        } else {
            v
        };
        TelnetView { state: TelnetState::Data, sb_state: TelnetSubnegotiationState::Idle, ..v1 }
    } else if v.state == TelnetState::SubnegotiationEnd && byte != IAC {
        TelnetView { state: TelnetState::SubnegotiationBegin, ..v }
    } else {
        let v0 = TelnetView { state: TelnetState::SubnegotiationBegin, ..v };
        match v.sb_state {
            TelnetSubnegotiationState::Idle => TelnetView {
                sb_state: if byte == OPT_NAWS {
                    TelnetSubnegotiationState::NAWSWidthHigh
                } else {
                    TelnetSubnegotiationState::Unknown
                },
                ..v0
            },
            TelnetSubnegotiationState::NAWSWidthHigh => TelnetView {
                naws_width: byte as nat * 256,
                sb_state: TelnetSubnegotiationState::NAWSWidthLow,
                ..v0
            },
            TelnetSubnegotiationState::NAWSWidthLow => TelnetView {
                naws_width: v.naws_width + byte as nat,
                sb_state: TelnetSubnegotiationState::NAWSHeightHigh,
                ..v0
            },
            TelnetSubnegotiationState::NAWSHeightHigh => TelnetView {
                naws_height: byte as nat * 256,
                sb_state: TelnetSubnegotiationState::NAWSHeightLow,
                ..v0
            },
            TelnetSubnegotiationState::NAWSHeightLow => TelnetView {
                naws_height: v.naws_height + byte as nat,
                sb_state: TelnetSubnegotiationState::NAWSDone,
                ..v0
            },
            _ => v0,
        }
    }
}

/// A new connection's state.
pub open spec fn initial_view() -> TelnetView {
    TelnetView {
        state: TelnetState::Data,
        sb_state: TelnetSubnegotiationState::Idle,
        echo: 0,
        lsga: 0,
        rsga: 0,
        lbin: 0,
        rbin: 0,
        naws: 0,
        width: DEFAULT_WIDTH as nat,
        height: DEFAULT_HEIGHT as nat,
        naws_width: 0,
        naws_height: 0,
        outstanding: 2,
        acknowledge: false,
        welcome_sent: false,
        closing: false,
        close_on_eof: true,
        do_echo: true,
        undrawn: false,
        data: Seq::empty(),
        point: 0,
        mark: None,
        prompt: Seq::empty(),
        history: Seq::empty(),
        history_position: None,
        kill_ring: Seq::empty(),
        out: Seq::empty(),
        cmd: Seq::empty(),
    }
}

/// The negotiations a new connection starts with, and the banner.
pub open spec fn init_options_spec(v: TelnetView) -> TelnetView {
    let v1 = TelnetView {
        lsga: v.lsga | TELNET_WILL_WONT,
        rsga: v.rsga | TELNET_DO_DONT,
        lbin: v.lbin | TELNET_WILL_WONT,
        rbin: v.rbin | TELNET_DO_DONT,
        echo: v.echo | TELNET_WILL_WONT,
        naws: v.naws | TELNET_DO_DONT,
        cmd: v.cmd + seq![
            IAC,
            CMD_DO,
            OPT_TIMING_MARK,
            IAC,
            CMD_DO,
            OPT_TIMING_MARK,
            IAC,
            CMD_WILL,
            OPT_SGA,
            IAC,
            CMD_DO,
            OPT_SGA,
            IAC,
            CMD_WILL,
            OPT_BINARY,
            IAC,
            CMD_DO,
            OPT_BINARY,
            IAC,
            CMD_WILL,
            OPT_ECHO,
            IAC,
            CMD_DO,
            OPT_NAWS
        ],
        ..v
    };
    v1.emit(
        escape("\nWelcome to Phoenix! (".spec_bytes()) + escape(VERSION.spec_bytes()) + escape(
            ")\n\n".spec_bytes(),
        ),
    )
}

/// The first half of accepting the input line `line`.
pub open spec fn accept_begin_spec(v: TelnetView, line: Seq<char>) -> TelnetView {
    let v1 = if !options_finished_spec(v) {
        check_options_spec(v, true)
    } else {
        v
    };
    let history = if v.do_echo && line.len() > 0 {
        (if v1.history.len() >= HISTORY_MAX {
            v1.history.drop_first()
        } else {
            v1.history
        }).push(line)
    } else {
        v1.history
    };
    TelnetView { history_position: None, history: history, ..v1 }
}

/// The second half of accepting an input line.
pub open spec fn accept_end_spec(v: TelnetView) -> TelnetView {
    let v1 = if v.undrawn {
        v
    } else {
        let v0 = if v.point < v.data.len() {
            end_of_line_spec(v)
        } else {
            v
        };
        if v0.echoing() {
            v0.emit(seq![RETURN, NEWLINE])
        } else {
            v0
        }
    };
    TelnetView { data: Seq::empty(), point: 0, mark: None, prompt: Seq::empty(), ..v1 }
}

/// Showing a new prompt.
pub open spec fn show_prompt_spec(v: TelnetView, p: Seq<u8>) -> TelnetView {
    let v1 = TelnetView { prompt: p, ..v };
    if !v.undrawn {
        v1.emit(escape(p))
    } else {
        v1
    }
}

/// Swapping the characters on both sides of the point and moving past
/// them; `echoing` tells whether the swap is drawn.
pub open spec fn transpose_at_spec(v0: TelnetView, echoing: bool) -> TelnetView {
    let q = v0.point;
    let d = v0.data.update(q - 1, v0.data[q as int]).update(q as int, v0.data[q - 1]);
    let v1 = TelnetView { data: d, ..v0 };
    let v2 = if echoing {
        v1.emit(seq![BACKSPACE, d[q - 1], d[q as int]])
    } else {
        v1
    };
    let p = q + 1;
    TelnetView { point: p, ..v2.emit(wrap_fix(v2, p)) }
}

/// Swapping the two characters before the point (the last two at the end
/// of the line).
#[verifier::opaque]
pub open spec fn transpose_chars_spec(v: TelnetView) -> TelnetView {
    if v.point == 0 || v.data.len() < 2 {
        v.emit(bell())
    } else if v.point >= v.data.len() {
        transpose_at_spec(backward_char_spec(v), v.echoing())
    } else {
        transpose_at_spec(v, v.echoing())
    }
}

} // verus!

verus! {

// ---------------------------------------------------------------------------
// Screen arithmetic
// ---------------------------------------------------------------------------

/// The redisplay after an edit in the middle of the line starts at the
/// screen line below the point and ends past the end of the data.
proof fn lemma_wrap_bound(pl: nat, p: nat, len: nat, w: nat)
    requires
        w >= 1,
        p <= len,
    ensures
        (pl + p) / w <= (pl + len) / w,
        (pl + p) % w < w,
        (pl + len) % w < w,
        p - (pl + p) % w + w + ((pl + len) / w - (pl + p) / w) * w <= len + w,
{
    let a = (pl + p) as int;
    let b = (pl + len) as int;
    let wi = w as int;
    vstd::arithmetic::div_mod::lemma_div_is_ordered(a, b, wi);
    vstd::arithmetic::div_mod::lemma_fundamental_div_mod(a, wi);
    vstd::arithmetic::div_mod::lemma_fundamental_div_mod(b, wi);
    vstd::arithmetic::div_mod::lemma_mod_pos_bound(a, wi);
    vstd::arithmetic::div_mod::lemma_mod_pos_bound(b, wi);
    vstd::arithmetic::mul::lemma_mul_is_distributive_sub(wi, b / wi, a / wi);
    vstd::arithmetic::mul::lemma_mul_is_commutative(wi, b / wi - a / wi);
}

/// One more redisplay segment at the front of the rest.
proof fn lemma_insert_wraps_step(d: Seq<u8>, w: nat, at: int, k: nat)
    requires
        k > 0,
    ensures
        insert_wraps(d, w, at, k) == insert_wrap_seg(d, at) + insert_wraps(d, w, at + w, (k - 1) as nat),
{
}

/// Appends the redisplay segments after an insertion, `k` screen lines
/// starting at data index `at`.
fn push_insert_wraps(v: &mut Vec<u8>, d: &Vec<u8>, w: usize, at: usize, k: usize)
    requires
        w >= 1,
        at + k * w <= usize::MAX,
    ensures
        final(v)@ == old(v)@ + insert_wraps(d@, w as nat, at as int, k as nat),
    decreases k,
{
    if k > 0 {
        v.push(RETURN);
        v.push(NULL);
        v.push(RETURN);
        v.push(NEWLINE);
        v.push(ESCAPE);
        v.push(91u8);
        v.push(64u8);
        let b: u8 = if at < d.len() {
            d[at]
        } else {
            SPACE
        };
        v.push(b);
        let ghost mid = v@;
        proof {
            assert(mid =~= old(v)@ + insert_wrap_seg(d@, at as int));
            assert((at + w) + (k - 1) * w == at + k * w) by (nonlinear_arith);
        }
        push_insert_wraps(v, d, w, at + w, k - 1);
        proof {
            lemma_insert_wraps_step(d@, w as nat, at as int, k as nat);
        }
    } else {
        assert(old(v)@ + insert_wraps(d@, w as nat, at as int, k as nat) =~= old(v)@);
    }
}

/// Appends the redisplay segments after a deletion, `k` screen lines
/// starting at data index `at`.
fn push_delete_wraps(v: &mut Vec<u8>, d: &Vec<u8>, w: usize, at: usize, k: usize)
    requires
        w >= 1,
        at + k * w <= usize::MAX,
    ensures
        final(v)@ == old(v)@ + delete_wraps(d@, w as nat, at as int, k as nat),
    decreases k,
{
    if k > 0 {
        v.push(RETURN);
        v.push(NULL);
        push_csi(v, w - 1, 67);
        let b: u8 = if at < d.len() {
            d[at]
        } else {
            SPACE
        };
        v.push(b);
        v.push(SPACE);
        v.push(BACKSPACE);
        v.push(ESCAPE);
        v.push(91u8);
        v.push(80u8);
        let ghost mid = v@;
        proof {
            assert(mid =~= old(v)@ + delete_wrap_seg(d@, w as nat, at as int));
            assert((at + w) + (k - 1) * w == at + k * w) by (nonlinear_arith);
        }
        push_delete_wraps(v, d, w, at + w, k - 1);
        proof {
            assert(delete_wraps(d@, w as nat, at as int, k as nat) == delete_wrap_seg(d@, w as nat, at as int)
                + delete_wraps(d@, w as nat, at + w, (k - 1) as nat));
        }
    } else {
        assert(old(v)@ + delete_wraps(d@, w as nat, at as int, k as nat) =~= old(v)@);
    }
}

/// Appends what is drawn after a character was inserted before the end
/// of the line.
fn push_insert_redisplay(out: &mut Vec<u8>, d: &Vec<u8>, pl: usize, p: usize, w: usize, ch: u8)
    requires
        1 <= w <= max_len(),
        p <= d.len() <= max_len(),
        pl <= max_len(),
    ensures
        final(out)@ == old(out)@ + insert_redisplay(d@, pl as nat, p as nat, w as nat, ch),
{
    let ghost base = out@;
    out.push(ESCAPE);
    out.push(91u8);
    out.push(64u8);
    out.push(ch);
    let len = d.len();
    proof {
        lemma_wrap_bound(pl as nat, p as nat, len as nat, w as nat);
    }
    let col = (pl + p) % w;
    let lines = (pl + len) / w - (pl + p) / w;
    proof {
        assert(lines * w <= len + w - (p + w - col)) by (nonlinear_arith)
            requires
                (p + w - col) + lines * w <= len + w,
        ;
    }
    push_insert_wraps(out, d, w, p + w - col, lines);
    let ghost mid = out@;
    if lines > 0 {
        push_vert(out, lines, 65);
        push_horiz(out, 1, col, 68, 67);
    }
    let ghost mid2 = out@;
    if col == 0 && p < len {
        let b = d[p];
        out.push(b);
        out.push(BACKSPACE);
    }
    proof {
        let lines_i = line_of(pl as nat, len as nat, w as nat) - line_of(pl as nat, p as nat, w as nat);
        let tail = if lines_i > 0 {
            vert(lines_i, 65) + horiz(1 - col_of(pl as nat, p as nat, w as nat), 68, 67)
        } else {
            Seq::empty()
        };
        assert(mid2 =~= mid + tail);
        assert(out@ =~= base + insert_redisplay(d@, pl as nat, p as nat, w as nat, ch));
    }
}

/// Appends what is drawn after the character at the point was deleted.
fn push_delete_redisplay(out: &mut Vec<u8>, d: &Vec<u8>, pl: usize, p: usize, w: usize)
    requires
        1 <= w <= max_len(),
        p <= d.len() <= max_len(),
        pl <= max_len(),
    ensures
        final(out)@ == old(out)@ + delete_redisplay(d@, pl as nat, p as nat, w as nat),
{
    let ghost base = out@;
    out.push(ESCAPE);
    out.push(91u8);
    out.push(80u8);
    let len = d.len();
    proof {
        lemma_wrap_bound(pl as nat, p as nat, len as nat, w as nat);
    }
    let col = (pl + p) % w;
    let lines = (pl + len) / w - (pl + p) / w;
    proof {
        assert(lines * w <= len + w - (p + w - col)) by (nonlinear_arith)
            requires
                (p + w - col) + lines * w <= len + w,
        ;
    }
    push_delete_wraps(out, d, w, p + w - col, lines);
    let ghost mid = out@;
    if lines > 0 {
        push_vert(out, lines, 65);
        push_horiz(out, 0, col, 68, 67);
    }
    proof {
        let lines_i = line_of(pl as nat, len as nat, w as nat) - line_of(pl as nat, p as nat, w as nat);
        let tail = if lines_i > 0 {
            vert(lines_i, 65) + horiz(-col_of(pl as nat, p as nat, w as nat), 68, 67)
        } else {
            Seq::empty()
        };
        assert(out@ =~= mid + tail);
        assert(out@ =~= base + delete_redisplay(d@, pl as nat, p as nat, w as nat));
    }
}

/// The text that `String::from_utf8_lossy` makes of a byte string.
pub uninterp spec fn utf8_lossy(bytes: Seq<u8>) -> Seq<char>;

/// Calls `String::from_utf8_lossy`, which decodes the bytes as UTF-8 and
/// replaces each invalid sequence by U+FFFD; the contract names the result,
/// and states that valid UTF-8 is decoded as it is.
#[verifier::external_body]
fn text_from_bytes(bytes: &[u8]) -> (r: String)
    ensures
        r@ == utf8_lossy(bytes@),
        vstd::utf8::valid_utf8(bytes@) ==> r@ == vstd::utf8::decode_utf8(bytes@),
{
    String::from_utf8_lossy(bytes).into_owned()
}

/// One side's answer to a request about an option (see
/// `negotiate_spec`).
fn negotiate(bits: u8, on: bool, asked: u8, answered: u8) -> (r: (u8, bool))
    ensures
        r == negotiate_spec(bits, on, asked, answered),
{
    if on {
        let b = bits | asked;
        if b & answered == 0 {
            (b | answered, true)
        } else {
            (b, false)
        }
    } else {
        let b = bits & !asked;
        if b & answered != 0 {
            (b & !answered, true)
        } else {
            (b, false)
        }
    }
}

impl Telnet {
    /// Screen column of input position `i`.
    fn col_at(&self, i: usize) -> (r: usize)
        requires
            self@.wf(),
            i <= self.data.len(),
        ensures
            r == self@.col(i as nat),
            r < self.width,
    {
        (self.prompt.len() + i) % self.width
    }

    /// Screen line of input position `i`.
    fn line_at(&self, i: usize) -> (r: usize)
        requires
            self@.wf(),
            i <= self.data.len(),
        ensures
            r == self@.line(i as nat),
    {
        (self.prompt.len() + i) / self.width
    }

    /// Queues text for the client, escaped for the wire.
    pub fn output(&mut self, s: &str)
        ensures
            final(self)@ == old(self)@.emit(escape(s.spec_bytes())),
    {
        push_escaped(&mut self.output_buffer, s.as_bytes());
    }

    /// Moves the point to the start of the input line.
    pub fn beginning_of_line(&mut self)
        requires
            old(self)@.wf(),
        ensures
            final(self)@ == beginning_of_line_spec(old(self)@),
            final(self)@.wf(),
            final(self)@.data == old(self)@.data,
            final(self).point == 0,
            final(self)@.history == old(self)@.history,
            final(self)@.history_position == old(self)@.history_position,
    {
        proof {
            reveal(beginning_of_line_spec);
        }
        if self.point > 0 {
            proof {
                lemma_wrap_bound(self.prompt@.len(), 0, self.point as nat, self.width as nat);
            }
            let lines = self.line_at(self.point) - self.line_at(0);
            let to = self.col_at(self.point);
            let from = self.col_at(0);
            push_vert(&mut self.output_buffer, lines, 65);
            push_horiz(&mut self.output_buffer, to, from, 68, 67);
            self.point = 0;
        }
    }

    /// Moves the point to the end of the input line.
    pub fn end_of_line(&mut self)
        requires
            old(self)@.wf(),
        ensures
            final(self)@ == end_of_line_spec(old(self)@),
            final(self)@.wf(),
    {
        proof {
            reveal(end_of_line_spec);
        }
        let len = self.data.len();
        if self.point < len {
            proof {
                lemma_wrap_bound(self.prompt@.len(), self.point as nat, len as nat, self.width as nat);
            }
            let lines = self.line_at(len) - self.line_at(self.point);
            let to = self.col_at(len);
            let from = self.col_at(self.point);
            push_vert(&mut self.output_buffer, lines, 66);
            push_horiz(&mut self.output_buffer, to, from, 67, 68);
            self.point = len;
        }
    }

    /// Moves the point one character forward.
    pub fn forward_char(&mut self)
        requires
            old(self)@.wf(),
        ensures
            final(self)@ == forward_char_spec(old(self)@),
            final(self)@.wf(),
    {
        if self.point < self.data.len() {
            let p = self.point + 1;
            if self.col_at(p) == 0 {
                self.output("\r\n");
                proof {
                    reveal_strlit("\r\n");
                    assert("\r\n".spec_bytes() == seq![RETURN, NEWLINE]) by {
                        vstd::string::is_ascii_spec_bytes("\r\n");
                    }
                    assert(escape(seq![RETURN, NEWLINE]) == crlf_escaped()) by {
                        reveal_with_fuel(escape, 3);
                    }
                }
            } else {
                self.output_buffer.push(ESCAPE);
                self.output_buffer.push(91u8);
                self.output_buffer.push(67u8);
            }
            self.point = p;
        }
    }


    /// Moves the point one character backward.
    pub fn backward_char(&mut self)
        requires
            old(self)@.wf(),
        ensures
            final(self)@ == backward_char_spec(old(self)@),
            final(self)@.wf(),
    {
        if self.point > 0 {
            if self.col_at(self.point) == 0 {
                self.output_buffer.push(ESCAPE);
                self.output_buffer.push(91u8);
                self.output_buffer.push(65u8);
                push_csi(&mut self.output_buffer, self.width - 1, 67);
            } else {
                self.output_buffer.push(BACKSPACE);
            }
            self.point = self.point - 1;
        }
    }

    /// Inserts a character at the point, redrawing the rest of the line
    /// when echoing; rings the bell for a character that cannot be input.
    pub fn insert_char(&mut self, ch: u8)
        requires
            old(self)@.wf(),
        ensures
            final(self)@ == insert_char_spec(old(self)@, ch),
            final(self)@.wf(),
    {
        proof {
            reveal(insert_char_spec);
        }
        let ok = (SPACE <= ch && ch < DELETE) || (NBSP <= ch && ch <= Y_UMLAUT_LOWER);
        if !ok || self.data.len() >= isize::MAX as usize {
            self.output_buffer.push(7u8);
            return;
        }
        let ghost v = self@;
        let echoing = self.echo == TELNET_ENABLED && self.do_echo;
        if self.point >= self.data.len() {
            self.data.push(ch);
            self.point = self.point + 1;
            if echoing {
                self.output_buffer.push(ch);
                if self.col_at(self.point) == 0 {
                    self.output_buffer.push(SPACE);
                    self.output_buffer.push(BACKSPACE);
                }
            }
        } else {
            self.data.insert(self.point, ch);
            self.point = self.point + 1;
            if echoing {
                push_insert_redisplay(
                    &mut self.output_buffer,
                    &self.data,
                    self.prompt.len(),
                    self.point,
                    self.width,
                    ch,
                );
            }
        }
    }

    /// Deletes the character at the point, redrawing the rest of the line
    /// when echoing.
    pub fn delete_char(&mut self)
        requires
            old(self)@.wf(),
        ensures
            final(self)@ == delete_char_spec(old(self)@),
            final(self)@.wf(),
    {
        proof {
            reveal(delete_char_spec);
        }
        if self.point < self.data.len() {
            self.data.remove(self.point);
            if self.echo == TELNET_ENABLED && self.do_echo {
                push_delete_redisplay(
                    &mut self.output_buffer,
                    &self.data,
                    self.prompt.len(),
                    self.point,
                    self.width,
                );
            }
        }
    }

    /// Erases the character before the point.
    pub fn erase_char(&mut self)
        requires
            old(self)@.wf(),
        ensures
            final(self)@ == erase_char_spec(old(self)@),
            final(self)@.wf(),
    {
        if self.point > 0 {
            self.backward_char();
            self.delete_char();
        }
    }

    /// Kills the text from the point to the end of the line into the kill
    /// ring.
    pub fn kill_line(&mut self)
        requires
            old(self)@.wf(),
        ensures
            final(self)@ == kill_line_spec(
                old(self)@,
                utf8_lossy(old(self)@.data.subrange(old(self).point as int, old(self)@.data.len() as int)),
            ),
            final(self)@.wf(),
            final(self)@.history == old(self)@.history,
            final(self)@.history_position == old(self)@.history_position,
    {
        proof {
            reveal(kill_line_spec);
        }
        let ghost v = self@;
        if self.point < self.data.len() {
            if self.echo == TELNET_ENABLED && self.do_echo {
                self.output_buffer.push(ESCAPE);
                self.output_buffer.push(91u8);
                self.output_buffer.push(74u8);
            }
            let killed = self.data.split_off(self.point);
            let text = text_from_bytes(killed.as_slice());
            let ghost ring0 = self.kill_ring@;
            if self.kill_ring.len() >= KILL_RING_MAX {
                self.kill_ring.remove(0);
                proof {
                    lemma_texts_drop_first(ring0);
                }
            }
            let ghost ring1 = self.kill_ring@;
            self.kill_ring.push(text);
            proof {
                lemma_texts_push(ring1, text);
                lemma_texts(ring0);
            }
            match self.mark {
                Some(m) => {
                    if m > self.point {
                        self.mark = Some(self.point);
                    }
                },
                None => {},
            }
            proof {
                let ring = if v.kill_ring.len() >= KILL_RING_MAX {
                    v.kill_ring.drop_first()
                } else {
                    v.kill_ring
                };
                assert(self@.kill_ring =~= ring.push(utf8_lossy(v.data.subrange(v.point as int, v.data.len() as int))));
            }
        }
    }

    /// Erases the whole input line into the kill ring.
    pub fn erase_line(&mut self)
        requires
            old(self)@.wf(),
        ensures
            final(self)@ == erase_line_spec(old(self)@),
            final(self)@.wf(),
            final(self)@.history == old(self)@.history,
            final(self)@.history_position == old(self)@.history_position,
    {
        proof {
            reveal(erase_line_spec);
        }
        self.beginning_of_line();
        proof {
            assert(self@.data.subrange(0, self@.data.len() as int) =~= self@.data);
        }
        self.kill_line();
    }

    /// Inserts each byte of `s` in turn.
    pub fn insert_bytes(&mut self, s: &[u8])
        requires
            old(self)@.wf(),
        ensures
            final(self)@ == insert_bytes_spec(old(self)@, s@),
            final(self)@.wf(),
            final(self)@.history == old(self)@.history,
            final(self)@.history_position == old(self)@.history_position,
    {
        proof {
            lemma_insert_bytes_frame(self@, s@);
        }
        let ghost v = self@;
        let mut i: usize = 0;
        while i < s.len()
            invariant
                i <= s.len(),
                self@.wf(),
                self@ == insert_bytes_spec(v, s@.subrange(0, i as int)),
            decreases s.len() - i,
        {
            proof {
                let t = s@.subrange(0, i + 1);
                assert(t.drop_last() =~= s@.subrange(0, i as int));
            }
            self.insert_char(s[i]);
            i += 1;
        }
        proof {
            assert(s@.subrange(0, s.len() as int) =~= s@);
        }
    }

    /// Inserts the last killed text at the point.
    pub fn yank(&mut self)
        requires
            old(self)@.wf(),
        ensures
            final(self)@ == yank_spec(old(self)@),
            final(self)@.wf(),
    {
        proof {
            reveal(yank_spec);
        }
        let n = self.kill_ring.len();
        proof {
            lemma_texts(self.kill_ring@);
        }
        if n > 0 {
            let text = self.kill_ring[n - 1].clone();
            self.insert_bytes(text.as_str().as_bytes());
        } else {
            self.output_buffer.push(7u8);
        }
    }

    /// Swaps the characters on both sides of the point and moves past
    /// them.
    #[verifier::rlimit(30)]
    fn transpose_at(&mut self, echoing: bool)
        requires
            old(self)@.wf(),
            1 <= old(self).point < old(self).data.len(),
        ensures
            final(self)@ == transpose_at_spec(old(self)@, echoing),
            final(self)@.wf(),
    {
        let q = self.point;
        let a = self.data[q - 1];
        let b = self.data[q];
        self.data.set(q - 1, b);
        self.data.set(q, a);
        if echoing {
            self.output_buffer.push(BACKSPACE);
            self.output_buffer.push(b);
            self.output_buffer.push(a);
        }
        let p = q + 1;
        if self.col_at(p) == 0 {
            if p < self.data.len() {
                let c = self.data[p];
                self.output_buffer.push(c);
                self.output_buffer.push(BACKSPACE);
            } else {
                self.output_buffer.push(SPACE);
                self.output_buffer.push(BACKSPACE);
            }
        }
        self.point = p;
    }

    /// Swaps the two characters before the point.
    pub fn transpose_chars(&mut self)
        requires
            old(self)@.wf(),
        ensures
            final(self)@ == transpose_chars_spec(old(self)@),
            final(self)@.wf(),
    {
        proof {
            reveal(transpose_chars_spec);
        }
        if self.point == 0 || self.data.len() < 2 {
            self.output_buffer.push(7u8);
            return;
        }
        let echoing = self.echo == TELNET_ENABLED && self.do_echo;
        if self.point >= self.data.len() {
            self.backward_char();
        }
        self.transpose_at(echoing);
    }

    /// Recalls line `i` of the history in place of the erased input.
    fn recall(&mut self, i: usize)
        requires
            old(self)@.wf(),
            i < old(self).history.len(),
        ensures
            final(self)@ == (TelnetView {
                history_position: Some(i),
                ..insert_bytes_spec(old(self)@, vstd::utf8::encode_utf8(old(self)@.history[i as int]))
            }),
            final(self)@.wf(),
    {
        proof {
            lemma_texts(self.history@);
        }
        let line = self.history[i].clone();
        let bytes = line.as_str().as_bytes();
        self.insert_bytes(bytes);
        self.history_position = Some(i);
    }

    /// Recalls the previous line of the history.
    pub fn previous_line(&mut self)
        requires
            old(self)@.wf(),
        ensures
            final(self)@ == previous_line_spec(old(self)@),
            final(self)@.wf(),
    {
        proof {
            reveal(previous_line_spec);
        }
        proof {
            lemma_texts(self.history@);
        }
        let n = self.history.len();
        if n == 0 {
            self.output_buffer.push(7u8);
            return;
        }
        self.erase_line();
        proof {
            lemma_texts(self.history@);
        }
        match self.history_position {
            None => {
                self.recall(n - 1);
            },
            Some(pos) => {
                if pos > 0 {
                    self.recall(pos - 1);
                } else {
                    self.output_buffer.push(7u8);
                }
            },
        }
    }

    /// Recalls the next line of the history.
    pub fn next_line(&mut self)
        requires
            old(self)@.wf(),
        ensures
            final(self)@ == next_line_spec(old(self)@),
            final(self)@.wf(),
    {
        proof {
            reveal(next_line_spec);
        }
        self.erase_line();
        proof {
            lemma_texts(self.history@);
        }
        match self.history_position {
            Some(pos) => {
                if pos + 1 < self.history.len() {
                    self.recall(pos + 1);
                } else {
                    self.history_position = None;
                }
            },
            None => {
                self.output_buffer.push(7u8);
            },
        }
    }

    /// Types a semicolon; on an empty line the last explicit sendlist is
    /// put before it.
    pub fn do_semicolon(&mut self, last_explicit: &str)
        requires
            old(self)@.wf(),
        ensures
            final(self)@ == insert_with_prefix_spec(old(self)@, last_explicit.spec_bytes(), 59),
            final(self)@.wf(),
    {
        proof {
            reveal(insert_with_prefix_spec);
        }
        if self.point == 0 {
            self.insert_bytes(last_explicit.as_bytes());
        }
        self.insert_char(59);
    }

    /// Types a colon; on an empty line the reply sendlist is put before
    /// it.
    pub fn do_colon(&mut self, reply: &str)
        requires
            old(self)@.wf(),
        ensures
            final(self)@ == insert_with_prefix_spec(old(self)@, reply.spec_bytes(), 58),
            final(self)@.wf(),
    {
        proof {
            reveal(insert_with_prefix_spec);
        }
        if self.point == 0 {
            self.insert_bytes(reply.as_bytes());
        }
        self.insert_char(58);
    }

    /// Removes the prompt and input line from the screen.
    #[verifier::rlimit(50)]
    pub fn undraw_input(&mut self)
        requires
            old(self)@.wf(),
        ensures
            final(self)@ == undraw_input_spec(old(self)@),
            final(self)@.wf(),
    {
        proof {
            reveal(undraw_input_spec);
        }
        if self.undrawn {
            return;
        }
        self.undrawn = true;
        let lines: usize;
        if self.echo == TELNET_ENABLED && self.do_echo {
            if self.prompt.len() == 0 && self.data.len() == 0 {
                return;
            }
            lines = self.line_at(self.point);
        } else {
            if self.prompt.len() == 0 {
                return;
            }
            lines = self.prompt.len() / self.width;
        }
        self.output_buffer.push(RETURN);
        self.output_buffer.push(NULL);
        if lines > 0 {
            push_csi(&mut self.output_buffer, lines, 65);
        }
        self.output_buffer.push(ESCAPE);
        self.output_buffer.push(91u8);
        self.output_buffer.push(74u8);
    }

    /// Draws the prompt and input line again.
    pub fn redraw_input(&mut self)
        requires
            old(self)@.wf(),
        ensures
            final(self)@ == redraw_input_spec(old(self)@),
            final(self)@.wf(),
    {
        proof {
            reveal(redraw_input_spec);
        }
        if !self.undrawn {
            return;
        }
        self.undrawn = false;
        push_escaped(&mut self.output_buffer, self.prompt.as_slice());
        let len = self.data.len();
        if len > 0 && self.echo == TELNET_ENABLED && self.do_echo {
            let ghost mid = self.output_buffer@;
            push_escaped(&mut self.output_buffer, self.data.as_slice());
            if self.col_at(len) == 0 {
                self.output_buffer.push(SPACE);
                self.output_buffer.push(BACKSPACE);
            }
            if self.point < len {
                proof {
                    lemma_wrap_bound(self.prompt@.len(), self.point as nat, len as nat, self.width as nat);
                }
                let lines = self.line_at(len) - self.line_at(self.point);
                let to = self.col_at(len);
                let from = self.col_at(self.point);
                push_vert(&mut self.output_buffer, lines, 65);
                push_horiz(&mut self.output_buffer, to, from, 68, 67);
            }
            proof {
                let v = old(self)@;
                let fix = if v.col(len as nat) == 0 {
                    seq![SPACE, BACKSPACE]
                } else {
                    Seq::empty()
                };
                let back = if v.point < len {
                    vert(v.line(len as nat) - v.line(v.point), 65) + horiz(
                        v.col(len as nat) - v.col(v.point),
                        68,
                        67,
                    )
                } else {
                    Seq::empty()
                };
                assert(self.output_buffer@ =~= mid + (escape(v.data) + fix + back));
            }
        }
    }

    /// Takes a new terminal width (0 for the default, at least the
    /// minimum), redrawing the input if it changed; returns the width.
    pub fn set_new_width(&mut self, n: usize) -> (r: usize)
        requires
            old(self)@.wf(),
            n <= max_len(),
        ensures
            r == new_width_spec(n as nat),
            final(self)@ == set_new_width_spec(old(self)@, n as nat),
            final(self)@.wf(),
            final(self)@.naws_height == old(self)@.naws_height,
    {
        proof {
            reveal(set_new_width_spec);
            reveal(undraw_input_spec);
            reveal(redraw_input_spec);
        }
        let new_width = if n == 0 {
            DEFAULT_WIDTH
        } else if n < MINIMUM_WIDTH {
            MINIMUM_WIDTH
        } else {
            n
        };
        if self.width != new_width {
            self.undraw_input();
            self.width = new_width;
            self.redraw_input();
        }
        new_width
    }

    /// Takes a new terminal height (0 for the default); returns it.
    pub fn set_new_height(&mut self, n: usize) -> (r: usize)
        requires
            old(self)@.wf(),
        ensures
            r == new_height_spec(n as nat),
            final(self)@ == (TelnetView { height: r as nat, ..old(self)@ }),
            final(self)@.wf(),
    {
        let new_height = if n == 0 {
            DEFAULT_HEIGHT
        } else {
            n
        };
        self.height = new_height;
        new_height
    }

    /// Clears the screen and draws the input again.
    pub fn clear_screen(&mut self)
        requires
            old(self)@.wf(),
        ensures
            final(self)@ == clear_screen_spec(old(self)@),
            final(self)@.wf(),
    {
        proof {
            reveal(clear_screen_spec);
        }
        self.undraw_input();
        let ghost v1 = self@;
        self.output_buffer.push(ESCAPE);
        self.output_buffer.push(91u8);
        self.output_buffer.push(72u8);
        self.output_buffer.push(ESCAPE);
        self.output_buffer.push(91u8);
        self.output_buffer.push(74u8);
        assert(self@ =~= v1.emit(seq![ESCAPE, 91u8, 72u8, ESCAPE, 91u8, 74u8]));
        self.redraw_input();
    }

    /// Whether the initial option negotiations are over.
    pub fn options_finished(&self) -> (r: bool)
        ensures
            r == options_finished_spec(self@),
    {
        !(self.lbin == TELNET_WILL_WONT || self.rbin == TELNET_DO_DONT || self.echo == TELNET_WILL_WONT)
    }

    /// Sends the welcome banner, once.
    pub fn welcome(&mut self)
        requires
            old(self)@.wf(),
        ensures
            final(self)@ == welcome_spec(old(self)@),
            final(self)@.wf(),
    {
        if !self.welcome_sent {
            self.output("\nWelcome to Phoenix! (");
            self.output(VERSION);
            self.output(")\n\n");
            self.welcome_sent = true;
        }
    }

    /// Finishes the initial negotiations (see `check_options_spec`).
    #[verifier::rlimit(50)]
    pub fn check_options(&mut self, force: bool)
        requires
            old(self)@.wf(),
        ensures
            final(self)@ == check_options_spec(old(self)@, force),
            !force && !options_finished_spec(old(self)@) ==> final(self)@ == old(self)@,
            final(self)@.data == old(self)@.data,
            final(self)@.history == old(self)@.history,
            final(self).do_echo == old(self).do_echo,
            final(self)@.wf(),
    {
        proof {
            reveal(check_options_spec);
        }
        if force {
            self.lsga = TELNET_ENABLED;
            self.rsga = TELNET_ENABLED;
            self.lbin = TELNET_ENABLED;
            self.rbin = TELNET_ENABLED;
            self.echo = 0;
            self.naws = 0;
            self.welcome_sent = true;
            self.output(RAW_TCP_NOTICE);
            self.welcome();
        } else if self.lbin == TELNET_WILL_WONT || self.rbin == TELNET_DO_DONT || self.echo
            == TELNET_WILL_WONT {
            return;
        }
        let ghost v1 = self@;
        if self.lbin == 0 {
            self.output(BINARY_OUTPUT_REFUSED);
        }
        if self.rbin == 0 {
            self.output(BINARY_INPUT_REFUSED);
        }
        if !self.acknowledge {
            self.output(BROKEN_CLIENT);
        }
        self.output("login: ");
        proof {
            let a = if v1.lbin == 0 {
                escape(BINARY_OUTPUT_REFUSED.spec_bytes())
            } else {
                Seq::empty()
            };
            let b = if v1.rbin == 0 {
                escape(BINARY_INPUT_REFUSED.spec_bytes())
            } else {
                Seq::empty()
            };
            let c = if !v1.acknowledge {
                escape(BROKEN_CLIENT.spec_bytes())
            } else {
                Seq::empty()
            };
            assert(self@ =~= v1.emit(a + b + c + escape("login: ".spec_bytes())));
        }
    }

    /// Queues `IAC cmd opt` on the command queue.
    fn command(&mut self, cmd: u8, opt: u8)
        ensures
            final(self)@ == command_spec(old(self)@, cmd, opt),
    {
        self.command_buffer.push(IAC);
        self.command_buffer.push(cmd);
        self.command_buffer.push(opt);
    }

    /// Asks for a timing mark in the output stream when output is being
    /// acknowledged; the count of outstanding marks wraps like the atomic
    /// counter it models.
    pub fn timing_mark(&mut self)
        requires
            old(self)@.wf(),
        ensures
            final(self)@ == timing_mark_spec(old(self)@),
            final(self)@.wf(),
    {
        if self.acknowledge {
            self.outstanding = if self.outstanding == usize::MAX {
                0
            } else {
                self.outstanding + 1
            };
            self.output_buffer.push(IAC);
            self.output_buffer.push(CMD_DO);
            self.output_buffer.push(OPT_TIMING_MARK);
        }
    }

    /// Starts closing the connection: no more echo, and when draining with
    /// acknowledged output a final timing mark (the network side flushes
    /// and shuts the stream).
    pub fn close_begin(&mut self, drain: bool)
        requires
            old(self)@.wf(),
        ensures
            final(self)@ == close_spec(old(self)@, drain),
            final(self)@.wf(),
    {
        self.closing = true;
        if drain {
            self.do_echo = false;
            self.timing_mark();
        }
    }

    /// Finishes the initial negotiations if an answer completed them; as
    /// `check_options` only acts once they are over, this changes nothing.
    fn recheck_options(&mut self)
        requires
            old(self)@.wf(),
        ensures
            final(self)@ == old(self)@,
    {
        if !self.options_finished() {
            self.check_options(false);
        }
    }

    /// Answers `IAC WILL/WONT TRANSMIT-BINARY`.
    fn will_binary(&mut self, will: bool)
        requires
            old(self)@.wf(),
        ensures
            final(self)@ == will_binary_spec(old(self)@, will),
            final(self)@.wf(),
    {
        let (b, sent) = negotiate(self.rbin, will, TELNET_WILL_WONT, TELNET_DO_DONT);
        if sent {
            self.command(if will { CMD_DO } else { CMD_DONT }, OPT_BINARY);
            if will && self.lbin == 0 {
                self.command(CMD_WILL, OPT_BINARY);
                self.lbin = self.lbin | TELNET_WILL_WONT;
            }
        }
        self.rbin = b;
    }

    /// Answers `IAC WILL/WONT SUPPRESS-GO-AHEAD`.
    fn will_sga(&mut self, will: bool)
        requires
            old(self)@.wf(),
        ensures
            final(self)@ == will_sga_spec(old(self)@, will),
            final(self)@.wf(),
    {
        let (b, sent) = negotiate(self.rsga, will, TELNET_WILL_WONT, TELNET_DO_DONT);
        if sent {
            self.command(if will { CMD_DO } else { CMD_DONT }, OPT_SGA);
            if will && self.lsga == 0 {
                self.command(CMD_WILL, OPT_SGA);
                self.lsga = self.lsga | TELNET_WILL_WONT;
            }
        }
        self.rsga = b;
    }

    /// Answers `IAC WILL/WONT NAWS`.
    fn will_naws(&mut self, will: bool)
        requires
            old(self)@.wf(),
        ensures
            final(self)@ == will_naws_spec(old(self)@, will),
            final(self)@.wf(),
    {
        let (b, sent) = negotiate(self.naws, will, TELNET_WILL_WONT, TELNET_DO_DONT);
        if sent {
            self.command(if will { CMD_DO } else { CMD_DONT }, OPT_NAWS);
        }
        self.naws = b;
    }

    /// Takes a timing mark that came back.
    fn timing_mark_reply(&mut self)
        requires
            old(self)@.wf(),
        ensures
            final(self)@ == timing_mark_reply_spec(old(self)@),
            final(self)@.wf(),
    {
        if self.outstanding > 0 {
            self.outstanding = self.outstanding - 1;
        }
        if self.outstanding == 0 {
            self.acknowledge = true;
        }
    }

    /// Handles `IAC WILL opt` (`will`) or `IAC WONT opt`; returns whether
    /// output is to be acknowledged to the session (a timing mark came
    /// back).
    pub fn process_will_wont(&mut self, will: bool, opt: u8) -> (ack: bool)
        requires
            old(self)@.wf(),
        ensures
            final(self)@ == will_wont_spec(old(self)@, will, opt),
            ack == (opt == OPT_TIMING_MARK && old(self).acknowledge),
            final(self)@.wf(),
    {
        let ack = opt == OPT_TIMING_MARK && self.acknowledge;
        self.answer_will_wont(will, opt);
        self.state = TelnetState::Data;
        ack
    }

    /// Answers `IAC WILL opt` or `IAC WONT opt`.
    fn answer_will_wont(&mut self, will: bool, opt: u8)
        requires
            old(self)@.wf(),
        ensures
            final(self)@ == answer_will_wont_spec(old(self)@, will, opt),
            final(self)@.wf(),
    {
        if opt == OPT_BINARY {
            self.will_binary(will);
            self.recheck_options();
        } else if opt == OPT_SGA {
            self.will_sga(will);
            self.recheck_options();
        } else if opt == OPT_NAWS {
            self.will_naws(will);
            self.recheck_options();
        } else if opt == OPT_TIMING_MARK {
            self.timing_mark_reply();
        } else if will {
            self.command(CMD_DONT, opt);
        }
    }

    /// Answers `IAC DO/DONT TRANSMIT-BINARY`.
    fn do_binary(&mut self, do_: bool)
        requires
            old(self)@.wf(),
        ensures
            final(self)@ == do_binary_spec(old(self)@, do_),
            final(self)@.wf(),
    {
        let (b, sent) = negotiate(self.lbin, do_, TELNET_DO_DONT, TELNET_WILL_WONT);
        if sent {
            self.command(if do_ { CMD_WILL } else { CMD_WONT }, OPT_BINARY);
            if do_ && self.rbin == 0 {
                self.command(CMD_DO, OPT_BINARY);
                self.rbin = self.rbin | TELNET_DO_DONT;
            }
        }
        self.lbin = b;
    }

    /// Answers `IAC DO/DONT ECHO`.
    fn do_echo_option(&mut self, do_: bool)
        requires
            old(self)@.wf(),
        ensures
            final(self)@ == do_echo_spec(old(self)@, do_),
            final(self)@.wf(),
    {
        let (b, sent) = negotiate(self.echo, do_, TELNET_DO_DONT, TELNET_WILL_WONT);
        if sent {
            self.command(if do_ { CMD_WILL } else { CMD_WONT }, OPT_ECHO);
        }
        self.echo = b;
    }

    /// Answers `IAC DO/DONT SUPPRESS-GO-AHEAD`.
    fn do_sga(&mut self, do_: bool)
        requires
            old(self)@.wf(),
        ensures
            final(self)@ == do_sga_spec(old(self)@, do_),
            final(self)@.wf(),
    {
        let (b, sent) = negotiate(self.lsga, do_, TELNET_DO_DONT, TELNET_WILL_WONT);
        if sent {
            self.command(if do_ { CMD_WILL } else { CMD_WONT }, OPT_SGA);
            if do_ && self.rsga == 0 {
                self.command(CMD_DO, OPT_SGA);
                self.rsga = self.rsga | TELNET_DO_DONT;
            }
        }
        self.lsga = b;
    }

    /// Handles `IAC DO opt` (`do_`) or `IAC DONT opt`.
    #[verifier::rlimit(30)]
    pub fn process_do_dont(&mut self, do_: bool, opt: u8)
        requires
            old(self)@.wf(),
        ensures
            final(self)@ == do_dont_spec(old(self)@, do_, opt),
            final(self)@.wf(),
    {
        if opt == OPT_BINARY {
            self.do_binary(do_);
            self.recheck_options();
        } else if opt == OPT_ECHO {
            self.do_echo_option(do_);
            self.recheck_options();
        } else if opt == OPT_SGA {
            self.do_sga(do_);
            self.recheck_options();
        } else if do_ {
            self.command(CMD_WONT, opt);
        }
        self.state = TelnetState::Data;
    }

    /// Handles a byte of a subnegotiation sequence.
    pub fn process_subnegotiation(&mut self, byte: u8)
        requires
            old(self)@.wf(),
            old(self).state == TelnetState::SubnegotiationBegin || old(self).state
                == TelnetState::SubnegotiationEnd,
        ensures
            final(self)@ == subnegotiation_spec(old(self)@, byte),
            final(self)@.wf(),
    {
        proof {
            reveal(subnegotiation_spec);
        }
        if self.state == TelnetState::SubnegotiationBegin && byte == IAC {
            self.state = TelnetState::SubnegotiationEnd;
            return;
        }
        if self.state == TelnetState::SubnegotiationEnd {
            if byte == CMD_SE {
                if self.sb_state == TelnetSubnegotiationState::NAWSDone {
                    let w = self.naws_width;
                    self.set_new_width(w);
                    let h = self.naws_height;
                    self.set_new_height(h);
                }
                self.state = TelnetState::Data;
                self.sb_state = TelnetSubnegotiationState::Idle;
                return;
            } else {
                self.state = TelnetState::SubnegotiationBegin;
                if byte != IAC {
                    return;
                }
            }
        }
        match self.sb_state {
            TelnetSubnegotiationState::Idle => {
                if byte == OPT_NAWS {
                    self.sb_state = TelnetSubnegotiationState::NAWSWidthHigh;
                } else {
                    self.sb_state = TelnetSubnegotiationState::Unknown;
                }
            },
            TelnetSubnegotiationState::NAWSWidthHigh => {
                self.naws_width = (byte as usize) * 256;
                self.sb_state = TelnetSubnegotiationState::NAWSWidthLow;
            },
            TelnetSubnegotiationState::NAWSWidthLow => {
                self.naws_width = self.naws_width + byte as usize;
                self.sb_state = TelnetSubnegotiationState::NAWSHeightHigh;
            },
            TelnetSubnegotiationState::NAWSHeightHigh => {
                self.naws_height = (byte as usize) * 256;
                self.sb_state = TelnetSubnegotiationState::NAWSHeightLow;
            },
            TelnetSubnegotiationState::NAWSHeightLow => {
                self.naws_height = self.naws_height + byte as usize;
                self.sb_state = TelnetSubnegotiationState::NAWSDone;
            },
            _ => {},
        }
    }

    /// Offers to echo: queues `IAC WILL ECHO` and records the request.
    pub fn will_echo(&mut self)
        requires
            old(self)@.wf(),
        ensures
            final(self)@ == (TelnetView { echo: old(self).echo | TELNET_WILL_WONT, ..command_spec(old(self)@, CMD_WILL, OPT_ECHO) }),
            final(self)@.wf(),
    {
        self.command(CMD_WILL, OPT_ECHO);
        self.echo = self.echo | TELNET_WILL_WONT;
    }

    /// Stops echoing: queues `IAC WONT ECHO` and records the request.
    pub fn wont_echo(&mut self)
        requires
            old(self)@.wf(),
        ensures
            final(self)@ == (TelnetView { echo: old(self).echo & !TELNET_WILL_WONT, ..command_spec(old(self)@, CMD_WONT, OPT_ECHO) }),
            final(self)@.wf(),
    {
        self.command(CMD_WONT, OPT_ECHO);
        self.echo = self.echo & !TELNET_WILL_WONT;
    }

    /// Offers to suppress go-aheads: queues `IAC WILL SGA` and records the request.
    pub fn will_lsga(&mut self)
        requires
            old(self)@.wf(),
        ensures
            final(self)@ == (TelnetView { lsga: old(self).lsga | TELNET_WILL_WONT, ..command_spec(old(self)@, CMD_WILL, OPT_SGA) }),
            final(self)@.wf(),
    {
        self.command(CMD_WILL, OPT_SGA);
        self.lsga = self.lsga | TELNET_WILL_WONT;
    }

    /// Stops suppressing go-aheads: queues `IAC WONT SGA` and records the request.
    pub fn wont_lsga(&mut self)
        requires
            old(self)@.wf(),
        ensures
            final(self)@ == (TelnetView { lsga: old(self).lsga & !TELNET_WILL_WONT, ..command_spec(old(self)@, CMD_WONT, OPT_SGA) }),
            final(self)@.wf(),
    {
        self.command(CMD_WONT, OPT_SGA);
        self.lsga = self.lsga & !TELNET_WILL_WONT;
    }

    /// Asks the client to suppress go-aheads: queues `IAC DO SGA` and records the request.
    pub fn do_rsga(&mut self)
        requires
            old(self)@.wf(),
        ensures
            final(self)@ == (TelnetView { rsga: old(self).rsga | TELNET_DO_DONT, ..command_spec(old(self)@, CMD_DO, OPT_SGA) }),
            final(self)@.wf(),
    {
        self.command(CMD_DO, OPT_SGA);
        self.rsga = self.rsga | TELNET_DO_DONT;
    }

    /// Asks the client to stop suppressing go-aheads: queues `IAC DONT SGA` and records the request.
    pub fn dont_rsga(&mut self)
        requires
            old(self)@.wf(),
        ensures
            final(self)@ == (TelnetView { rsga: old(self).rsga & !TELNET_DO_DONT, ..command_spec(old(self)@, CMD_DONT, OPT_SGA) }),
            final(self)@.wf(),
    {
        self.command(CMD_DONT, OPT_SGA);
        self.rsga = self.rsga & !TELNET_DO_DONT;
    }

    /// Offers to send binary: queues `IAC WILL BINARY` and records the request.
    pub fn will_lbin(&mut self)
        requires
            old(self)@.wf(),
        ensures
            final(self)@ == (TelnetView { lbin: old(self).lbin | TELNET_WILL_WONT, ..command_spec(old(self)@, CMD_WILL, OPT_BINARY) }),
            final(self)@.wf(),
    {
        self.command(CMD_WILL, OPT_BINARY);
        self.lbin = self.lbin | TELNET_WILL_WONT;
    }

    /// Stops sending binary: queues `IAC WONT BINARY` and records the request.
    pub fn wont_lbin(&mut self)
        requires
            old(self)@.wf(),
        ensures
            final(self)@ == (TelnetView { lbin: old(self).lbin & !TELNET_WILL_WONT, ..command_spec(old(self)@, CMD_WONT, OPT_BINARY) }),
            final(self)@.wf(),
    {
        self.command(CMD_WONT, OPT_BINARY);
        self.lbin = self.lbin & !TELNET_WILL_WONT;
    }

    /// Asks the client to send binary: queues `IAC DO BINARY` and records the request.
    pub fn do_rbin(&mut self)
        requires
            old(self)@.wf(),
        ensures
            final(self)@ == (TelnetView { rbin: old(self).rbin | TELNET_DO_DONT, ..command_spec(old(self)@, CMD_DO, OPT_BINARY) }),
            final(self)@.wf(),
    {
        self.command(CMD_DO, OPT_BINARY);
        self.rbin = self.rbin | TELNET_DO_DONT;
    }

    /// Asks the client to stop sending binary: queues `IAC DONT BINARY` and records the request.
    pub fn dont_rbin(&mut self)
        requires
            old(self)@.wf(),
        ensures
            final(self)@ == (TelnetView { rbin: old(self).rbin & !TELNET_DO_DONT, ..command_spec(old(self)@, CMD_DONT, OPT_BINARY) }),
            final(self)@.wf(),
    {
        self.command(CMD_DONT, OPT_BINARY);
        self.rbin = self.rbin & !TELNET_DO_DONT;
    }

    /// Asks the client to report its window size: queues `IAC DO NAWS` and records the request.
    pub fn do_naws(&mut self)
        requires
            old(self)@.wf(),
        ensures
            final(self)@ == (TelnetView { naws: old(self).naws | TELNET_DO_DONT, ..command_spec(old(self)@, CMD_DO, OPT_NAWS) }),
            final(self)@.wf(),
    {
        self.command(CMD_DO, OPT_NAWS);
        self.naws = self.naws | TELNET_DO_DONT;
    }

    /// Asks the client to stop reporting its window size: queues `IAC DONT NAWS` and records the request.
    pub fn dont_naws(&mut self)
        requires
            old(self)@.wf(),
        ensures
            final(self)@ == (TelnetView { naws: old(self).naws & !TELNET_DO_DONT, ..command_spec(old(self)@, CMD_DONT, OPT_NAWS) }),
            final(self)@.wf(),
    {
        self.command(CMD_DONT, OPT_NAWS);
        self.naws = self.naws & !TELNET_DO_DONT;
    }

    /// Starts the option negotiations of a new connection: two timing
    /// marks to test the client, the options wanted, and the welcome
    /// banner (the network side flushes them).
    pub fn init_telnet_options(&mut self)
        requires
            old(self)@.wf(),
        ensures
            final(self)@ == init_options_spec(old(self)@),
            final(self)@.wf(),
    {
        self.command(CMD_DO, OPT_TIMING_MARK);
        self.command(CMD_DO, OPT_TIMING_MARK);
        self.will_lsga();
        self.do_rsga();
        self.will_lbin();
        self.do_rbin();
        self.will_echo();
        self.do_naws();
        self.output("\nWelcome to Phoenix! (");
        self.output(VERSION);
        self.output(")\n\n");
    }

    /// The first half of accepting an input line: finishes the option
    /// negotiations if they are still going (a raw TCP client), forgets
    /// the history position and adds the line to the history when
    /// echoing; returns the line.
    pub fn accept_input_begin(&mut self) -> (line: String)
        requires
            old(self)@.wf(),
        ensures
            line@ == utf8_lossy(old(self)@.data),
            final(self)@ == accept_begin_spec(old(self)@, line@),
            final(self)@.wf(),
    {
        let do_echo = self.do_echo;
        if !self.options_finished() {
            self.check_options(true);
        }
        let line = text_from_bytes(self.data.as_slice());
        self.history_position = None;
        if do_echo && !line.as_str().is_empty() {
            let ghost h0 = self.history@;
            if self.history.len() >= HISTORY_MAX {
                self.history.remove(0);
                proof {
                    lemma_texts_drop_first(h0);
                }
            }
            let ghost h1 = self.history@;
            self.history.push(line.clone());
            proof {
                lemma_texts(h0);
                lemma_texts_push(h1, line);
            }
        }
        line
    }

    /// The second half of accepting an input line: moves to its end and
    /// echoes a newline, then clears the line, mark and prompt.  Returns
    /// whether the input was undrawn, in which case the session prints the
    /// line itself.
    pub fn accept_input_end(&mut self) -> (undrawn: bool)
        requires
            old(self)@.wf(),
        ensures
            undrawn == old(self).undrawn,
            final(self)@ == accept_end_spec(old(self)@),
            final(self)@.wf(),
    {
        let undrawn = self.undrawn;
        if !undrawn {
            if self.point < self.data.len() {
                self.end_of_line();
            }
            if self.echo == TELNET_ENABLED && self.do_echo {
                self.output_buffer.push(RETURN);
                self.output_buffer.push(NEWLINE);
            }
        }
        self.data.clear();
        self.point = 0;
        self.mark = None;
        self.prompt.clear();
        undrawn
    }

    /// Shows a new prompt, drawing it unless the input is undrawn.
    pub fn show_prompt(&mut self, p: &str)
        requires
            old(self)@.wf(),
            p.spec_bytes().len() <= max_len(),
        ensures
            final(self)@ == show_prompt_spec(old(self)@, p.spec_bytes()),
            final(self)@.wf(),
    {
        let bytes = p.as_bytes();
        let mut v: Vec<u8> = Vec::new();
        let mut i: usize = 0;
        while i < bytes.len()
            invariant
                i <= bytes.len(),
                v@ == bytes@.subrange(0, i as int),
            decreases bytes.len() - i,
        {
            v.push(bytes[i]);
            i += 1;
        }
        proof {
            assert(bytes@.subrange(0, bytes.len() as int) =~= bytes@);
        }
        self.prompt = v;
        if !self.undrawn {
            self.output(p);
        }
    }

    /// A new connection: default size, echoing, two timing marks
    /// outstanding, nothing negotiated yet.
    pub fn new() -> (t: Telnet)
        ensures
            t@ == initial_view(),
            t@.wf(),
    {
        let t = Telnet {
            state: TelnetState::Data,
            sb_state: TelnetSubnegotiationState::Idle,
            echo: 0,
            lsga: 0,
            rsga: 0,
            lbin: 0,
            rbin: 0,
            naws: 0,
            width: DEFAULT_WIDTH,
            height: DEFAULT_HEIGHT,
            naws_width: 0,
            naws_height: 0,
            outstanding: 2,
            acknowledge: false,
            welcome_sent: false,
            closing: false,
            close_on_eof: true,
            do_echo: true,
            undrawn: false,
            data: Vec::new(),
            point: 0,
            mark: None,
            prompt: Vec::new(),
            history: Vec::new(),
            history_position: None,
            kill_ring: Vec::new(),
            output_buffer: Vec::new(),
            command_buffer: Vec::new(),
        };
        proof {
            lemma_texts(t.history@);
            lemma_texts(t.kill_ring@);
            assert(t@ =~= initial_view());
        }
        t
    }
}

} // verus!

verus! {

/// Typing a character and erasing it again leaves the input line and the
/// cursor as they were.
pub proof fn lemma_erase_undoes_insert(v: TelnetView, ch: u8)
    requires
        v.wf(),
        insertable(ch),
        v.data.len() < max_len(),
    ensures
        erase_char_spec(insert_char_spec(v, ch)).data == v.data,
        erase_char_spec(insert_char_spec(v, ch)).point == v.point,
{
    reveal(insert_char_spec);
    reveal(delete_char_spec);
    let v1 = insert_char_spec(v, ch);
    assert(v1.point == v.point + 1);
    if v.point >= v.data.len() {
        assert(v1.data == v.data.push(ch));
        assert(v1.data.remove(v.point as int) =~= v.data);
    } else {
        assert(v1.data == v.data.insert(v.point as int, ch));
        assert(v1.data.remove(v.point as int) =~= v.data);
    }
    let v2 = backward_char_spec(v1);
    assert(v2.point == v.point);
    assert(v2.data == v1.data);
}

} // verus!

verus! {

/// Control-T swaps two characters and leaves the rest of the line alone:
/// at the end of a line of two or more characters, the last two, with the
/// point staying at the end; inside the line, the characters on either
/// side of the point, with the point moving past them.
pub proof fn lemma_transpose_swaps(v: TelnetView)
    requires
        v.wf(),
        0 < v.point,
        v.data.len() >= 2,
    ensures
        ({
            let r = transpose_chars_spec(v);
            let n = v.data.len() as int;
            let p = v.point as int;
            &&& r.data.len() == n
            &&& p == n ==> r.point == n && r.data[n - 2] == v.data[n - 1] && r.data[n - 1] == v.data[n - 2]
                && forall|i: int| 0 <= i < n - 2 ==> r.data[i] == v.data[i]
            &&& p < n ==> r.point == p + 1 && r.data[p - 1] == v.data[p] && r.data[p] == v.data[p - 1]
                && forall|i: int| 0 <= i < n && i != p - 1 && i != p ==> r.data[i] == v.data[i]
        }),
{
    reveal(transpose_chars_spec);
}

} // verus!
