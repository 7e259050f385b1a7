//! Turning the raw byte stream of a server console into lines.
//!
//! Bytes gather in a buffer until it ends with the platform's line
//! terminator; the buffer then leaves as one line. A line counts as an echo
//! of user input when it is the first line completed after input was
//! written, and as server output otherwise. This is a heuristic: a server
//! that echoes or buffers unusually can mislead it.
use vstd::prelude::*;
use vstd::string::*;
use vstd::utf8::{decode_utf8, encode_utf8, valid_utf8};
use crate::platform::TargetOs;

verus! {

/// One line of console traffic.
#[derive(Debug, Clone, PartialEq, Eq)]
pub enum TerminalText {
    Input(String),
    Output(String),
}

pub open spec fn text_content(t: TerminalText) -> Seq<char> {
    match t {
        TerminalText::Input(s) => s@,
        TerminalText::Output(s) => s@,
    }
}

/// A line as `(is an input echo, its characters)`.
pub open spec fn line_view(r: Option<TerminalText>) -> Option<(bool, Seq<char>)> {
    match r {
        Some(t) => Some((t is Input, text_content(t))),
        None => None,
    }
}

impl TerminalText {
    pub fn is_input(&self) -> (r: bool)
        ensures
            r == (*self is Input),
    {
        match self {
            TerminalText::Input(_) => true,
            TerminalText::Output(_) => false,
        }
    }

    pub fn text(&self) -> (r: &str)
        ensures
            r@ == text_content(*self),
    {
        match self {
            TerminalText::Input(s) => s.as_str(),
            TerminalText::Output(s) => s.as_str(),
        }
    }
}

/// Whether `b` ends with the line terminator of `os`: CR LF on Linux, LF on
/// Windows. A buffer shorter than two bytes never ends a line.
pub open spec fn ends_line(os: TargetOs, b: Seq<u8>) -> bool {
    b.len() >= 2 && b.last() == 10 && (os == TargetOs::Windows || b[b.len() - 2] == 13)
}

/// What follows a command written to the console of `os`.
pub open spec fn input_suffix(os: TargetOs) -> Seq<u8> {
    match os {
        TargetOs::Linux => seq![10u8, 0u8],
        TargetOs::Windows => seq![10u8],
    }
}

/// The bytes written to the console for the command `line`.
pub fn frame_input(line: &str, os: TargetOs) -> (r: Vec<u8>)
    ensures
        r@ == encode_utf8(line@) + input_suffix(os),
{
    let mut v = line.as_bytes_vec();
    v.push(10u8);
    match os {
        TargetOs::Linux => {
            v.push(0u8);
        },
        TargetOs::Windows => {},
    }
    assert(v@ =~= encode_utf8(line@) + input_suffix(os));
    v
}

/// Relies on `String::from_utf8`: it accepts exactly the byte sequences
/// that are valid UTF-8, and the string then holds the characters they encode.
#[verifier::external_body]
fn string_from_utf8(bytes: Vec<u8>) -> (r: Option<String>)
    ensures
        r is Some <==> valid_utf8(bytes@),
        r matches Some(s) ==> s@ == decode_utf8(bytes@),
{
    String::from_utf8(bytes).ok()
}

pub struct FramerView {
    pub buffer: Seq<u8>,
    pub input_pending: bool,
    pub os: TargetOs,
}

/// The framer after one more byte, and the line it completes, if any.
/// A completed buffer that is not valid UTF-8 is dropped without a line.
pub open spec fn framer_step(f: FramerView, byte: u8) -> (FramerView, Option<(bool, Seq<char>)>) {
    let b = f.buffer.push(byte);
    if !ends_line(f.os, b) {
        (FramerView { buffer: b, ..f }, None)
    } else if !valid_utf8(b) {
        (FramerView { buffer: Seq::empty(), ..f }, None)
    } else {
        (
            FramerView { buffer: Seq::empty(), input_pending: false, os: f.os },
            Some((f.input_pending, decode_utf8(b))),
        )
    }
}

/// Rolling line assembly with the input-echo flag.
pub struct LineFramer {
    buffer: Vec<u8>,
    input_pending: bool,
    os: TargetOs,
}

impl View for LineFramer {
    type V = FramerView;

    closed spec fn view(&self) -> FramerView {
        FramerView { buffer: self.buffer@, input_pending: self.input_pending, os: self.os }
    }
}

impl LineFramer {
    pub fn new(os: TargetOs) -> (r: LineFramer)
        ensures
            r@ == (FramerView { buffer: Seq::empty(), input_pending: false, os }),
    {
        LineFramer { buffer: Vec::new(), input_pending: false, os }
    }

    /// Takes one byte read from the console.
    pub fn push_byte(&mut self, byte: u8) -> (r: Option<TerminalText>)
        ensures
            (final(self)@, line_view(r)) == framer_step(old(self)@, byte),
    {
        self.buffer.push(byte);
        let n = self.buffer.len();
        let ends = n >= 2 && self.buffer[n - 1] == 10u8 && (match self.os {
            TargetOs::Windows => true,
            TargetOs::Linux => self.buffer[n - 2] == 13u8,
        });
        if !ends {
            return None;
        }
        let mut bytes: Vec<u8> = Vec::new();
        std::mem::swap(&mut bytes, &mut self.buffer);
        match string_from_utf8(bytes) {
            None => None,
            Some(s) => {
                if self.input_pending {
                    self.input_pending = false;
                    Some(TerminalText::Input(s))
                } else {
                    Some(TerminalText::Output(s))
                }
            },
        }
    }

    pub fn os(&self) -> (r: TargetOs)
        ensures
            r == self@.os,
    {
        self.os
    }

    /// Records that a command was written: the next line is its echo.
    pub fn input_sent(&mut self)
        ensures
            final(self)@ == (FramerView { input_pending: true, ..old(self)@ }),
    {
        self.input_pending = true;
    }
}

} // verus!
