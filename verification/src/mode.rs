//! Modes and the translation of incoming command text into a mode.
//!
//! A command arrives as an arbitrary byte payload. Bytes that are not
//! valid UTF-8 are discarded (no mode at all); well-formed text that is
//! not a recognized token falls back to the cycle mode.

use vstd::prelude::*;

verus! {

/// The selector naming which sequence is active, plus the internal
/// connection signal that never selects a sequence itself.
#[derive(Clone, Copy, PartialEq, Eq, Structural, Debug)]
pub enum Mode {
    Cycle,
    Red,
    Yellow,
    Green,
    Blue,
    Purple,
    Connected,
}

/// A UTF-8 continuation byte.
pub open spec fn is_cont(b: u8) -> bool {
    0x80 <= b <= 0xbf
}

/// Whether `s` is a well-formed UTF-8 byte sequence. The leading byte
/// decides the length of each encoded scalar value; overlong forms,
/// surrogates and values past U+10FFFF are excluded, as the standard
/// encoding demands.
pub open spec fn is_valid_utf8(s: Seq<u8>) -> bool
    decreases s.len(),
{
    if s.len() == 0 {
        true
    } else {
        let b0 = s[0];
        if b0 < 0x80 {
            is_valid_utf8(s.skip(1))
        } else if 0xc2 <= b0 <= 0xdf {
            s.len() >= 2 && is_cont(s[1]) && is_valid_utf8(s.skip(2))
        } else if b0 == 0xe0 {
            s.len() >= 3 && 0xa0 <= s[1] <= 0xbf && is_cont(s[2]) && is_valid_utf8(s.skip(3))
        } else if (0xe1 <= b0 <= 0xec) || b0 == 0xee || b0 == 0xef {
            s.len() >= 3 && is_cont(s[1]) && is_cont(s[2]) && is_valid_utf8(s.skip(3))
        } else if b0 == 0xed {
            s.len() >= 3 && 0x80 <= s[1] <= 0x9f && is_cont(s[2]) && is_valid_utf8(s.skip(3))
        } else if b0 == 0xf0 {
            s.len() >= 4 && 0x90 <= s[1] <= 0xbf && is_cont(s[2]) && is_cont(s[3])
                && is_valid_utf8(s.skip(4))
        } else if 0xf1 <= b0 <= 0xf3 {
            s.len() >= 4 && is_cont(s[1]) && is_cont(s[2]) && is_cont(s[3])
                && is_valid_utf8(s.skip(4))
        } else if b0 == 0xf4 {
            s.len() >= 4 && 0x80 <= s[1] <= 0x8f && is_cont(s[2]) && is_cont(s[3])
                && is_valid_utf8(s.skip(4))
        } else {
            false
        }
    }
}

/// The byte spelling of the token "cycle".
pub open spec fn spec_token_cycle() -> Seq<u8> {
    seq![0x63u8, 0x79u8, 0x63u8, 0x6cu8, 0x65u8]
}

/// The byte spelling of the token "red".
pub open spec fn spec_token_red() -> Seq<u8> {
    seq![0x72u8, 0x65u8, 0x64u8]
}

/// The byte spelling of the token "yellow".
pub open spec fn spec_token_yellow() -> Seq<u8> {
    seq![0x79u8, 0x65u8, 0x6cu8, 0x6cu8, 0x6fu8, 0x77u8]
}

/// The byte spelling of the token "green".
pub open spec fn spec_token_green() -> Seq<u8> {
    seq![0x67u8, 0x72u8, 0x65u8, 0x65u8, 0x6eu8]
}

/// The byte spelling of the token "blue".
pub open spec fn spec_token_blue() -> Seq<u8> {
    seq![0x62u8, 0x6cu8, 0x75u8, 0x65u8]
}

/// The byte spelling of the token "purple".
pub open spec fn spec_token_purple() -> Seq<u8> {
    seq![0x70u8, 0x75u8, 0x72u8, 0x70u8, 0x6cu8, 0x65u8]
}

/// Whether `s` spells one of the recognized command tokens exactly
/// (the match is case-sensitive).
pub open spec fn spec_is_token(s: Seq<u8>) -> bool {
    ||| s == spec_token_cycle()
    ||| s == spec_token_red()
    ||| s == spec_token_yellow()
    ||| s == spec_token_green()
    ||| s == spec_token_blue()
    ||| s == spec_token_purple()
}

/// The mode a well-formed command selects: the recognized tokens map to
/// their modes, anything else falls back to the cycle mode. The
/// connection signal is never produced by text.
pub open spec fn spec_token_mode(s: Seq<u8>) -> Mode {
    if s == spec_token_red() {
        Mode::Red
    } else if s == spec_token_yellow() {
        Mode::Yellow
    } else if s == spec_token_green() {
        Mode::Green
    } else if s == spec_token_blue() {
        Mode::Blue
    } else if s == spec_token_purple() {
        Mode::Purple
    } else {
        Mode::Cycle
    }
}

/// What `translate` returns for a payload: nothing at all for malformed
/// encoding, otherwise the selected mode with the cycle fallback.
pub open spec fn spec_translate(s: Seq<u8>) -> Option<Mode> {
    if is_valid_utf8(s) {
        Some(spec_token_mode(s))
    } else {
        None
    }
}

/// Checks that `data` is well-formed UTF-8, walking one encoded scalar
/// value at a time.
pub fn utf8_valid(data: &[u8]) -> (r: bool)
    ensures
        r == is_valid_utf8(data@),
{
    broadcast use vstd::seq_lib::lemma_seq_skip_of_skip;

    let n = data.len();
    let mut i: usize = 0;
    while i < n
        invariant
            0 <= i <= n,
            n == data@.len(),
            is_valid_utf8(data@) == is_valid_utf8(data@.skip(i as int)),
        decreases n - i,
    {
        let ghost rest = data@.skip(i as int);
        let b0: u8 = data[i];
        proof {
            assert(rest[0] == b0);
        }
        if b0 < 0x80 {
            proof {
                assert(rest.skip(1) =~= data@.skip(i + 1));
            }
            i = i + 1;
        } else if 0xc2 <= b0 && b0 <= 0xdf {
            if n - i < 2 {
                return false;
            }
            let b1: u8 = data[i + 1];
            proof {
                assert(rest[1] == b1);
            }
            if !(0x80 <= b1 && b1 <= 0xbf) {
                return false;
            }
            proof {
                assert(rest.skip(2) =~= data@.skip(i + 2));
            }
            i = i + 2;
        } else if 0xe0 <= b0 && b0 <= 0xef {
            if n - i < 3 {
                return false;
            }
            let b1: u8 = data[i + 1];
            let b2: u8 = data[i + 2];
            proof {
                assert(rest[1] == b1);
                assert(rest[2] == b2);
            }
            let lo: u8 = if b0 == 0xe0 {
                0xa0
            } else {
                0x80
            };
            let hi: u8 = if b0 == 0xed {
                0x9f
            } else {
                0xbf
            };
            if !(lo <= b1 && b1 <= hi) {
                return false;
            }
            if !(0x80 <= b2 && b2 <= 0xbf) {
                return false;
            }
            proof {
                assert(rest.skip(3) =~= data@.skip(i + 3));
            }
            i = i + 3;
        } else if 0xf0 <= b0 && b0 <= 0xf4 {
            if n - i < 4 {
                return false;
            }
            let b1: u8 = data[i + 1];
            let b2: u8 = data[i + 2];
            let b3: u8 = data[i + 3];
            proof {
                assert(rest[1] == b1);
                assert(rest[2] == b2);
                assert(rest[3] == b3);
            }
            let lo: u8 = if b0 == 0xf0 {
                0x90
            } else {
                0x80
            };
            let hi: u8 = if b0 == 0xf4 {
                0x8f
            } else {
                0xbf
            };
            if !(lo <= b1 && b1 <= hi) {
                return false;
            }
            if !(0x80 <= b2 && b2 <= 0xbf) {
                return false;
            }
            if !(0x80 <= b3 && b3 <= 0xbf) {
                return false;
            }
            proof {
                assert(rest.skip(4) =~= data@.skip(i + 4));
            }
            i = i + 4;
        } else {
            return false;
        }
    }
    proof {
        assert(data@.skip(n as int) =~= Seq::<u8>::empty());
    }
    true
}

/// Whether `data` spells a recognized command token.
pub fn recognized_token(data: &[u8]) -> (r: bool)
    ensures
        r == spec_is_token(data@),
{
    let n = data.len();
    if n == 5 && data[0] == 0x63 && data[1] == 0x79 && data[2] == 0x63 && data[3] == 0x6c
        && data[4] == 0x65 {
        proof {
            assert(data@ =~= spec_token_cycle());
        }
        true
    } else if n == 3 && data[0] == 0x72 && data[1] == 0x65 && data[2] == 0x64 {
        proof {
            assert(data@ =~= spec_token_red());
        }
        true
    } else if n == 6 && data[0] == 0x79 && data[1] == 0x65 && data[2] == 0x6c && data[3] == 0x6c
        && data[4] == 0x6f && data[5] == 0x77 {
        proof {
            assert(data@ =~= spec_token_yellow());
        }
        true
    } else if n == 5 && data[0] == 0x67 && data[1] == 0x72 && data[2] == 0x65 && data[3] == 0x65
        && data[4] == 0x6e {
        proof {
            assert(data@ =~= spec_token_green());
        }
        true
    } else if n == 4 && data[0] == 0x62 && data[1] == 0x6c && data[2] == 0x75 && data[3] == 0x65 {
        proof {
            assert(data@ =~= spec_token_blue());
        }
        true
    } else if n == 6 && data[0] == 0x70 && data[1] == 0x75 && data[2] == 0x72 && data[3] == 0x70
        && data[4] == 0x6c && data[5] == 0x65 {
        proof {
            assert(data@ =~= spec_token_purple());
        }
        true
    } else {
        false
    }
}

/// The mode a well-formed payload selects, with the cycle fallback for
/// an unrecognized word.
fn token_mode(data: &[u8]) -> (m: Mode)
    ensures
        m == spec_token_mode(data@),
{
    let n = data.len();
    if n == 3 && data[0] == 0x72 && data[1] == 0x65 && data[2] == 0x64 {
        proof {
            assert(data@ =~= spec_token_red());
        }
        Mode::Red
    } else if n == 6 && data[0] == 0x79 && data[1] == 0x65 && data[2] == 0x6c && data[3] == 0x6c
        && data[4] == 0x6f && data[5] == 0x77 {
        proof {
            assert(data@ =~= spec_token_yellow());
        }
        Mode::Yellow
    } else if n == 5 && data[0] == 0x67 && data[1] == 0x72 && data[2] == 0x65 && data[3] == 0x65
        && data[4] == 0x6e {
        proof {
            assert(data@ =~= spec_token_green());
        }
        Mode::Green
    } else if n == 4 && data[0] == 0x62 && data[1] == 0x6c && data[2] == 0x75 && data[3] == 0x65 {
        proof {
            assert(data@ =~= spec_token_blue());
        }
        Mode::Blue
    } else if n == 6 && data[0] == 0x70 && data[1] == 0x75 && data[2] == 0x72 && data[3] == 0x70
        && data[4] == 0x6c && data[5] == 0x65 {
        proof {
            assert(data@ =~= spec_token_purple());
        }
        Mode::Purple
    } else {
        Mode::Cycle
    }
}

/// Turns an incoming byte payload into a mode: `None` for bytes that
/// are not valid UTF-8, the matching mode for a recognized token, and
/// the cycle mode for any other well-formed text.
pub fn translate(data: &[u8]) -> (r: Option<Mode>)
    ensures
        r == spec_translate(data@),
{
    if utf8_valid(data) {
        Some(token_mode(data))
    } else {
        None
    }
}

} // verus!
