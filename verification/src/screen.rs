//! Screening a text before it is handed to the JSON reader.
//!
//! The reader is not made for every text. It adds up the digits of an
//! exponent in a machine word, keeps the keys of the objects it is
//! inside of in one buffer that it indexes with 16 bits, numbers the
//! items of an array with 32 bits, and calls itself once for each level
//! of nesting: a text passes only where none of these can run over.
//! And the reader loses track of where it is when an object ends
//! directly behind a comma, which no well-formed text has: such a text
//! is turned away as malformed.
//!
//! One pass over the bytes decides it: the pass tells what lies inside
//! a string from what lies outside, and knows a key by the colon that
//! follows the string.

use vstd::prelude::*;

verus! {

/// The most levels that arrays and objects may be nested.
pub const DEPTH_LIMIT: usize = 128;

/// The most bytes that a key may take between its quotes.
pub const KEY_LIMIT: usize = 255;

/// The most digits that an exponent may have.
pub const EXPONENT_LIMIT: usize = 9;

/// The most bytes that a text may have.
pub const LENGTH_LIMIT: usize = 0xFFFF_FFFF;

/// `"`, which opens and closes a string.
pub const QUOTE: u8 = 0x22;

/// `\`, which inside a string takes the next byte with it.
pub const BACKSLASH: u8 = 0x5C;

/// `:`, which follows a key.
pub const COLON: u8 = 0x3A;

/// `,`, which goes between the items of an array and the members of an
/// object.
pub const COMMA: u8 = 0x2C;

/// `[`, which opens an array.
pub const OPEN_BRACKET: u8 = 0x5B;

/// `]`, which closes an array.
pub const CLOSE_BRACKET: u8 = 0x5D;

/// `{`, which opens an object.
pub const OPEN_BRACE: u8 = 0x7B;

/// `}`, which closes an object.
pub const CLOSE_BRACE: u8 = 0x7D;

/// `e`, which opens an exponent.
pub const SMALL_E: u8 = 0x65;

/// `E`, which opens an exponent.
pub const CAPITAL_E: u8 = 0x45;

/// `+`, the one sign of an exponent.
pub const PLUS: u8 = 0x2B;

/// `-`, the other sign of an exponent.
pub const MINUS: u8 = 0x2D;

/// `0`, the least digit.
pub const DIGIT_ZERO: u8 = 0x30;

/// `9`, the greatest digit.
pub const DIGIT_NINE: u8 = 0x39;

/// The space, which is white space.
pub const SPACE: u8 = 0x20;

/// The line feed, which is white space.
pub const LINE_FEED: u8 = 0x0A;

/// The tab, which is white space.
pub const TAB: u8 = 0x09;

/// The carriage return, which is white space.
pub const CARRIAGE_RETURN: u8 = 0x0D;

/// Where in a text the pass is.
#[derive(Clone, Copy, Debug, PartialEq, Eq, Structural)]
pub enum Mode {
    /// Outside any string, and not in an exponent.
    Plain,
    /// Directly behind an `e` or `E`: a sign or a digit may follow.
    Mark,
    /// Among the digits of an exponent, or directly behind its sign.
    Digits,
    /// Inside a string.
    Text,
    /// Inside a string, directly behind a backslash.
    Escape,
    /// Behind a string and the white space after it: a colon here makes
    /// the string a key.
    Closed,
    /// Behind a comma and the white space after it.
    Comma,
}

/// What the screening comes to.
#[derive(Clone, Copy, Debug, PartialEq, Eq, Structural)]
pub enum Verdict {
    /// The text may be handed to the reader.
    Pass,
    /// The text is beyond a limit.
    OverLimit,
    /// The text is not well-formed: an object ends behind a comma.
    Malformed,
}

/// What the pass knows after some bytes.
#[derive(Clone, Copy, Debug, PartialEq, Eq, Structural)]
pub struct Scan {
    pub mode: Mode,
    /// How many arrays and objects are open.
    pub depth: usize,
    /// In an exponent, its digits so far. In a string and behind it,
    /// the bytes between its quotes, counted no further than one past
    /// the limit for a key.
    pub run: usize,
    /// What the bytes so far come to. Once it is no pass, it stays.
    pub verdict: Verdict,
}

/// Whether a byte is one of the four that count as white space.
pub open spec fn is_space(b: u8) -> bool {
    b == SPACE || b == LINE_FEED || b == TAB || b == CARRIAGE_RETURN
}

/// Whether a byte is a decimal digit.
pub open spec fn is_digit(b: u8) -> bool {
    DIGIT_ZERO <= b <= DIGIT_NINE
}

impl Scan {
    /// Before the first byte.
    pub open spec fn start() -> Scan {
        Scan { mode: Mode::Plain, depth: 0, run: 0, verdict: Verdict::Pass }
    }

    /// One more byte inside a string.
    pub open spec fn longer(self, mode: Mode) -> Scan {
        Scan {
            mode,
            run: if self.run <= KEY_LIMIT {
                (self.run + 1) as usize
            } else {
                self.run
            },
            ..self
        }
    }

    /// A byte outside any string and behind no exponent.
    pub open spec fn plain(self, b: u8) -> Scan {
        if b == QUOTE {
            Scan { mode: Mode::Text, run: 0, ..self }
        } else if b == COMMA {
            Scan { mode: Mode::Comma, ..self }
        } else if b == SMALL_E || b == CAPITAL_E {
            Scan { mode: Mode::Mark, run: 0, ..self }
        } else if b == OPEN_BRACKET || b == OPEN_BRACE {
            if self.depth >= DEPTH_LIMIT {
                Scan { verdict: Verdict::OverLimit, ..self }
            } else {
                Scan { mode: Mode::Plain, depth: (self.depth + 1) as usize, ..self }
            }
        } else if b == CLOSE_BRACKET || b == CLOSE_BRACE {
            Scan {
                mode: Mode::Plain,
                depth: if self.depth > 0 {
                    (self.depth - 1) as usize
                } else {
                    0
                },
                ..self
            }
        } else {
            Scan { mode: Mode::Plain, ..self }
        }
    }

    /// The next byte.
    pub open spec fn step(self, b: u8) -> Scan {
        if self.verdict != Verdict::Pass {
            self
        } else {
            match self.mode {
                Mode::Plain => self.plain(b),
                Mode::Mark => if b == PLUS || b == MINUS {
                    Scan { mode: Mode::Digits, run: 0, ..self }
                } else if is_digit(b) {
                    Scan { mode: Mode::Digits, run: 1, ..self }
                } else {
                    self.plain(b)
                },
                Mode::Digits => if is_digit(b) {
                    if self.run >= EXPONENT_LIMIT {
                        Scan { verdict: Verdict::OverLimit, ..self }
                    } else {
                        Scan { run: (self.run + 1) as usize, ..self }
                    }
                } else {
                    self.plain(b)
                },
                Mode::Text => if b == QUOTE {
                    Scan { mode: Mode::Closed, ..self }
                } else if b == BACKSLASH {
                    self.longer(Mode::Escape)
                } else {
                    self.longer(Mode::Text)
                },
                Mode::Escape => self.longer(Mode::Text),
                Mode::Closed => if is_space(b) {
                    self
                } else if b == COLON {
                    if self.run > KEY_LIMIT {
                        Scan { verdict: Verdict::OverLimit, ..self }
                    } else {
                        Scan { mode: Mode::Plain, ..self }
                    }
                } else {
                    self.plain(b)
                },
                Mode::Comma => if is_space(b) {
                    self
                } else if b == CLOSE_BRACE {
                    Scan { verdict: Verdict::Malformed, ..self }
                } else {
                    self.plain(b)
                },
            }
        }
    }

    /// One more byte inside a string.
    fn grow(self, mode: Mode) -> (next: Scan)
        ensures
            next == self.longer(mode),
    {
        if self.run <= KEY_LIMIT {
            Scan { mode, run: self.run + 1, ..self }
        } else {
            Scan { mode, ..self }
        }
    }

    /// A byte outside any string and behind no exponent.
    fn pass_plain(self, b: u8) -> (next: Scan)
        ensures
            next == self.plain(b),
    {
        if b == QUOTE {
            Scan { mode: Mode::Text, run: 0, ..self }
        } else if b == COMMA {
            Scan { mode: Mode::Comma, ..self }
        } else if b == SMALL_E || b == CAPITAL_E {
            Scan { mode: Mode::Mark, run: 0, ..self }
        } else if b == OPEN_BRACKET || b == OPEN_BRACE {
            if self.depth >= DEPTH_LIMIT {
                Scan { verdict: Verdict::OverLimit, ..self }
            } else {
                Scan { mode: Mode::Plain, depth: self.depth + 1, ..self }
            }
        } else if b == CLOSE_BRACKET || b == CLOSE_BRACE {
            if self.depth > 0 {
                Scan { mode: Mode::Plain, depth: self.depth - 1, ..self }
            } else {
                Scan { mode: Mode::Plain, depth: 0, ..self }
            }
        } else {
            Scan { mode: Mode::Plain, ..self }
        }
    }

    /// The next byte.
    pub fn advance(self, b: u8) -> (next: Scan)
        ensures
            next == self.step(b),
    {
        if self.verdict != Verdict::Pass {
            return self;
        }
        let space = b == SPACE || b == LINE_FEED || b == TAB || b == CARRIAGE_RETURN;
        let digit = DIGIT_ZERO <= b && b <= DIGIT_NINE;
        match self.mode {
            Mode::Plain => self.pass_plain(b),
            Mode::Mark => {
                if b == PLUS || b == MINUS {
                    Scan { mode: Mode::Digits, run: 0, ..self }
                } else if digit {
                    Scan { mode: Mode::Digits, run: 1, ..self }
                } else {
                    self.pass_plain(b)
                }
            },
            Mode::Digits => {
                if !digit {
                    self.pass_plain(b)
                } else if self.run >= EXPONENT_LIMIT {
                    Scan { verdict: Verdict::OverLimit, ..self }
                } else {
                    Scan { run: self.run + 1, ..self }
                }
            },
            Mode::Text => {
                if b == QUOTE {
                    Scan { mode: Mode::Closed, ..self }
                } else if b == BACKSLASH {
                    self.grow(Mode::Escape)
                } else {
                    self.grow(Mode::Text)
                }
            },
            Mode::Escape => self.grow(Mode::Text),
            Mode::Closed => {
                if space {
                    self
                } else if b != COLON {
                    self.pass_plain(b)
                } else if self.run > KEY_LIMIT {
                    Scan { verdict: Verdict::OverLimit, ..self }
                } else {
                    Scan { mode: Mode::Plain, ..self }
                }
            },
            Mode::Comma => {
                if space {
                    self
                } else if b == CLOSE_BRACE {
                    Scan { verdict: Verdict::Malformed, ..self }
                } else {
                    self.pass_plain(b)
                }
            },
        }
    }
}

/// What the pass knows after all of some bytes.
pub open spec fn scan(bytes: Seq<u8>) -> Scan
    decreases bytes.len(),
{
    if bytes.len() == 0 {
        Scan::start()
    } else {
        scan(bytes.drop_last()).step(bytes.last())
    }
}

/// What the screening of a text, given by its bytes, comes to.
pub open spec fn verdict_of(bytes: Seq<u8>) -> Verdict {
    if bytes.len() > LENGTH_LIMIT {
        Verdict::OverLimit
    } else {
        scan(bytes).verdict
    }
}

/// Screens a text.
pub fn screen(text: &str) -> (verdict: Verdict)
    ensures
        verdict == verdict_of(vstd::utf8::encode_utf8(text@)),
{
    let bytes = text.as_bytes();
    if bytes.len() > LENGTH_LIMIT {
        return Verdict::OverLimit;
    }
    let mut state = Scan { mode: Mode::Plain, depth: 0, run: 0, verdict: Verdict::Pass };
    let mut i: usize = 0;
    while i < bytes.len()
        invariant
            i <= bytes.len(),
            state == scan(bytes@.take(i as int)),
        decreases bytes.len() - i,
    {
        state = state.advance(bytes[i]);
        i += 1;
        assert(bytes@.take(i as int).drop_last() =~= bytes@.take(i - 1));
    }
    assert(bytes@.take(i as int) =~= bytes@);
    state.verdict
}

} // verus!
