//! The limits of the JSON parser.
//!
//! The parser of `rustc_serialize` does not return on every text. It calls
//! itself once for every level of nesting, so it can run out of stack. It
//! keeps the keys on the way to the value it is reading in one buffer that it
//! addresses with 16 bits, and counts the items of an array in 32 bits. It
//! adds up the digits of an exponent in a machine word without a check. And
//! behind a comma before the closing brace of a nested object it loses its
//! place among the open arrays and objects, and panics when it next looks for
//! a key.
//!
//! A line is measured in one pass before it is parsed. The pass tells strings
//! from the rest as the parser does for as long as the parser reads on, and
//! where it cannot rule out that a limit is passed, the line is not parsed.
//! How long a line is, how many keys it has, or how long a string in it is
//! that is no key, is no limit.

use vstd::prelude::*;

verus! {

/// The most bytes that the keys on the way to a value may have together:
/// the key under which the value stands, the key under which the object
/// stands that holds it, and so on. The parser keeps these keys in one
/// buffer and addresses it with 16 bits. A key is measured as it is written,
/// which is no shorter than what it stands for.
pub const MAX_KEY_BYTES: u32 = 65535;

/// The deepest nesting of arrays and objects that is handed to the parser,
/// which calls itself once for every level.
pub const MAX_DEPTH: u32 = 128;

/// The most digits in the exponent of a number that are handed to the
/// parser, which adds them up in a machine word.
pub const MAX_EXPONENT_DIGITS: u32 = 9;

/// The most commas outside strings that are handed to the parser, which
/// counts the items of an array in 32 bits.
pub const MAX_COMMAS: u32 = 0xffff_fffe;

/// Where a reader stands with respect to the exponent of a number.
#[derive(Clone, Copy)]
pub enum Exponent {
    /// Not in an exponent.
    Outside,
    /// Right behind the `e` or `E`.
    Marker,
    /// Behind the marker and its sign, with so many digits read.
    Digits(u32),
}

/// What a single pass over a line has to know to measure the line against
/// the parser's limits.
pub struct Gauge {
    /// Inside a string.
    pub in_string: bool,
    /// Inside a string, right behind a backslash.
    pub escaped: bool,
    /// How many arrays and objects are open.
    pub depth: u32,
    /// Where in an exponent, outside strings.
    pub exponent: Exponent,
    /// Outside strings, and the last character that was no whitespace was a
    /// comma.
    pub comma: bool,
    /// How many commas stand outside strings.
    pub commas: u32,
    /// The bytes of the string that is being read or was read last, as it is
    /// written between its quotes; no more are counted than one over
    /// `MAX_KEY_BYTES`.
    pub string_bytes: u32,
    /// Outside strings, and the last character that was no whitespace ended
    /// a string.
    pub after_string: bool,
    /// For the line itself and for each array and object that is open, the
    /// bytes of the key that was read last directly in it: of the string
    /// that a colon followed.
    pub keys: Seq<u32>,
    /// The bytes of the keys on the way to where the pass is: what `keys`
    /// holds, added up.
    pub path_bytes: u32,
    /// No limit has been passed so far.
    pub safe: bool,
}

/// The gauge as the pass keeps it while it runs.
struct Meter {
    in_string: bool,
    escaped: bool,
    depth: u32,
    exponent: Exponent,
    comma: bool,
    commas: u32,
    string_bytes: u32,
    after_string: bool,
    keys: Vec<u32>,
    path_bytes: u32,
    safe: bool,
}

impl View for Meter {
    type V = Gauge;

    closed spec fn view(&self) -> Gauge {
        Gauge {
            in_string: self.in_string,
            escaped: self.escaped,
            depth: self.depth,
            exponent: self.exponent,
            comma: self.comma,
            commas: self.commas,
            string_bytes: self.string_bytes,
            after_string: self.after_string,
            keys: self.keys@,
            path_bytes: self.path_bytes,
            safe: self.safe,
        }
    }
}

/// Whether `c` is a decimal digit.
pub open spec fn is_digit(c: char) -> bool {
    '0' <= c <= '9'
}

/// Whether `c` is whitespace between the tokens of JSON.
pub open spec fn is_space(c: char) -> bool {
    c == ' ' || c == '\n' || c == '\t' || c == '\r'
}

/// How many bytes `c` takes in UTF-8.
pub open spec fn utf8_len(c: char) -> u32 {
    let n = c as u32;
    if n < 0x80 {
        1
    } else if n < 0x800 {
        2
    } else if n < 0x10000 {
        3
    } else {
        4
    }
}

/// `bytes` and the bytes of `c`, counted up to one over `MAX_KEY_BYTES`.
pub open spec fn counted(bytes: u32, c: char) -> u32 {
    if bytes + utf8_len(c) > MAX_KEY_BYTES {
        (MAX_KEY_BYTES + 1) as u32
    } else {
        (bytes + utf8_len(c)) as u32
    }
}

impl Exponent {
    /// The place after reading `c` outside a string.
    pub open spec fn after(self, c: char) -> Exponent {
        if c == 'e' || c == 'E' {
            Exponent::Marker
        } else if is_digit(c) {
            match self {
                Exponent::Outside => Exponent::Outside,
                Exponent::Marker => Exponent::Digits(1),
                Exponent::Digits(n) => Exponent::Digits((n + 1) as u32),
            }
        } else if (c == '+' || c == '-') && self is Marker {
            Exponent::Digits(0)
        } else {
            Exponent::Outside
        }
    }

    /// Whether the exponent has more digits than the parser is given.
    pub open spec fn too_long(self) -> bool {
        self matches Exponent::Digits(n) && n > MAX_EXPONENT_DIGITS
    }
}

/// `total` without `part`, and not below nothing.
pub open spec fn without(total: u32, part: u32) -> u32 {
    if total >= part {
        (total - part) as u32
    } else {
        0
    }
}

impl Gauge {
    /// The gauge before the first character.
    pub open spec fn start() -> Gauge {
        Gauge {
            in_string: false,
            escaped: false,
            depth: 0,
            exponent: Exponent::Outside,
            comma: false,
            commas: 0,
            string_bytes: 0,
            after_string: false,
            keys: seq![0u32],
            path_bytes: 0,
            safe: true,
        }
    }

    /// The bytes of the keys on the way after reading `c` outside a string:
    /// behind a colon the string before it is the key of the innermost open
    /// array or object, in the place of the key before it; where an array
    /// or object closes, its key no longer counts.
    pub open spec fn path_after(self, c: char) -> u32 {
        if c == ':' && self.after_string {
            (without(self.path_bytes, self.keys.last()) + self.string_bytes) as u32
        } else if (c == ']' || c == '}') && self.depth > 0 {
            without(self.path_bytes, self.keys.last())
        } else {
            self.path_bytes
        }
    }

    /// The keys read last, level by level, after reading `c` outside a
    /// string.
    pub open spec fn keys_after(self, c: char) -> Seq<u32> {
        if c == ':' && self.after_string {
            self.keys.drop_last().push(self.string_bytes)
        } else if c == '[' || c == '{' {
            self.keys.push(0)
        } else if (c == ']' || c == '}') && self.depth > 0 {
            self.keys.drop_last()
        } else {
            self.keys
        }
    }

    /// The gauge after one more character. Once a limit is passed the gauge
    /// stays as it is.
    ///
    /// Inside a string the bytes are counted and the string's end is looked
    /// for. Outside, a bracket or brace opens or closes a level; the digits
    /// of an exponent and the commas are counted; a colon makes the string
    /// before it a key, whose bytes count with those of the keys around it;
    /// and a brace that closes right behind a comma is a limit of its own.
    pub open spec fn step(self, c: char) -> Gauge {
        if !self.safe {
            self
        } else if self.in_string {
            if self.escaped {
                Gauge { escaped: false, string_bytes: counted(self.string_bytes, c), ..self }
            } else if c == '"' {
                Gauge { in_string: false, after_string: true, ..self }
            } else {
                Gauge { escaped: c == '\\', string_bytes: counted(self.string_bytes, c), ..self }
            }
        } else {
            Gauge {
                in_string: c == '"',
                escaped: false,
                depth: if c == '[' || c == '{' {
                    (self.depth + 1) as u32
                } else if (c == ']' || c == '}') && self.depth > 0 {
                    (self.depth - 1) as u32
                } else {
                    self.depth
                },
                exponent: self.exponent.after(c),
                comma: c == ',' || (is_space(c) && self.comma),
                commas: if c == ',' {
                    (self.commas + 1) as u32
                } else {
                    self.commas
                },
                string_bytes: if c == '"' {
                    0
                } else {
                    self.string_bytes
                },
                after_string: is_space(c) && self.after_string,
                keys: self.keys_after(c),
                path_bytes: self.path_after(c),
                safe: {
                    &&& (c == '[' || c == '{') ==> self.depth < MAX_DEPTH
                    &&& !self.exponent.after(c).too_long()
                    &&& c == '}' ==> !self.comma
                    &&& c == ',' ==> self.commas < MAX_COMMAS
                    &&& self.path_after(c) <= MAX_KEY_BYTES
                },
            }
        }
    }

    /// The gauge after all of `text`.
    pub open spec fn scan(text: Seq<char>) -> Gauge
        decreases text.len(),
    {
        if text.len() == 0 {
            Gauge::start()
        } else {
            Gauge::scan(text.drop_last()).step(text.last())
        }
    }

    /// While no limit is passed, the counts stay within the limits, and
    /// there is a key's place for every open level.
    pub open spec fn bounded(self) -> bool {
        self.safe ==> {
            &&& self.depth <= MAX_DEPTH
            &&& !self.exponent.too_long()
            &&& self.commas <= MAX_COMMAS
            &&& self.string_bytes <= MAX_KEY_BYTES + 1
            &&& self.path_bytes <= MAX_KEY_BYTES
            &&& self.keys.len() == self.depth + 1
        }
    }
}

impl Meter {
    /// A meter before the first character.
    fn start() -> (m: Meter)
        ensures
            m@ == Gauge::start(),
            m@.bounded(),
    {
        let mut keys: Vec<u32> = Vec::new();
        keys.push(0);
        Meter {
            in_string: false,
            escaped: false,
            depth: 0,
            exponent: Exponent::Outside,
            comma: false,
            commas: 0,
            string_bytes: 0,
            after_string: false,
            keys,
            path_bytes: 0,
            safe: true,
        }
    }

    /// Moves the meter over one more character.
    fn advance(&mut self, c: char)
        requires
            old(self)@.bounded(),
        ensures
            final(self)@ == old(self)@.step(c),
            final(self)@.bounded(),
    {
        if !self.safe {
            return;
        }
        if self.in_string {
            if !self.escaped && c == '"' {
                self.in_string = false;
                self.after_string = true;
            } else {
                let n: u32 = c as u32;
                let len: u32 = if n < 0x80 {
                    1
                } else if n < 0x800 {
                    2
                } else if n < 0x10000 {
                    3
                } else {
                    4
                };
                self.string_bytes = if self.string_bytes + len > MAX_KEY_BYTES {
                    MAX_KEY_BYTES + 1
                } else {
                    self.string_bytes + len
                };
                self.escaped = !self.escaped && c == '\\';
            }
            return;
        }
        let opens: bool = c == '[' || c == '{';
        let closes: bool = (c == ']' || c == '}') && self.depth > 0;
        let key: bool = c == ':' && self.after_string;
        let space: bool = c == ' ' || c == '\n' || c == '\t' || c == '\r';
        let last: u32 = self.keys[self.keys.len() - 1];
        let rest: u32 = if self.path_bytes >= last {
            self.path_bytes - last
        } else {
            0
        };
        let path_bytes: u32 = if key {
            rest + self.string_bytes
        } else if closes {
            rest
        } else {
            self.path_bytes
        };
        let exponent: Exponent = if c == 'e' || c == 'E' {
            Exponent::Marker
        } else if '0' <= c && c <= '9' {
            match self.exponent {
                Exponent::Outside => Exponent::Outside,
                Exponent::Marker => Exponent::Digits(1),
                Exponent::Digits(n) => Exponent::Digits(n + 1),
            }
        } else if c == '+' || c == '-' {
            match self.exponent {
                Exponent::Marker => Exponent::Digits(0),
                _ => Exponent::Outside,
            }
        } else {
            Exponent::Outside
        };
        let short: bool = match exponent {
            Exponent::Digits(n) => n <= MAX_EXPONENT_DIGITS,
            _ => true,
        };
        let safe: bool = (!opens || self.depth < MAX_DEPTH) && short && !(c == '}' && self.comma)
            && (c != ',' || self.commas < MAX_COMMAS) && path_bytes <= MAX_KEY_BYTES;
        if key {
            self.keys.pop();
            self.keys.push(self.string_bytes);
        } else if opens {
            self.keys.push(0);
            self.depth = self.depth + 1;
        } else if closes {
            self.keys.pop();
            self.depth = self.depth - 1;
        }
        if c == ',' {
            self.commas = self.commas + 1;
        }
        if c == '"' {
            self.string_bytes = 0;
        }
        self.in_string = c == '"';
        self.escaped = false;
        self.exponent = exponent;
        self.comma = c == ',' || (space && self.comma);
        self.after_string = space && self.after_string;
        self.path_bytes = path_bytes;
        self.safe = safe;
        proof {
            assert(self@.keys =~= old(self)@.keys_after(c));
        }
    }
}

/// Whether a line is within the parser's limits: nested no deeper than
/// `MAX_DEPTH`, with no more than `MAX_KEY_BYTES` bytes of keys on the way
/// to any value, without an exponent of more than `MAX_EXPONENT_DIGITS`
/// digits, with no more than `MAX_COMMAS` commas, and without a comma right
/// before a closing brace.
pub open spec fn parser_safe(text: Seq<char>) -> bool {
    Gauge::scan(text).safe
}

/// Measures a line against the parser's limits.
pub fn within_limits(line: &str) -> (r: bool)
    ensures
        r == parser_safe(line@),
{
    let mut meter = Meter::start();
    for c in it: line.chars()
        invariant
            it.seq() == line@,
            meter@ == Gauge::scan(line@.take(it.index() as int)),
            meter@.bounded(),
    {
        proof {
            let k = it.index() as int;
            assert(line@.take(k + 1).drop_last() =~= line@.take(k));
            assert(line@.take(k + 1).last() == c);
        }
        meter.advance(c);
    }
    assert(line@.take(line@.len() as int) =~= line@);
    meter.safe
}

} // verus!
