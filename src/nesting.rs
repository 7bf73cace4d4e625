//! How deeply a TOML text can nest, measured on its bytes without parsing it.
//!
//! The text is cut into statements: a statement ends at a line break that
//! stands outside strings and comments, with every `[` and `{` before it
//! closed. Within a statement, each `[`, `{` and `.` outside strings and
//! comments may open one level of nesting: of arrays, inline tables, dotted
//! keys or table headers. A value's depth is therefore at most the marks of
//! its table header plus the marks of its own statement, so at most twice
//! the largest count of marks in one statement.

use vstd::prelude::*;

verus! {

/// What the scanner is inside of.
#[derive(Clone, Copy, Debug, PartialEq, Eq, Structural)]
pub enum Region {
    Code,
    Comment,
    /// A `"` string on one line, where `\` escapes the next character.
    BasicString,
    /// A `'` string on one line.
    LiteralString,
    /// A `"""` string, where `\` escapes the next character.
    MultiBasicString,
    /// A `'''` string.
    MultiLiteralString,
}

/// The scanner's state after a prefix of the text.
#[derive(Clone, Copy, Debug, PartialEq, Eq, Structural)]
pub struct Scan {
    pub region: Region,
    /// `[` and `{` of the current statement not yet closed.
    pub open: usize,
    /// Nesting marks in the current statement so far.
    pub marks: usize,
    /// The most marks seen in one statement.
    pub most: usize,
}

/// The state before the first byte.
pub open spec fn scan_start() -> Scan {
    Scan { region: Region::Code, open: 0, marks: 0, most: 0 }
}

/// The byte at `i`, or zero past the end.
pub open spec fn byte_at(b: Seq<u8>, i: int) -> u8 {
    if 0 <= i < b.len() {
        b[i]
    } else {
        0
    }
}

/// Position `i + k`, but no further than the end.
pub open spec fn advance(b: Seq<u8>, i: int, k: int) -> int {
    if i + k > b.len() {
        b.len() as int
    } else {
        i + k
    }
}

/// One more nesting mark in the current statement.
pub open spec fn with_mark(s: Scan) -> Scan {
    let m = (s.marks + 1) as usize;
    Scan { marks: m, most: if m > s.most { m } else { s.most }, ..s }
}

/// The step taken on the byte at `i` outside strings and comments.
pub open spec fn code_step(b: Seq<u8>, i: int, s: Scan) -> (int, Scan) {
    let c = b[i];
    if c == 0x0a {
        (i + 1, if s.open == 0 { Scan { marks: 0, ..s } } else { s })
    } else if c == 0x23 {
        (i + 1, Scan { region: Region::Comment, ..s })
    } else if c == 0x22 || c == 0x27 {
        if byte_at(b, i + 1) == c && byte_at(b, i + 2) == c {
            (
                advance(b, i, 3),
                Scan {
                    region: if c == 0x22 {
                        Region::MultiBasicString
                    } else {
                        Region::MultiLiteralString
                    },
                    ..s
                },
            )
        } else if byte_at(b, i + 1) == c {
            (i + 2, s)
        } else {
            (
                i + 1,
                Scan {
                    region: if c == 0x22 {
                        Region::BasicString
                    } else {
                        Region::LiteralString
                    },
                    ..s
                },
            )
        }
    } else if c == 0x5b || c == 0x7b {
        (i + 1, with_mark(Scan { open: (s.open + 1) as usize, ..s }))
    } else if c == 0x2e {
        (i + 1, with_mark(s))
    } else if c == 0x5d || c == 0x7d {
        (i + 1, Scan { open: if s.open > 0 { (s.open - 1) as usize } else { 0 }, ..s })
    } else {
        (i + 1, s)
    }
}

/// The step that closes a multi-line string opened by `q` at `i`, or moves
/// past one byte of it. A closing `"""` takes up to two more quotes with it.
pub open spec fn multi_step(b: Seq<u8>, i: int, s: Scan, q: u8) -> (int, Scan) {
    if b[i] == 0x5c && q == 0x22 {
        (advance(b, i, 2), s)
    } else if b[i] == q && byte_at(b, i + 1) == q && byte_at(b, i + 2) == q {
        let extra = if byte_at(b, i + 3) != q {
            0int
        } else if byte_at(b, i + 4) != q {
            1int
        } else {
            2int
        };
        (advance(b, i, 3 + extra), Scan { region: Region::Code, ..s })
    } else {
        (i + 1, s)
    }
}

/// The step taken on the byte at `i`.
pub open spec fn scan_step(b: Seq<u8>, i: int, s: Scan) -> (int, Scan) {
    let c = b[i];
    match s.region {
        Region::Code => code_step(b, i, s),
        Region::Comment => if c == 0x09 || c >= 0x20 {
            (i + 1, s)
        } else {
            code_step(b, i, Scan { region: Region::Code, ..s })
        },
        Region::BasicString => if c == 0x5c {
            (advance(b, i, 2), s)
        } else if c == 0x22 {
            (i + 1, Scan { region: Region::Code, ..s })
        } else {
            (i + 1, s)
        },
        Region::LiteralString => if c == 0x27 {
            (i + 1, Scan { region: Region::Code, ..s })
        } else {
            (i + 1, s)
        },
        Region::MultiBasicString => multi_step(b, i, s, 0x22),
        Region::MultiLiteralString => multi_step(b, i, s, 0x27),
    }
}

/// The state after scanning `b` from position `i` in state `s`.
pub open spec fn scan_from(b: Seq<u8>, i: int, s: Scan) -> Scan
    decreases b.len() - i,
{
    if i < 0 || i >= b.len() {
        s
    } else {
        let (j, t) = scan_step(b, i, s);
        if j <= i {
            s
        } else {
            scan_from(b, j, t)
        }
    }
}

/// The most nesting marks in one statement of the text `b`.
pub open spec fn statement_marks(b: Seq<u8>) -> nat {
    scan_from(b, 0, scan_start()).most as nat
}

/// Counters never pass the number of bytes read.
pub open spec fn scan_bounded(s: Scan, i: int) -> bool {
    s.open <= i && s.marks <= i && s.most <= i
}

fn byte_after(b: &[u8], i: usize, k: usize) -> (r: u8)
    requires
        i < b@.len(),
    ensures
        r == byte_at(b@, i + k),
{
    if k < b.len() - i {
        b[i + k]
    } else {
        0
    }
}

fn advance_by(b: &[u8], i: usize, k: usize) -> (r: usize)
    requires
        i <= b@.len(),
    ensures
        r == advance(b@, i as int, k as int),
{
    if k > b.len() - i {
        b.len()
    } else {
        i + k
    }
}

fn add_mark(s: Scan) -> (r: Scan)
    requires
        s.marks < usize::MAX,
    ensures
        r == with_mark(s),
{
    let m = s.marks + 1;
    Scan { marks: m, most: if m > s.most { m } else { s.most }, ..s }
}

fn code_step_exec(b: &[u8], i: usize, s: Scan) -> (r: (usize, Scan))
    requires
        i < b@.len(),
        scan_bounded(s, i as int),
    ensures
        r.0 as int == code_step(b@, i as int, s).0,
        r.1 == code_step(b@, i as int, s).1,
{
    let c = b[i];
    if c == 0x0a {
        (i + 1, if s.open == 0 { Scan { marks: 0, ..s } } else { s })
    } else if c == 0x23 {
        (i + 1, Scan { region: Region::Comment, ..s })
    } else if c == 0x22 || c == 0x27 {
        let c1 = byte_after(b, i, 1);
        let c2 = byte_after(b, i, 2);
        if c1 == c && c2 == c {
            let region = if c == 0x22 {
                Region::MultiBasicString
            } else {
                Region::MultiLiteralString
            };
            (advance_by(b, i, 3), Scan { region, ..s })
        } else if c1 == c {
            (i + 2, s)
        } else {
            let region = if c == 0x22 {
                Region::BasicString
            } else {
                Region::LiteralString
            };
            (i + 1, Scan { region, ..s })
        }
    } else if c == 0x5b || c == 0x7b {
        (i + 1, add_mark(Scan { open: s.open + 1, ..s }))
    } else if c == 0x2e {
        (i + 1, add_mark(s))
    } else if c == 0x5d || c == 0x7d {
        (i + 1, Scan { open: if s.open > 0 { s.open - 1 } else { 0 }, ..s })
    } else {
        (i + 1, s)
    }
}

fn multi_step_exec(b: &[u8], i: usize, s: Scan, q: u8) -> (r: (usize, Scan))
    requires
        i < b@.len(),
    ensures
        r.0 as int == multi_step(b@, i as int, s, q).0,
        r.1 == multi_step(b@, i as int, s, q).1,
{
    if b[i] == 0x5c && q == 0x22 {
        return (advance_by(b, i, 2), s);
    }
    if b[i] == q && byte_after(b, i, 1) == q && byte_after(b, i, 2) == q {
        let c3 = byte_after(b, i, 3);
        let c4 = byte_after(b, i, 4);
        let extra: usize = if c3 != q {
            0
        } else if c4 != q {
            1
        } else {
            2
        };
        (advance_by(b, i, 3 + extra), Scan { region: Region::Code, ..s })
    } else {
        (i + 1, s)
    }
}

/// The most nesting marks in one statement of `text`.
pub fn count_statement_marks(text: &[u8]) -> (r: usize)
    ensures
        r == statement_marks(text@),
{
    let mut s = Scan { region: Region::Code, open: 0, marks: 0, most: 0 };
    let mut i: usize = 0;
    while i < text.len()
        invariant
            i <= text@.len(),
            scan_bounded(s, i as int),
            scan_from(text@, i as int, s) == scan_from(text@, 0, scan_start()),
        decreases text@.len() - i,
    {
        let (j, t) = match s.region {
            Region::Code => code_step_exec(text, i, s),
            Region::Comment => {
                let c = text[i];
                if c == 0x09 || c >= 0x20 {
                    (i + 1, s)
                } else {
                    code_step_exec(text, i, Scan { region: Region::Code, ..s })
                }
            },
            Region::BasicString => {
                let c = text[i];
                if c == 0x5c {
                    (advance_by(text, i, 2), s)
                } else if c == 0x22 {
                    (i + 1, Scan { region: Region::Code, ..s })
                } else {
                    (i + 1, s)
                }
            },
            Region::LiteralString => {
                if text[i] == 0x27 {
                    (i + 1, Scan { region: Region::Code, ..s })
                } else {
                    (i + 1, s)
                }
            },
            Region::MultiBasicString => multi_step_exec(text, i, s, 0x22),
            Region::MultiLiteralString => multi_step_exec(text, i, s, 0x27),
        };
        assert(j as int == scan_step(text@, i as int, s).0 && t == scan_step(text@, i as int, s).1);
        assert(j > i && j <= text@.len());
        assert(scan_bounded(t, j as int));
        i = j;
        s = t;
    }
    s.most
}

} // verus!
