use vstd::prelude::*;
use crate::text::chars_of;

verus! {

/// The most `[`, `{` and `.` characters, outside strings and comments, that
/// one top-level statement of a TOML text may hold. A statement runs from a
/// line break outside every bracket to the next one. Values nest one level
/// per bracket, and keys and table headers one level per dot, so no value
/// of a document within this bound sits more than about twice as deep.
pub const MAX_STATEMENT_WEIGHT: usize = 64;

/// Where a TOML scan stands: in plain text, a comment, or one of the four
/// kinds of string.
#[derive(Debug, Clone, Copy, PartialEq, Eq, Structural)]
pub enum ScanMode {
    Plain,
    Comment,
    Basic,
    MultiBasic,
    Literal,
    MultiLiteral,
}

pub open spec fn has(t: Seq<char>, j: int, c: char) -> bool {
    0 <= j < t.len() && t[j] == c
}

/// The position after at most two more quotes `q` from `j` on: the quotes
/// that a multi-line string may hold just before its closing delimiter.
pub open spec fn quote_run_end(t: Seq<char>, j: int, q: char) -> int {
    if has(t, j, q) {
        if has(t, j + 1, q) {
            j + 2
        } else {
            j + 1
        }
    } else {
        j
    }
}

/// The position after a backslash at `i` and the character it escapes.
pub open spec fn past_escape(t: Seq<char>, i: int) -> int {
    if i + 2 <= t.len() {
        i + 2
    } else {
        t.len() as int
    }
}

/// The weight of a statement after a line break: none, where no bracket is
/// open.
pub open spec fn after_break(open: nat, weight: nat) -> nat {
    if open == 0 {
        0
    } else {
        weight
    }
}

/// Whether, scanning `t` from `i` in `mode` with `open` brackets open and a
/// statement weight of `weight` so far, no statement outgrows the bound.
/// Strings and comments are read as the TOML tokenizer reads them: a
/// backslash escapes the next character in basic strings, three quotes open
/// and close a multi-line string, and a comment runs to the line break.
pub open spec fn nesting_ok_from(
    t: Seq<char>,
    i: int,
    mode: ScanMode,
    open: nat,
    weight: nat,
) -> bool
    decreases t.len() - i,
{
    if i < 0 || i >= t.len() {
        true
    } else {
        let c = t[i];
        match mode {
            ScanMode::Plain => if c == '#' {
                nesting_ok_from(t, i + 1, ScanMode::Comment, open, weight)
            } else if c == '"' || c == '\'' {
                let (single, multi) = if c == '"' {
                    (ScanMode::Basic, ScanMode::MultiBasic)
                } else {
                    (ScanMode::Literal, ScanMode::MultiLiteral)
                };
                if has(t, i + 1, c) && has(t, i + 2, c) {
                    nesting_ok_from(t, i + 3, multi, open, weight)
                } else if has(t, i + 1, c) {
                    nesting_ok_from(t, i + 2, ScanMode::Plain, open, weight)
                } else {
                    nesting_ok_from(t, i + 1, single, open, weight)
                }
            } else if c == '[' || c == '{' {
                weight + 1 <= MAX_STATEMENT_WEIGHT && nesting_ok_from(
                    t,
                    i + 1,
                    ScanMode::Plain,
                    open + 1,
                    weight + 1,
                )
            } else if c == ']' || c == '}' {
                nesting_ok_from(
                    t,
                    i + 1,
                    ScanMode::Plain,
                    if open > 0 {
                        (open - 1) as nat
                    } else {
                        0
                    },
                    weight,
                )
            } else if c == '.' {
                weight + 1 <= MAX_STATEMENT_WEIGHT && nesting_ok_from(
                    t,
                    i + 1,
                    ScanMode::Plain,
                    open,
                    weight + 1,
                )
            } else if c == '\n' {
                nesting_ok_from(t, i + 1, ScanMode::Plain, open, after_break(open, weight))
            } else {
                nesting_ok_from(t, i + 1, ScanMode::Plain, open, weight)
            },
            ScanMode::Comment => if c == '\n' {
                nesting_ok_from(t, i + 1, ScanMode::Plain, open, after_break(open, weight))
            } else {
                nesting_ok_from(t, i + 1, ScanMode::Comment, open, weight)
            },
            ScanMode::Basic => if c == '\\' {
                nesting_ok_from(t, past_escape(t, i), ScanMode::Basic, open, weight)
            } else if c == '"' {
                nesting_ok_from(t, i + 1, ScanMode::Plain, open, weight)
            } else {
                nesting_ok_from(t, i + 1, ScanMode::Basic, open, weight)
            },
            ScanMode::Literal => if c == '\'' {
                nesting_ok_from(t, i + 1, ScanMode::Plain, open, weight)
            } else {
                nesting_ok_from(t, i + 1, ScanMode::Literal, open, weight)
            },
            ScanMode::MultiBasic => if c == '\\' {
                nesting_ok_from(t, past_escape(t, i), ScanMode::MultiBasic, open, weight)
            } else if c == '"' && has(t, i + 1, '"') && has(t, i + 2, '"') {
                nesting_ok_from(t, quote_run_end(t, i + 3, '"'), ScanMode::Plain, open, weight)
            } else {
                nesting_ok_from(t, i + 1, ScanMode::MultiBasic, open, weight)
            },
            ScanMode::MultiLiteral => if c == '\'' && has(t, i + 1, '\'') && has(t, i + 2, '\'') {
                nesting_ok_from(t, quote_run_end(t, i + 3, '\''), ScanMode::Plain, open, weight)
            } else {
                nesting_ok_from(t, i + 1, ScanMode::MultiLiteral, open, weight)
            },
        }
    }
}

/// Whether every top-level statement of the TOML text `t` holds at most
/// `MAX_STATEMENT_WEIGHT` brackets and dots outside strings and comments.
pub open spec fn toml_nesting_ok(t: Seq<char>) -> bool {
    nesting_ok_from(t, 0, ScanMode::Plain, 0, 0)
}

fn has_at(t: &Vec<char>, j: usize, c: char) -> (r: bool)
    ensures
        r == has(t@, j as int, c),
{
    j < t.len() && t[j] == c
}

/// `i + k`, or `n` where that would pass `n`.
fn advance(i: usize, k: usize, n: usize) -> (r: usize)
    requires
        i <= n,
    ensures
        r == if i + k <= n {
            i + k
        } else {
            n as int
        },
{
    if k <= n - i {
        i + k
    } else {
        n
    }
}

/// Whether every top-level statement of a TOML text holds at most
/// `MAX_STATEMENT_WEIGHT` brackets and dots outside strings and comments.
pub fn toml_nesting_within_bound(text: &str) -> (r: bool)
    ensures
        r == toml_nesting_ok(text@),
{
    let t = chars_of(text);
    let n = t.len();
    let mut i: usize = 0;
    let mut mode = ScanMode::Plain;
    let mut open: usize = 0;
    let mut weight: usize = 0;
    while i < n
        invariant
            t@ == text@,
            n == t@.len(),
            i <= n,
            open <= weight <= MAX_STATEMENT_WEIGHT,
            toml_nesting_ok(text@) == nesting_ok_from(text@, i as int, mode, open as nat, weight as nat),
        decreases n - i,
    {
        let c = t[i];
        match mode {
            ScanMode::Plain => {
                if c == '#' {
                    mode = ScanMode::Comment;
                    i = i + 1;
                } else if c == '"' || c == '\'' {
                    let (single, multi) = if c == '"' {
                        (ScanMode::Basic, ScanMode::MultiBasic)
                    } else {
                        (ScanMode::Literal, ScanMode::MultiLiteral)
                    };
                    if has_at(&t, i + 1, c) && has_at(&t, i + 2, c) {
                        mode = multi;
                        i = i + 3;
                    } else if has_at(&t, i + 1, c) {
                        i = i + 2;
                    } else {
                        mode = single;
                        i = i + 1;
                    }
                } else if c == '[' || c == '{' || c == '.' {
                    if weight >= MAX_STATEMENT_WEIGHT {
                        return false;
                    }
                    if c != '.' {
                        open = open + 1;
                    }
                    weight = weight + 1;
                    i = i + 1;
                } else if c == ']' || c == '}' {
                    if open > 0 {
                        open = open - 1;
                    }
                    i = i + 1;
                } else {
                    if c == '\n' && open == 0 {
                        weight = 0;
                    }
                    i = i + 1;
                }
            },
            ScanMode::Comment => {
                if c == '\n' {
                    mode = ScanMode::Plain;
                    if open == 0 {
                        weight = 0;
                    }
                }
                i = i + 1;
            },
            ScanMode::Basic => {
                if c == '\\' {
                    i = advance(i, 2, n);
                } else {
                    if c == '"' {
                        mode = ScanMode::Plain;
                    }
                    i = i + 1;
                }
            },
            ScanMode::Literal => {
                if c == '\'' {
                    mode = ScanMode::Plain;
                }
                i = i + 1;
            },
            ScanMode::MultiBasic | ScanMode::MultiLiteral => {
                let q = if mode == ScanMode::MultiBasic {
                    '"'
                } else {
                    '\''
                };
                if mode == ScanMode::MultiBasic && c == '\\' {
                    i = advance(i, 2, n);
                } else if c == q && has_at(&t, i + 1, q) && has_at(&t, i + 2, q) {
                    let mut j = i + 3;
                    if has_at(&t, j, q) {
                        j = j + 1;
                        if has_at(&t, j, q) {
                            j = j + 1;
                        }
                    }
                    mode = ScanMode::Plain;
                    i = j;
                } else {
                    i = i + 1;
                }
            },
        }
    }
    true
}

} // verus!
