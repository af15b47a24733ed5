//! The flat-object argument convention of the builtin engine.
//!
//! Contract arguments are opaque to the runtime; the builtin engine reads
//! them as a flat object of string members, `{"name":"value",...}`, with a
//! backslash escaping the byte after it inside a quoted string.  Reading a
//! member yields its content with one level of escapes removed, so a nested
//! object handed on as a member value is read the same way one level deeper.

use vstd::prelude::*;
use crate::bytestr::bytes_eq;

verus! {

pub const QUOTE: u8 = 34;

pub const BACKSLASH: u8 = 92;

pub const COLON: u8 = 58;

pub const COMMA: u8 = 44;

pub const LBRACE: u8 = 123;

/// Scans a quoted string's body from `i` (just past the opening quote):
/// the unescaped content and the index just past the closing quote.
pub open spec fn scan_quoted(s: Seq<u8>, i: int) -> Option<(Seq<u8>, int)>
    decreases s.len() - i,
    when 0 <= i
{
    if i >= s.len() {
        None
    } else if s[i] == QUOTE {
        Some((Seq::empty(), i + 1))
    } else if s[i] == BACKSLASH {
        if i + 1 < s.len() {
            match scan_quoted(s, i + 2) {
                Some(tj) => Some((seq![s[i + 1]] + tj.0, tj.1)),
                None => None,
            }
        } else {
            None
        }
    } else {
        match scan_quoted(s, i + 1) {
            Some(tj) => Some((seq![s[i]] + tj.0, tj.1)),
            None => None,
        }
    }
}

/// A successful scan always moves forward and stays inside the input.
pub proof fn lemma_scan_quoted_bounds(s: Seq<u8>, i: int)
    requires
        0 <= i,
    ensures
        scan_quoted(s, i) is Some ==> i < scan_quoted(s, i)->Some_0.1 <= s.len(),
    decreases s.len() - i,
{
    if i >= s.len() {
    } else if s[i] == QUOTE {
    } else if s[i] == BACKSLASH {
        if i + 1 < s.len() {
            lemma_scan_quoted_bounds(s, i + 2);
        }
    } else {
        lemma_scan_quoted_bounds(s, i + 1);
    }
}

/// Parses a quoted string whose opening quote stands at `i`.
pub open spec fn parse_string(s: Seq<u8>, i: int) -> Option<(Seq<u8>, int)> {
    if 0 <= i < s.len() && s[i] == QUOTE {
        scan_quoted(s, i + 1)
    } else {
        None
    }
}

/// A successfully parsed string spans at least its two quotes.
pub proof fn lemma_parse_string_bounds(s: Seq<u8>, i: int)
    requires
        0 <= i,
    ensures
        parse_string(s, i) is Some ==> i + 1 < parse_string(s, i)->Some_0.1 <= s.len(),
{
    lemma_scan_quoted_bounds(s, i + 1);
}

/// Walks the members from `i` and yields the value of the first member
/// named `key`.
pub open spec fn find_field(s: Seq<u8>, i: int, key: Seq<u8>) -> Option<Seq<u8>>
    decreases s.len() - i,
    when 0 <= i
    via find_field_decreases
{
    match parse_string(s, i) {
        None => None,
        Some(kj) => {
            if kj.1 < s.len() && s[kj.1] == COLON {
                match parse_string(s, kj.1 + 1) {
                    None => None,
                    Some(vj) => {
                        if kj.0 == key {
                            Some(vj.0)
                        } else if vj.1 < s.len() && s[vj.1] == COMMA {
                            find_field(s, vj.1 + 1, key)
                        } else {
                            None
                        }
                    },
                }
            } else {
                None
            }
        },
    }
}

#[via_fn]
proof fn find_field_decreases(s: Seq<u8>, i: int, key: Seq<u8>) {
    lemma_parse_string_bounds(s, i);
    match parse_string(s, i) {
        None => {},
        Some(kj) => {
            if kj.1 < s.len() && s[kj.1] == COLON {
                lemma_parse_string_bounds(s, kj.1 + 1);
            }
        },
    }
}

/// The string member named `key` of a flat-object byte string, or `None`
/// where the input does not carry one.
pub open spec fn get_field(s: Seq<u8>, key: Seq<u8>) -> Option<Seq<u8>> {
    if s.len() > 0 && s[0] == LBRACE {
        find_field(s, 1, key)
    } else {
        None
    }
}

fn scan_quoted_exec(s: &Vec<u8>, i: usize) -> (r: Option<(Vec<u8>, usize)>)
    ensures
        match scan_quoted(s@, i as int) {
            Some(tj) => r is Some && r->Some_0.0@ == tj.0 && r->Some_0.1 == tj.1,
            None => r is None,
        },
    decreases s@.len() - i,
{
    if i >= s.len() {
        return None;
    }
    let c = s[i];
    if c == QUOTE {
        Some((Vec::new(), i + 1))
    } else if c == BACKSLASH {
        if i + 1 < s.len() {
            match scan_quoted_exec(s, i + 2) {
                Some((t, j)) => {
                    let mut v: Vec<u8> = Vec::new();
                    v.push(s[i + 1]);
                    let mut tail = t;
                    v.append(&mut tail);
                    proof {
                        assert(v@ =~= seq![s@[i as int + 1]] + scan_quoted(
                            s@,
                            i as int + 2,
                        )->Some_0.0);
                    }
                    Some((v, j))
                },
                None => None,
            }
        } else {
            None
        }
    } else {
        match scan_quoted_exec(s, i + 1) {
            Some((t, j)) => {
                let mut v: Vec<u8> = Vec::new();
                v.push(c);
                let mut tail = t;
                v.append(&mut tail);
                proof {
                    assert(v@ =~= seq![s@[i as int]] + scan_quoted(s@, i as int + 1)->Some_0.0);
                }
                Some((v, j))
            },
            None => None,
        }
    }
}

fn parse_string_exec(s: &Vec<u8>, i: usize) -> (r: Option<(Vec<u8>, usize)>)
    ensures
        match parse_string(s@, i as int) {
            Some(tj) => r is Some && r->Some_0.0@ == tj.0 && r->Some_0.1 == tj.1,
            None => r is None,
        },
{
    if i < s.len() {
        if s[i] == QUOTE {
            return scan_quoted_exec(s, i + 1);
        }
    }
    None
}

fn find_field_exec(s: &Vec<u8>, i: usize, key: &Vec<u8>) -> (r: Option<Vec<u8>>)
    ensures
        match find_field(s@, i as int, key@) {
            Some(v) => r is Some && r->Some_0@ == v,
            None => r is None,
        },
    decreases s@.len() - i,
{
    proof {
        lemma_parse_string_bounds(s@, i as int);
    }
    match parse_string_exec(s, i) {
        None => None,
        Some((k, j)) => {
            proof {
                lemma_parse_string_bounds(s@, j as int + 1);
            }
            if j < s.len() && s[j] == COLON {
                match parse_string_exec(s, j + 1) {
                    None => None,
                    Some((v, j2)) => {
                        if bytes_eq(&k, key) {
                            Some(v)
                        } else if j2 < s.len() && s[j2] == COMMA {
                            find_field_exec(s, j2 + 1, key)
                        } else {
                            None
                        }
                    },
                }
            } else {
                None
            }
        },
    }
}

/// Reads the string member named `key` from a flat-object byte string.
pub fn get_field_bytes(s: &Vec<u8>, key: &Vec<u8>) -> (r: Option<Vec<u8>>)
    ensures
        match get_field(s@, key@) {
            Some(v) => r is Some && r->Some_0@ == v,
            None => r is None,
        },
{
    if s.len() > 0 {
        if s[0] == LBRACE {
            return find_field_exec(s, 1, key);
        }
    }
    None
}

} // verus!
