//! A recognizer for plain JSON texts: the objects, arrays, strings, numbers
//! and literals that any conforming JSON reader accepts.
//!
//! The grammar is deliberately narrower than JSON: strings hold printable
//! ASCII and the simple escapes, numbers have at most fifteen integer and
//! fifteen fraction digits and no exponent, and nesting is at most
//! `MAX_DEPTH` deep. Within it, every text is well-formed JSON.

use vstd::prelude::*;

verus! {

/// How deeply arrays and objects may nest in a plain JSON text.
pub const MAX_DEPTH: u32 = 64;

/// JSON whitespace: space, line feed, tab, carriage return.
pub open spec fn is_ws(b: u8) -> bool {
    b == 0x20 || b == 0x0a || b == 0x09 || b == 0x0d
}

/// An ASCII decimal digit.
pub open spec fn is_digit_byte(b: u8) -> bool {
    0x30 <= b && b <= 0x39
}

/// The characters that may follow a backslash in a plain string:
/// `"` `\` `/` `b` `f` `n` `r` `t`.
pub open spec fn is_simple_escape(b: u8) -> bool {
    b == 0x22 || b == 0x5c || b == 0x2f || b == 0x62 || b == 0x66 || b == 0x6e || b == 0x72
        || b == 0x74
}

/// The first position at or after `i` that is not whitespace.
pub open spec fn skip_ws(s: Seq<u8>, i: int) -> int
    decreases s.len() - i,
{
    if 0 <= i < s.len() && is_ws(s[i]) {
        skip_ws(s, i + 1)
    } else {
        i
    }
}

/// The first position at or after `i` that is not a digit.
pub open spec fn digits_end(s: Seq<u8>, i: int) -> int
    decreases s.len() - i,
{
    if 0 <= i < s.len() && is_digit_byte(s[i]) {
        digits_end(s, i + 1)
    } else {
        i
    }
}

/// The end of a plain string whose opening quote is just before `i`.
pub open spec fn string_end(s: Seq<u8>, i: int) -> Option<int>
    decreases s.len() - i,
{
    if i < 0 || i >= s.len() {
        None
    } else if s[i] == 0x22 {
        Some(i + 1)
    } else if s[i] == 0x5c {
        if i + 1 < s.len() && is_simple_escape(s[i + 1]) {
            string_end(s, i + 2)
        } else {
            None
        }
    } else if 0x20 <= s[i] && s[i] <= 0x7e {
        string_end(s, i + 1)
    } else {
        None
    }
}

/// The end of a plain number starting at `i`: an optional minus, an integer
/// part without leading zeros, an optional fraction.
pub open spec fn number_end(s: Seq<u8>, i: int) -> Option<int> {
    let j = if 0 <= i < s.len() && s[i] == 0x2d { i + 1 } else { i };
    if !(0 <= j < s.len() && is_digit_byte(s[j])) {
        None
    } else {
        let k = if s[j] == 0x30 { j + 1 } else { digits_end(s, j) };
        if k - j > 15 {
            None
        } else if k < s.len() && s[k] == 0x2e {
            let m = digits_end(s, k + 1);
            if m == k + 1 || m - (k + 1) > 15 {
                None
            } else {
                Some(m)
            }
        } else {
            Some(k)
        }
    }
}

/// The end of one of the literals `null`, `true`, `false` starting at `i`.
pub open spec fn literal_end(s: Seq<u8>, i: int) -> Option<int> {
    if 0 <= i && i + 4 <= s.len() && s[i] == 0x6e && s[i + 1] == 0x75 && s[i + 2] == 0x6c
        && s[i + 3] == 0x6c {
        Some(i + 4)
    } else if 0 <= i && i + 4 <= s.len() && s[i] == 0x74 && s[i + 1] == 0x72 && s[i + 2] == 0x75
        && s[i + 3] == 0x65 {
        Some(i + 4)
    } else if 0 <= i && i + 5 <= s.len() && s[i] == 0x66 && s[i + 1] == 0x61 && s[i + 2] == 0x6c
        && s[i + 3] == 0x73 && s[i + 4] == 0x65 {
        Some(i + 5)
    } else {
        None
    }
}

/// The end of a plain JSON value starting at `i`, nested at most `d` deep.
pub open spec fn value_end(s: Seq<u8>, i: int, d: nat) -> Option<int>
    decreases d, s.len() - i, 0nat,
{
    if i < 0 || i >= s.len() {
        None
    } else if s[i] == 0x7b {
        if d == 0 {
            None
        } else {
            members_end(s, skip_ws(s, i + 1), (d - 1) as nat, true)
        }
    } else if s[i] == 0x5b {
        if d == 0 {
            None
        } else {
            elements_end(s, skip_ws(s, i + 1), (d - 1) as nat, true)
        }
    } else if s[i] == 0x22 {
        string_end(s, i + 1)
    } else if s[i] == 0x2d || is_digit_byte(s[i]) {
        number_end(s, i)
    } else {
        literal_end(s, i)
    }
}

/// After a value ending at `k` inside a container that closes with `close`:
/// the container's end, or the position of the next entry after a comma.
pub open spec fn after_entry(s: Seq<u8>, k: int, close: u8) -> Option<(bool, int)> {
    let k2 = skip_ws(s, k);
    if 0 <= k2 < s.len() && s[k2] == close {
        Some((true, k2 + 1))
    } else if 0 <= k2 < s.len() && s[k2] == 0x2c {
        Some((false, skip_ws(s, k2 + 1)))
    } else {
        None
    }
}

/// The end of an array's elements from `i` (after `[` and whitespace)
/// through the closing `]`; `first` when no element has been read yet.
pub open spec fn elements_end(s: Seq<u8>, i: int, d: nat, first: bool) -> Option<int>
    decreases d, s.len() - i, 1nat,
{
    if i < 0 || i >= s.len() {
        None
    } else if first && s[i] == 0x5d {
        Some(i + 1)
    } else {
        match value_end(s, i, d) {
            None => None,
            Some(k) => match after_entry(s, k, 0x5d) {
                None => None,
                Some((true, e)) => Some(e),
                Some((false, n)) => if i < n <= s.len() {
                    elements_end(s, n, d, false)
                } else {
                    None
                },
            },
        }
    }
}

/// The end of an object's members from `i` (after `{` and whitespace)
/// through the closing `}`; `first` when no member has been read yet.
pub open spec fn members_end(s: Seq<u8>, i: int, d: nat, first: bool) -> Option<int>
    decreases d, s.len() - i, 1nat,
{
    if i < 0 || i >= s.len() {
        None
    } else if first && s[i] == 0x7d {
        Some(i + 1)
    } else if s[i] != 0x22 {
        None
    } else {
        match string_end(s, i + 1) {
            None => None,
            Some(k) => {
                let k2 = skip_ws(s, k);
                if !(0 <= k2 < s.len() && s[k2] == 0x3a) {
                    None
                } else {
                    let v = skip_ws(s, k2 + 1);
                    if !(i < v <= s.len()) {
                        None
                    } else {
                        match value_end(s, v, d) {
                            None => None,
                            Some(k3) => match after_entry(s, k3, 0x7d) {
                                None => None,
                                Some((true, e)) => Some(e),
                                Some((false, n)) => if i < n <= s.len() {
                                    members_end(s, n, d, false)
                                } else {
                                    None
                                },
                            },
                        }
                    }
                }
            },
        }
    }
}

/// Whether `s` is one plain JSON text, with whitespace allowed around it.
pub open spec fn is_plain_json(s: Seq<u8>) -> bool {
    match value_end(s, skip_ws(s, 0), MAX_DEPTH as nat) {
        Some(k) => skip_ws(s, k) == s.len(),
        None => false,
    }
}

/// Whether the first non-whitespace byte of `s` can begin a JSON value.
pub open spec fn starts_value(s: Seq<u8>) -> bool {
    let i = skip_ws(s, 0);
    0 <= i < s.len() && (s[i] == 0x7b || s[i] == 0x5b || s[i] == 0x22 || s[i] == 0x2d
        || is_digit_byte(s[i]) || s[i] == 0x6e || s[i] == 0x74 || s[i] == 0x66)
}


/// Every plain JSON text begins, after whitespace, with a byte that can
/// begin a value: a text that does not is never plain JSON.
pub proof fn plain_json_starts_with_value(s: Seq<u8>)
    requires
        is_plain_json(s),
    ensures
        starts_value(s),
{
    let i = skip_ws(s, 0);
    assert(value_end(s, i, MAX_DEPTH as nat) is Some);
}

/// A position result read as an integer position.
pub open spec fn as_position(r: Option<usize>) -> Option<int> {
    match r {
        Some(k) => Some(k as int),
        None => None,
    }
}

fn skip_ws_at(s: &[u8], i: usize) -> (r: usize)
    requires
        i <= s@.len(),
    ensures
        r == skip_ws(s@, i as int),
        i <= r <= s@.len(),
{
    let mut j = i;
    while j < s.len() && (s[j] == 0x20 || s[j] == 0x0a || s[j] == 0x09 || s[j] == 0x0d)
        invariant
            i <= j <= s@.len(),
            skip_ws(s@, j as int) == skip_ws(s@, i as int),
        decreases s@.len() - j,
    {
        j = j + 1;
    }
    j
}

fn digits_end_at(s: &[u8], i: usize) -> (r: usize)
    requires
        i <= s@.len(),
    ensures
        r == digits_end(s@, i as int),
        i <= r <= s@.len(),
{
    let mut j = i;
    while j < s.len() && 0x30 <= s[j] && s[j] <= 0x39
        invariant
            i <= j <= s@.len(),
            digits_end(s@, j as int) == digits_end(s@, i as int),
        decreases s@.len() - j,
    {
        j = j + 1;
    }
    j
}

fn string_end_at(s: &[u8], i: usize) -> (r: Option<usize>)
    requires
        i <= s@.len(),
    ensures
        as_position(r) == string_end(s@, i as int),
        r matches Some(k) ==> k <= s@.len(),
{
    let mut j = i;
    loop
        invariant
            i <= j <= s@.len(),
            string_end(s@, j as int) == string_end(s@, i as int),
        decreases s@.len() - j,
    {
        if j >= s.len() {
            return None;
        }
        let b = s[j];
        if b == 0x22 {
            return Some(j + 1);
        } else if b == 0x5c {
            if j + 1 < s.len() {
                let e = s[j + 1];
                if e == 0x22 || e == 0x5c || e == 0x2f || e == 0x62 || e == 0x66 || e == 0x6e
                    || e == 0x72 || e == 0x74 {
                    j = j + 2;
                } else {
                    return None;
                }
            } else {
                return None;
            }
        } else if 0x20 <= b && b <= 0x7e {
            j = j + 1;
        } else {
            return None;
        }
    }
}

fn number_end_at(s: &[u8], i: usize) -> (r: Option<usize>)
    requires
        i <= s@.len(),
    ensures
        as_position(r) == number_end(s@, i as int),
        r matches Some(k) ==> k <= s@.len(),
{
    let j = if i < s.len() && s[i] == 0x2d { i + 1 } else { i };
    if !(j < s.len() && 0x30 <= s[j] && s[j] <= 0x39) {
        return None;
    }
    let k = if s[j] == 0x30 { j + 1 } else { digits_end_at(s, j) };
    if k - j > 15 {
        None
    } else if k < s.len() && s[k] == 0x2e {
        let m = digits_end_at(s, k + 1);
        if m == k + 1 || m - (k + 1) > 15 {
            None
        } else {
            Some(m)
        }
    } else {
        Some(k)
    }
}

fn literal_end_at(s: &[u8], i: usize) -> (r: Option<usize>)
    requires
        i <= s@.len(),
    ensures
        as_position(r) == literal_end(s@, i as int),
        r matches Some(k) ==> k <= s@.len(),
{
    let n = s.len();
    if n - i >= 4 && s[i] == 0x6e && s[i + 1] == 0x75 && s[i + 2] == 0x6c && s[i + 3] == 0x6c {
        Some(i + 4)
    } else if n - i >= 4 && s[i] == 0x74 && s[i + 1] == 0x72 && s[i + 2] == 0x75 && s[i + 3]
        == 0x65 {
        Some(i + 4)
    } else if n - i >= 5 && s[i] == 0x66 && s[i + 1] == 0x61 && s[i + 2] == 0x6c && s[i + 3]
        == 0x73 && s[i + 4] == 0x65 {
        Some(i + 5)
    } else {
        None
    }
}

fn value_end_at(s: &[u8], i: usize, d: u32) -> (r: Option<usize>)
    requires
        i <= s@.len(),
    ensures
        as_position(r) == value_end(s@, i as int, d as nat),
        r matches Some(k) ==> k <= s@.len(),
    decreases d, s@.len() - i, 0nat,
{
    if i >= s.len() {
        None
    } else if s[i] == 0x7b {
        if d == 0 {
            None
        } else {
            let j = skip_ws_at(s, i + 1);
            members_end_at(s, j, d - 1, true)
        }
    } else if s[i] == 0x5b {
        if d == 0 {
            None
        } else {
            let j = skip_ws_at(s, i + 1);
            elements_end_at(s, j, d - 1, true)
        }
    } else if s[i] == 0x22 {
        string_end_at(s, i + 1)
    } else if s[i] == 0x2d || (0x30 <= s[i] && s[i] <= 0x39) {
        number_end_at(s, i)
    } else {
        literal_end_at(s, i)
    }
}

fn after_entry_at(s: &[u8], k: usize, close: u8) -> (r: Option<(bool, usize)>)
    requires
        k <= s@.len(),
    ensures
        match (r, after_entry(s@, k as int, close)) {
            (Some((c, n)), Some((c2, n2))) => c == c2 && n == n2 && n <= s@.len(),
            (None, None) => true,
            _ => false,
        },
{
    let k2 = skip_ws_at(s, k);
    if k2 < s.len() && s[k2] == close {
        Some((true, k2 + 1))
    } else if k2 < s.len() && s[k2] == 0x2c {
        Some((false, skip_ws_at(s, k2 + 1)))
    } else {
        None
    }
}

fn elements_end_at(s: &[u8], i: usize, d: u32, first: bool) -> (r: Option<usize>)
    requires
        i <= s@.len(),
    ensures
        as_position(r) == elements_end(s@, i as int, d as nat, first),
        r matches Some(k) ==> k <= s@.len(),
    decreases d, s@.len() - i, 1nat,
{
    if i >= s.len() {
        None
    } else if first && s[i] == 0x5d {
        Some(i + 1)
    } else {
        match value_end_at(s, i, d) {
            None => None,
            Some(k) => match after_entry_at(s, k, 0x5d) {
                None => None,
                Some((true, e)) => Some(e),
                Some((false, n)) => if i < n {
                    elements_end_at(s, n, d, false)
                } else {
                    None
                },
            },
        }
    }
}

fn members_end_at(s: &[u8], i: usize, d: u32, first: bool) -> (r: Option<usize>)
    requires
        i <= s@.len(),
    ensures
        as_position(r) == members_end(s@, i as int, d as nat, first),
        r matches Some(k) ==> k <= s@.len(),
    decreases d, s@.len() - i, 1nat,
{
    if i >= s.len() {
        None
    } else if first && s[i] == 0x7d {
        Some(i + 1)
    } else if s[i] != 0x22 {
        None
    } else {
        match string_end_at(s, i + 1) {
            None => None,
            Some(k) => {
                let k2 = skip_ws_at(s, k);
                if !(k2 < s.len() && s[k2] == 0x3a) {
                    None
                } else {
                    let v = skip_ws_at(s, k2 + 1);
                    if !(i < v) {
                        None
                    } else {
                        match value_end_at(s, v, d) {
                            None => None,
                            Some(k3) => match after_entry_at(s, k3, 0x7d) {
                                None => None,
                                Some((true, e)) => Some(e),
                                Some((false, n)) => if i < n {
                                    members_end_at(s, n, d, false)
                                } else {
                                    None
                                },
                            },
                        }
                    }
                }
            },
        }
    }
}

/// Whether `bytes` is one plain JSON text.
pub fn is_plain_json_text(bytes: &[u8]) -> (r: bool)
    ensures
        r == is_plain_json(bytes@),
{
    let i = skip_ws_at(bytes, 0);
    match value_end_at(bytes, i, MAX_DEPTH) {
        Some(k) => skip_ws_at(bytes, k) == bytes.len(),
        None => false,
    }
}

/// Whether the first non-whitespace byte of `bytes` can begin a JSON value.
pub fn starts_with_value(bytes: &[u8]) -> (r: bool)
    ensures
        r == starts_value(bytes@),
{
    let i = skip_ws_at(bytes, 0);
    if i < bytes.len() {
        let b = bytes[i];
        b == 0x7b || b == 0x5b || b == 0x22 || b == 0x2d || (0x30 <= b && b <= 0x39) || b == 0x6e
            || b == 0x74 || b == 0x66
    } else {
        false
    }
}

} // verus!
