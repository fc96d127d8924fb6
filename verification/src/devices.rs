//! Selecting device paths out of a device-listing's tabular output.
//!
//! The surrounding process shells out to a listing utility and gets back one
//! line per device: a path, then at least one column of description, all
//! ASCII. The engine's rule is decided here: a line offers a usable device
//! when it has at least two whitespace-separated columns and its first column
//! — the path — does not end in a digit (paths ending in a digit are
//! partitions, not whole devices).

use vstd::prelude::*;

verus! {

/// ASCII whitespace, as the listing's columns are separated.
pub open spec fn is_ws(b: u8) -> bool {
    b == 32 || (9 <= b && b <= 13)
}

/// An ASCII digit.
pub open spec fn is_ascii_digit(b: u8) -> bool {
    48 <= b && b <= 57
}

/// The first index at or after `i` holding a non-whitespace byte, or the
/// length when there is none.
pub open spec fn first_non_ws(s: Seq<u8>, i: int) -> int
    decreases s.len() - i when 0 <= i <= s.len()
{
    if i >= s.len() {
        s.len() as int
    } else if !is_ws(s[i]) {
        i
    } else {
        first_non_ws(s, i + 1)
    }
}

/// The first index at or after `i` holding a whitespace byte, or the length
/// when there is none.
pub open spec fn first_ws(s: Seq<u8>, i: int) -> int
    decreases s.len() - i when 0 <= i <= s.len()
{
    if i >= s.len() {
        s.len() as int
    } else if is_ws(s[i]) {
        i
    } else {
        first_ws(s, i + 1)
    }
}

/// Start of the line's first column.
pub open spec fn col_start(s: Seq<u8>) -> int {
    first_non_ws(s, 0)
}

/// End of the line's first column.
pub open spec fn col_end(s: Seq<u8>) -> int {
    first_ws(s, col_start(s))
}

/// The line has at least two whitespace-separated columns.
pub open spec fn has_two_columns(s: Seq<u8>) -> bool {
    col_start(s) < s.len() && first_non_ws(s, col_end(s)) < s.len()
}

/// The line offers a whole device: two columns at least, and a first column
/// that does not end in a digit.
pub open spec fn line_selects_device(s: Seq<u8>) -> bool {
    has_two_columns(s) && !is_ascii_digit(s[col_end(s) - 1])
}

proof fn lemma_first_ws_bounds(s: Seq<u8>, i: int)
    requires
        0 <= i <= s.len(),
    ensures
        i <= first_ws(s, i) <= s.len(),
        first_ws(s, i) < s.len() ==> is_ws(s[first_ws(s, i)]),
    decreases s.len() - i,
{
    if i < s.len() && !is_ws(s[i]) {
        lemma_first_ws_bounds(s, i + 1);
    }
}

/// Whether this byte separates columns.
fn is_ws_byte(b: u8) -> (r: bool)
    ensures
        r == is_ws(b),
{
    b == 32 || (9 <= b && b <= 13)
}

/// Applies the device rule to one line of the listing: returns the first
/// column — the device path — when the line has at least two columns and
/// that path does not end in a digit, and nothing otherwise.
pub fn select_device_path(line: &Vec<u8>) -> (r: Option<Vec<u8>>)
    ensures
        line_selects_device(line@) ==> (r matches Some(p) && p@ == line@.subrange(
            col_start(line@),
            col_end(line@),
        )),
        !line_selects_device(line@) ==> r is None,
{
    let n = line.len();
    let mut a: usize = 0;
    while a < n && is_ws_byte(line[a])
        invariant
            0 <= a <= n == line.len(),
            first_non_ws(line@, 0) == first_non_ws(line@, a as int),
        decreases n - a,
    {
        a += 1;
    }
    proof {
        assert(col_start(line@) == a as int);
    }
    if a == n {
        return None;
    }
    let mut b: usize = a;
    while b < n && !is_ws_byte(line[b])
        invariant
            a <= b <= n == line.len(),
            first_ws(line@, a as int) == first_ws(line@, b as int),
        decreases n - b,
    {
        b += 1;
    }
    proof {
        assert(col_end(line@) == b as int);
        lemma_first_ws_bounds(line@, a as int);
        assert(b > a) by {
            assert(first_ws(line@, a as int) == first_ws(line@, a + 1));
        }
    }
    let mut c: usize = b;
    while c < n && is_ws_byte(line[c])
        invariant
            b <= c <= n == line.len(),
            first_non_ws(line@, b as int) == first_non_ws(line@, c as int),
        decreases n - c,
    {
        c += 1;
    }
    proof {
        assert(first_non_ws(line@, col_end(line@)) == c as int);
    }
    if c == n {
        return None;
    }
    if 48 <= line[b - 1] && line[b - 1] <= 57 {
        return None;
    }
    let mut p: Vec<u8> = Vec::new();
    let mut i: usize = a;
    while i < b
        invariant
            a <= i <= b <= n == line.len(),
            p@ =~= line@.subrange(a as int, i as int),
        decreases b - i,
    {
        p.push(line[i]);
        i += 1;
    }
    proof {
        assert(p@ =~= line@.subrange(col_start(line@), col_end(line@)));
    }
    Some(p)
}

} // verus!
