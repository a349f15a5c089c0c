//! Checks on the text of a bearer token, made before it reaches the verifier.
use vstd::prelude::*;

verus! {

/// A character that an HTTP header value may hold: a tab, or printable ASCII.
pub open spec fn is_visible_ascii(c: char) -> bool {
    c as u32 == 9 || (32 <= c as u32 && c as u32 <= 126)
}

pub open spec fn all_visible_ascii(s: Seq<char>) -> bool {
    forall|k: int| 0 <= k < s.len() ==> is_visible_ascii(#[trigger] s[k])
}

/// The value of a character in the standard base64 alphabet, or -1.
pub open spec fn b64_value(c: char) -> int {
    let v = c as u32;
    if 65 <= v && v <= 90 {
        v - 65
    } else if 97 <= v && v <= 122 {
        v - 97 + 26
    } else if 48 <= v && v <= 57 {
        v - 48 + 52
    } else if v == 43 {
        62
    } else if v == 47 {
        63
    } else {
        -1
    }
}

/// Canonical standard base64 without padding: alphabet characters only, no
/// length that leaves a single character over, and no bits set in the last
/// character beyond those that encode whole bytes.
pub open spec fn canonical_unpadded_b64(s: Seq<char>) -> bool {
    &&& forall|k: int| 0 <= k < s.len() ==> b64_value(#[trigger] s[k]) >= 0
    &&& s.len() % 4 != 1
    &&& s.len() % 4 == 2 ==> b64_value(s.last()) % 16 == 0
    &&& s.len() % 4 == 3 ==> b64_value(s.last()) % 4 == 0
}

/// The index of the first `.` at or after `k`, or the length if there is none.
pub open spec fn first_dot_from(t: Seq<char>, k: int) -> int
    decreases t.len() - k,
{
    if k < 0 || k >= t.len() {
        t.len() as int
    } else if t[k] == '.' {
        k
    } else {
        first_dot_from(t, k + 1)
    }
}

/// A token whose second dot-separated segment, if it has one followed by a
/// third, is canonical unpadded standard base64.
pub open spec fn unsigned_payload_decodes(t: Seq<char>) -> bool {
    let i = first_dot_from(t, 0);
    let j = first_dot_from(t, i + 1);
    i >= t.len() || j >= t.len() || canonical_unpadded_b64(t.subrange(i + 1, j))
}

pub fn visible_ascii(s: &str) -> (r: bool)
    ensures
        r == all_visible_ascii(s@),
{
    let n = s.unicode_len();
    let mut i: usize = 0;
    while i < n
        invariant
            n == s@.len(),
            i <= n,
            forall|k: int| 0 <= k < i ==> is_visible_ascii(#[trigger] s@[k]),
        decreases n - i,
    {
        let v = s.get_char(i) as u32;
        if !(v == 9 || (32 <= v && v <= 126)) {
            return false;
        }
        i = i + 1;
    }
    true
}

fn b64_digit(c: char) -> (r: i32)
    ensures
        r as int == b64_value(c),
{
    let v = c as u32;
    if 65 <= v && v <= 90 {
        (v - 65) as i32
    } else if 97 <= v && v <= 122 {
        (v - 97 + 26) as i32
    } else if 48 <= v && v <= 57 {
        (v - 48 + 52) as i32
    } else if v == 43 {
        62
    } else if v == 47 {
        63
    } else {
        -1
    }
}

pub fn is_canonical_unpadded_b64(s: &str) -> (r: bool)
    ensures
        r == canonical_unpadded_b64(s@),
{
    let n = s.unicode_len();
    let mut i: usize = 0;
    while i < n
        invariant
            n == s@.len(),
            i <= n,
            forall|k: int| 0 <= k < i ==> b64_value(#[trigger] s@[k]) >= 0,
        decreases n - i,
    {
        if b64_digit(s.get_char(i)) < 0 {
            return false;
        }
        i = i + 1;
    }
    let rem = n % 4;
    if rem == 1 {
        return false;
    }
    if rem == 0 {
        return true;
    }
    let last = b64_digit(s.get_char(n - 1));
    if rem == 2 {
        last % 16 == 0
    } else {
        last % 4 == 0
    }
}

fn first_dot(t: &str, k: usize) -> (r: usize)
    requires
        k <= t@.len(),
    ensures
        r as int == first_dot_from(t@, k as int),
        k <= r <= t@.len(),
{
    let n = t.unicode_len();
    let mut i: usize = k;
    while i < n
        invariant
            n == t@.len(),
            k <= i <= n,
            first_dot_from(t@, i as int) == first_dot_from(t@, k as int),
        decreases n - i,
    {
        if t.get_char(i) == '.' {
            return i;
        }
        i = i + 1;
    }
    i
}

/// Whether the verifier may be handed this token while it accepts unsigned
/// tokens.
pub fn unsigned_payload_ok(t: &str) -> (r: bool)
    ensures
        r == unsigned_payload_decodes(t@),
{
    let n = t.unicode_len();
    let i = first_dot(t, 0);
    if i >= n {
        return true;
    }
    let j = first_dot(t, i + 1);
    if j >= n {
        return true;
    }
    is_canonical_unpadded_b64(t.substring_char(i + 1, j))
}

} // verus!
