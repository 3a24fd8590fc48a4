//! Decimal number parsing for day numbers, years and distances.

use vstd::prelude::*;

verus! {

/// Whether every character of `s` is an ASCII decimal digit.
pub open spec fn all_digits(s: Seq<char>) -> bool {
    forall|i: int| 0 <= i < s.len() ==> '0' <= #[trigger] s[i] <= '9'
}

/// The value of an ASCII digit.
pub open spec fn digit_value(c: char) -> int {
    c as int - '0' as int
}

/// The value of a run of decimal digits, most significant first.
pub open spec fn digits_value(s: Seq<char>) -> nat
    decreases s.len(),
{
    if s.len() == 0 {
        0
    } else {
        (10 * digits_value(s.drop_last()) + digit_value(s.last())) as nat
    }
}

/// The digit run after an optional leading sign character.
pub open spec fn unsigned_body(s: Seq<char>) -> Seq<char> {
    if s.len() > 0 && s[0] == '+' {
        s.drop_first()
    } else {
        s
    }
}

/// The number an unsigned decimal text denotes: an optional `+`, then one or more digits.
pub open spec fn unsigned_text(s: Seq<char>) -> Option<nat> {
    let body = unsigned_body(s);
    if body.len() > 0 && all_digits(body) {
        Some(digits_value(body))
    } else {
        None
    }
}

/// The number a signed decimal text denotes: an optional `+` or `-`, then one or more digits.
pub open spec fn signed_text(s: Seq<char>) -> Option<int> {
    if s.len() > 0 && s[0] == '-' {
        let body = s.drop_first();
        if body.len() > 0 && all_digits(body) {
            Some(-digits_value(body))
        } else {
            None
        }
    } else {
        match unsigned_text(s) {
            Some(v) => Some(v as int),
            None => None,
        }
    }
}

/// What `u32` parsing yields: the number when it is in range.
pub open spec fn u32_text(s: Seq<char>) -> Option<u32> {
    match unsigned_text(s) {
        Some(v) => if v <= u32::MAX {
            Some(v as u32)
        } else {
            None
        },
        None => None,
    }
}

/// What `i32` parsing yields: the number when it is in range.
pub open spec fn i32_text(s: Seq<char>) -> Option<i32> {
    match signed_text(s) {
        Some(v) => if i32::MIN <= v <= i32::MAX {
            Some(v as i32)
        } else {
            None
        },
        None => None,
    }
}

/// Position of the first `c` in `s` at or after `i`, or the length of `s`.
pub open spec fn find_from(s: Seq<char>, c: char, i: int) -> int
    decreases s.len() - i,
{
    if i >= s.len() || s[i] == c {
        i
    } else {
        find_from(s, c, i + 1)
    }
}

/// The largest distance a record can carry; larger values are held at this bound.
pub const MAX_DISTANCE_VALUE: u16 = 65535;

/// The whole number of miles a distance text denotes, rounded to nearest with halves
/// rounded up, held within `0..=65535`: an optional sign, digits, and an optional
/// fractional part after a `.`, with at least one digit in all.
pub open spec fn rounded_distance(t: Seq<char>) -> Option<u16> {
    let negative = t.len() > 0 && t[0] == '-';
    let body = if t.len() > 0 && (t[0] == '+' || t[0] == '-') {
        t.drop_first()
    } else {
        t
    };
    let dot = find_from(body, '.', 0);
    let whole = body.subrange(0, dot);
    let frac = if dot < body.len() {
        body.subrange(dot + 1, body.len() as int)
    } else {
        Seq::empty()
    };
    if all_digits(whole) && all_digits(frac) && whole.len() + frac.len() > 0 {
        let up: int = if frac.len() > 0 && frac[0] >= '5' {
            1
        } else {
            0
        };
        if negative {
            Some(0)
        } else if digits_value(whole) + up > MAX_DISTANCE_VALUE {
            Some(MAX_DISTANCE_VALUE)
        } else {
            Some((digits_value(whole) + up) as u16)
        }
    } else {
        None
    }
}

proof fn lemma_find_from_bounds(s: Seq<char>, c: char, i: int)
    requires
        0 <= i <= s.len(),
    ensures
        i <= find_from(s, c, i) <= s.len(),
        find_from(s, c, i) < s.len() ==> s[find_from(s, c, i)] == c,
    decreases s.len() - i,
{
    if i < s.len() && s[i] != c {
        lemma_find_from_bounds(s, c, i + 1);
    }
}

proof fn lemma_digits_value_grows(s: Seq<char>, c: char)
    requires
        '0' <= c <= '9',
    ensures
        digits_value(s.push(c)) == 10 * digits_value(s) + digit_value(c),
        digits_value(s.push(c)) >= digits_value(s),
{
    assert(s.push(c).drop_last() =~= s);
}

/// Whether `s[from..to]` consists of ASCII digits only.
fn digits_only(s: &Vec<char>, from: usize, to: usize) -> (r: bool)
    requires
        from <= to <= s@.len(),
    ensures
        r == all_digits(s@.subrange(from as int, to as int)),
{
    let mut k: usize = from;
    while k < to
        invariant
            from <= k <= to <= s@.len(),
            all_digits(s@.subrange(from as int, k as int)),
        decreases to - k,
    {
        if s[k] < '0' || s[k] > '9' {
            assert(s@.subrange(from as int, to as int)[k - from] == s@[k as int]);
            return false;
        }
        assert forall|i: int| 0 <= i < k + 1 - from implies '0' <= #[trigger] s@.subrange(
            from as int,
            k + 1,
        )[i] <= '9' by {
            if i < k - from {
                assert(s@.subrange(from as int, k + 1)[i] == s@.subrange(from as int, k as int)[i]);
            }
        }
        k = k + 1;
    }
    true
}

/// The value of the digit run `s[from..to]`, held at `cap` when it is larger.
fn capped_value(s: &Vec<char>, from: usize, to: usize, cap: u64) -> (r: u64)
    requires
        from <= to <= s@.len(),
        all_digits(s@.subrange(from as int, to as int)),
        cap <= u32::MAX as u64 + 1,
    ensures
        r as int == if digits_value(s@.subrange(from as int, to as int)) < cap {
            digits_value(s@.subrange(from as int, to as int)) as int
        } else {
            cap as int
        },
{
    let mut acc: u64 = 0;
    let mut k: usize = from;
    assert(s@.subrange(from as int, from as int) =~= Seq::<char>::empty());
    while k < to
        invariant
            from <= k <= to <= s@.len(),
            cap <= u32::MAX as u64 + 1,
            all_digits(s@.subrange(from as int, to as int)),
            acc as int == if digits_value(s@.subrange(from as int, k as int)) < cap {
                digits_value(s@.subrange(from as int, k as int)) as int
            } else {
                cap as int
            },
        decreases to - k,
    {
        let c = s[k];
        assert(s@.subrange(from as int, to as int)[k - from] == c);
        proof {
            assert(s@.subrange(from as int, k + 1) =~= s@.subrange(from as int, k as int).push(c));
            lemma_digits_value_grows(s@.subrange(from as int, k as int), c);
        }
        let d = (c as u32 - '0' as u32) as u64;
        if acc < cap {
            let next = acc * 10 + d;
            acc = if next < cap {
                next
            } else {
                cap
            };
        }
        k = k + 1;
    }
    acc
}

/// Parses a `u32` the way `u32`'s `FromStr` does: an optional `+`, then digits.
pub fn parse_u32(t: &Vec<char>) -> (r: Option<u32>)
    ensures
        r == u32_text(t@),
{
    let n = t.len();
    let start: usize = if n > 0 && t[0] == '+' {
        1
    } else {
        0
    };
    assert(unsigned_body(t@) =~= t@.subrange(start as int, n as int));
    if start == n || !digits_only(t, start, n) {
        return None;
    }
    let v = capped_value(t, start, n, u32::MAX as u64 + 1);
    if v <= u32::MAX as u64 {
        Some(v as u32)
    } else {
        None
    }
}

/// Parses an `i32` the way `i32`'s `FromStr` does: an optional `+` or `-`, then digits.
pub fn parse_i32(t: &Vec<char>) -> (r: Option<i32>)
    ensures
        r == i32_text(t@),
{
    let n = t.len();
    let negative = n > 0 && t[0] == '-';
    let start: usize = if n > 0 && (t[0] == '+' || t[0] == '-') {
        1
    } else {
        0
    };
    proof {
        if !negative {
            assert(unsigned_body(t@) =~= t@.subrange(start as int, n as int));
        }
    }
    assert(negative ==> t@.drop_first() =~= t@.subrange(1, n as int));
    if start == n || !digits_only(t, start, n) {
        return None;
    }
    let v = capped_value(t, start, n, 0x8000_0000u64 + 1);
    if negative {
        if v <= 0x8000_0000u64 {
            Some((0 - (v as i64)) as i32)
        } else {
            None
        }
    } else if v <= 0x7fff_ffffu64 {
        Some(v as i32)
    } else {
        None
    }
}

/// Parses a distance text into whole miles (see `rounded_distance`).
pub fn parse_distance(t: &Vec<char>) -> (r: Option<u16>)
    ensures
        r == rounded_distance(t@),
{
    let n = t.len();
    let negative = n > 0 && t[0] == '-';
    let start: usize = if n > 0 && (t[0] == '+' || t[0] == '-') {
        1
    } else {
        0
    };
    let ghost body = t@.subrange(start as int, n as int);
    assert(body =~= (if n > 0 && (t@[0] == '+' || t@[0] == '-') {
        t@.drop_first()
    } else {
        t@
    }));
    let mut dot: usize = start;
    while dot < n && t[dot] != '.'
        invariant
            start <= dot <= n,
            n == t@.len(),
            body == t@.subrange(start as int, n as int),
            find_from(body, '.', (dot - start) as int) == find_from(body, '.', 0),
        decreases n - dot,
    {
        assert(body[dot - start] == t@[dot as int]);
        dot = dot + 1;
    }
    proof {
        if dot < n {
            assert(body[dot - start] == t@[dot as int]);
        }
        lemma_find_from_bounds(body, '.', 0);
    }
    assert(body.subrange(0, (dot - start) as int) =~= t@.subrange(start as int, dot as int));
    let frac_start: usize = if dot < n {
        dot + 1
    } else {
        n
    };
    assert(frac_start < n ==> body.subrange((dot - start) + 1, body.len() as int) =~= t@.subrange(
        frac_start as int,
        n as int,
    ));
    assert(dot < n && frac_start == n ==> body.subrange((dot - start) + 1, body.len() as int)
        =~= Seq::<char>::empty());
    assert(t@.subrange(n as int, n as int) =~= Seq::<char>::empty());
    if !digits_only(t, start, dot) || !digits_only(t, frac_start, n) {
        return None;
    }
    if dot - start + (n - frac_start) == 0 {
        return None;
    }
    if negative {
        return Some(0);
    }
    let up: u64 = if frac_start < n && t[frac_start] >= '5' {
        assert(t@.subrange(frac_start as int, n as int)[0] == t@[frac_start as int]);
        1
    } else {
        proof {
            if frac_start < n {
                assert(t@.subrange(frac_start as int, n as int)[0] == t@[frac_start as int]);
            }
        }
        0
    };
    let whole = capped_value(t, start, dot, MAX_DISTANCE_VALUE as u64 + 1);
    if whole + up > MAX_DISTANCE_VALUE as u64 {
        Some(MAX_DISTANCE_VALUE)
    } else {
        Some((whole + up) as u16)
    }
}

} // verus!
