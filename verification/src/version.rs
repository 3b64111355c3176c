//! API versions, and verified parsing of their `MAJOR.MINOR.PATCH`
//! textual form. Each numeric component is limited to nine digits,
//! which keeps every component comfortably inside `u64`.

use vstd::prelude::*;

verus! {

/// An API version of the mapping runtime, as three numeric components.
#[derive(Clone, Copy, Debug, PartialEq, Eq, Hash, Structural)]
pub struct Version {
    pub major: u64,
    pub minor: u64,
    pub patch: u64,
}

/// Whether a character is a decimal digit.
pub open spec fn is_digit(c: char) -> bool {
    48 <= c as int && c as int <= 57
}

/// The numeric value of a decimal digit.
pub open spec fn digit_val(c: char) -> int {
    c as int - 48
}

/// Whether every character of `s` is a decimal digit.
pub open spec fn all_digits(s: Seq<char>) -> bool {
    forall|i: int| 0 <= i < s.len() ==> is_digit(s[i])
}

/// The value of a run of decimal digits, most significant first.
pub open spec fn num_val(s: Seq<char>) -> int
    decreases s.len(),
{
    if s.len() == 0 {
        0
    } else {
        num_val(s.drop_last()) * 10 + digit_val(s.last())
    }
}

/// Ten to the `n`.
pub open spec fn pow10(n: nat) -> int
    decreases n,
{
    if n == 0 {
        1
    } else {
        10 * pow10((n - 1) as nat)
    }
}

/// A valid version component: one to nine decimal digits.
pub open spec fn is_component(s: Seq<char>) -> bool {
    1 <= s.len() <= 9 && all_digits(s)
}

/// The position of the first dot of `s` at or after `from`, or the
/// length of `s` if there is none.
pub open spec fn first_dot(s: Seq<char>, from: int) -> int
    decreases s.len() - from,
        when 0 <= from <= s.len()
{
    if from >= s.len() {
        s.len() as int
    } else if s[from] == '.' {
        from
    } else {
        first_dot(s, from + 1)
    }
}

/// What a version string means: `MAJOR.MINOR.PATCH`, three dot-separated
/// digit runs of at most nine digits each, and nothing else.
pub open spec fn spec_parse_version(s: Seq<char>) -> Option<Version> {
    let i = first_dot(s, 0);
    if i == s.len() {
        None
    } else {
        let j = first_dot(s, i + 1);
        if j == s.len() {
            None
        } else if first_dot(s, j + 1) != s.len() {
            None
        } else {
            let major = s.subrange(0, i);
            let minor = s.subrange(i + 1, j);
            let patch = s.subrange(j + 1, s.len() as int);
            if is_component(major) && is_component(minor) && is_component(patch) {
                Some(
                    Version {
                        major: num_val(major) as u64,
                        minor: num_val(minor) as u64,
                        patch: num_val(patch) as u64,
                    },
                )
            } else {
                None
            }
        }
    }
}

/// Finds the first dot of `s` at or after `from`.
fn find_dot(s: &str, from: usize) -> (r: usize)
    requires
        from <= s@.len(),
    ensures
        r == first_dot(s@, from as int),
        from <= r <= s@.len(),
    decreases s@.len() - from,
{
    let n = s.unicode_len();
    let mut idx = from;
    while idx < n
        invariant
            from <= idx <= n,
            n == s@.len(),
            first_dot(s@, from as int) == first_dot(s@, idx as int),
        decreases n - idx,
    {
        let c = s.get_char(idx);
        if c == '.' {
            return idx;
        }
        idx = idx + 1;
    }
    idx
}

/// Reads the digit run `s[from..to]` as a number: `Some` exactly when
/// the run is a valid version component.
fn parse_component(s: &str, from: usize, to: usize) -> (r: Option<u64>)
    requires
        from <= to <= s@.len(),
    ensures
        r == if is_component(s@.subrange(from as int, to as int)) {
            Some(num_val(s@.subrange(from as int, to as int)) as u64)
        } else {
            None::<u64>
        },
{
    let len = to - from;
    if len < 1 || len > 9 {
        return None;
    }
    let mut v: u64 = 0;
    let mut k = from;
    while k < to
        invariant
            from <= k <= to,
            to <= s@.len(),
            1 <= to - from <= 9,
            all_digits(s@.subrange(from as int, k as int)),
            v == num_val(s@.subrange(from as int, k as int)),
            v < pow10((k - from) as nat),
        decreases to - k,
    {
        let c = s.get_char(k);
        let u = c as u32;
        if u < 48 || u > 57 {
            proof {
                assert(!is_digit(s@.subrange(from as int, to as int)[k - from]));
            }
            return None;
        }
        let d = (u - 48) as u64;
        proof {
            assert(pow10(9) == 1000000000) by {
                reveal_with_fuel(pow10, 10);
            }
            lemma_pow10_increases((k - from) as nat, 8);
        }
        let ghost before = s@.subrange(from as int, k as int);
        v = v * 10 + d;
        k = k + 1;
        proof {
            let now = s@.subrange(from as int, k as int);
            assert(now.drop_last() =~= before);
            assert(now.last() == s@[k - 1]);
        }
    }
    proof {
        assert(s@.subrange(from as int, k as int) =~= s@.subrange(from as int, to as int));
    }
    Some(v)
}

/// Powers of ten grow with the exponent.
proof fn lemma_pow10_increases(a: nat, b: nat)
    requires
        a <= b,
    ensures
        pow10(a) <= pow10(b),
    decreases b,
{
    if a < b {
        lemma_pow10_increases(a, (b - 1) as nat);
        assert(pow10(b) == 10 * pow10((b - 1) as nat));
        assert(pow10((b - 1) as nat) >= 1) by {
            lemma_pow10_increases(0, (b - 1) as nat);
        }
    }
}

impl Version {
    /// Builds a version from its three components.
    pub fn new(major: u64, minor: u64, patch: u64) -> (r: Version)
        ensures
            r == (Version { major, minor, patch }),
    {
        Version { major, minor, patch }
    }

    /// Parses `MAJOR.MINOR.PATCH`; `None` on any other shape.
    pub fn parse(s: &str) -> (r: Option<Version>)
        ensures
            r == spec_parse_version(s@),
    {
        let n = s.unicode_len();
        let i = find_dot(s, 0);
        if i == n {
            return None;
        }
        let j = find_dot(s, i + 1);
        if j == n {
            return None;
        }
        let k = find_dot(s, j + 1);
        if k < n {
            return None;
        }
        let major = parse_component(s, 0, i);
        let minor = parse_component(s, i + 1, j);
        let patch = parse_component(s, j + 1, n);
        match (major, minor, patch) {
            (Some(a), Some(b), Some(c)) => Some(Version { major: a, minor: b, patch: c }),
            _ => None,
        }
    }
}

} // verus!
