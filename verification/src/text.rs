//! Small executable helpers over strings that the generator shares:
//! equality, joining fragments, and parsing decimal numbers.

use vstd::prelude::*;
use vstd::string::*;

verus! {

/// Relies on `String::push` of std: it appends exactly the one character.
#[verifier::external_body]
pub fn push_char(s: &mut String, c: char)
    ensures
        final(s)@ == old(s)@.push(c),
{
    s.push(c);
}

/// Character-wise equality of two string slices.
pub fn str_eq(a: &str, b: &str) -> (r: bool)
    ensures
        r == (a@ == b@),
{
    let n = a.unicode_len();
    let m = b.unicode_len();
    if n != m {
        return false;
    }
    let mut i: usize = 0;
    while i < n
        invariant
            n == a@.len(),
            n == b@.len(),
            0 <= i <= n,
            forall|j: int| 0 <= j < i ==> a@[j] == b@[j],
        decreases n - i,
    {
        if a.get_char(i) != b.get_char(i) {
            return false;
        }
        i = i + 1;
    }
    proof {
        assert(a@ =~= b@);
    }
    true
}

/// Equality of two optional strings, where `None` only equals `None`.
pub fn opt_str_eq(a: &Option<String>, b: &Option<String>) -> (r: bool)
    ensures
        r == (opt_string_view(*a) == opt_string_view(*b)),
{
    match (a, b) {
        (Option::None, Option::None) => true,
        (Option::Some(x), Option::Some(y)) => str_eq(x.as_str(), y.as_str()),
        _ => false,
    }
}

/// The sequence of characters of an optional string, `None` staying `None`.
pub open spec fn opt_string_view(v: Option<String>) -> Option<Seq<char>> {
    match v {
        Option::Some(s) => Option::Some(s@),
        Option::None => Option::None,
    }
}

/// The sequence of characters of an optional string slice.
pub open spec fn opt_str_view(v: Option<&str>) -> Option<Seq<char>> {
    match v {
        Option::Some(s) => Option::Some(s@),
        Option::None => Option::None,
    }
}

/// The parts joined with the separator between consecutive parts.
pub open spec fn spec_join(parts: Seq<Seq<char>>, sep: Seq<char>) -> Seq<char>
    decreases parts.len(),
{
    if parts.len() == 0 {
        Seq::empty()
    } else if parts.len() == 1 {
        parts[0]
    } else {
        spec_join(parts.drop_last(), sep) + sep + parts.last()
    }
}

/// Join the given strings with the separator between consecutive entries.
pub fn join_strs(parts: &Vec<String>, sep: &str) -> (r: String)
    ensures
        r@ == spec_join(parts@.map_values(|p: String| p@), sep@),
{
    let ghost views = parts@.map_values(|p: String| p@);
    let mut r = String::new();
    if parts.len() == 0 {
        proof {
            assert(r@ =~= spec_join(views, sep@));
        }
        return r;
    }
    r.append(parts[0].as_str());
    proof {
        assert(views.subrange(0, 1).len() == 1);
        assert(views.subrange(0, 1)[0] == views[0]);
        assert(r@ =~= spec_join(views.subrange(0, 1), sep@));
    }
    let mut i: usize = 1;
    while i < parts.len()
        invariant
            1 <= i <= parts.len(),
            views == parts@.map_values(|p: String| p@),
            views.len() == parts@.len(),
            r@ == spec_join(views.subrange(0, i as int), sep@),
        decreases parts.len() - i,
    {
        r.append(sep);
        r.append(parts[i].as_str());
        proof {
            let pre = views.subrange(0, i as int);
            let cur = views.subrange(0, i + 1int);
            assert(cur.drop_last() =~= pre);
            assert(cur.last() == views[i as int]);
        }
        i = i + 1;
    }
    proof {
        assert(views.subrange(0, parts@.len() as int) =~= views);
    }
    r
}

/// Whether every character of the sequence is a decimal digit.
pub open spec fn all_digits(s: Seq<char>) -> bool {
    forall|i: int| 0 <= i < s.len() ==> '0' <= #[trigger] s[i] <= '9'
}

/// The value of a sequence of decimal digits.
pub open spec fn digits_val(s: Seq<char>) -> nat
    decreases s.len(),
{
    if s.len() == 0 {
        0
    } else {
        (digits_val(s.drop_last()) * 10 + s.last() as int - '0' as int) as nat
    }
}

proof fn lemma_digits_val_grows(s: Seq<char>, i: int)
    requires
        all_digits(s),
        0 <= i <= s.len(),
    ensures
        digits_val(s) >= digits_val(s.subrange(0, i)),
    decreases s.len() - i,
{
    if i == s.len() {
        assert(s.subrange(0, i) =~= s);
    } else {
        lemma_digits_val_grows(s, i + 1);
        let cur = s.subrange(0, i + 1);
        assert(cur.drop_last() =~= s.subrange(0, i));
        assert(digits_val(cur) == (digits_val(s.subrange(0, i)) * 10 + cur.last() as int
            - '0' as int) as nat);
        assert('0' <= s[i] <= '9');
        assert(digits_val(cur) >= digits_val(s.subrange(0, i)));
    }
}

/// Parse a non-empty string of decimal digits as a `usize`; yields `None` on
/// any other character, on the empty string, and on overflow.
pub fn parse_usize(s: &str) -> (r: Option<usize>)
    ensures
        match r {
            Option::Some(v) => s@.len() > 0 && all_digits(s@) && v == digits_val(s@),
            Option::None => !(s@.len() > 0 && all_digits(s@) && digits_val(s@) <= usize::MAX),
        },
{
    let n = s.unicode_len();
    if n == 0 {
        return Option::None;
    }
    let mut acc: usize = 0;
    let mut i: usize = 0;
    while i < n
        invariant
            n == s@.len(),
            0 <= i <= n,
            all_digits(s@.subrange(0, i as int)),
            acc == digits_val(s@.subrange(0, i as int)),
        decreases n - i,
    {
        let c = s.get_char(i);
        if !('0' <= c && c <= '9') {
            proof {
                assert(s@[i as int] == c);
                assert(!all_digits(s@));
            }
            return Option::None;
        }
        let d: usize = (c as u32 as usize) - 48;
        proof {
            let cur = s@.subrange(0, i + 1int);
            assert(cur.drop_last() =~= s@.subrange(0, i as int));
            assert(cur.last() == s@[i as int]);
        }
        let next = acc.checked_mul(10);
        match next {
            Option::Some(m) => {
                match m.checked_add(d) {
                    Option::Some(v) => {
                        acc = v;
                    },
                    Option::None => {
                        proof {
                            assert(digits_val(s@.subrange(0, i + 1int)) > usize::MAX);
                            if all_digits(s@) {
                                lemma_digits_val_grows(s@, i + 1int);
                            }
                        }
                        return Option::None;
                    },
                }
            },
            Option::None => {
                proof {
                    assert(digits_val(s@.subrange(0, i + 1int)) > usize::MAX);
                    if all_digits(s@) {
                        lemma_digits_val_grows(s@, i + 1int);
                    }
                }
                return Option::None;
            },
        }
        i = i + 1;
    }
    proof {
        assert(s@.subrange(0, n as int) =~= s@);
    }
    Option::Some(acc)
}

} // verus!
