//! Character-level text utilities: splitting on a separator, counting
//! separator occurrences, string equality, and decimal parsing. All
//! executable functions are specified against recursive spec functions
//! over `Seq<char>` views.
use vstd::prelude::*;

verus! {

use vstd::string::StrSliceExecFns;
use vstd::string::StringExecFns;

/// The views of a sequence of owned strings.
pub open spec fn views_of(ts: Seq<String>) -> Seq<Seq<char>> {
    ts.map_values(|t: String| t@)
}

/// How many occurrences of `c` the sequence `s` holds.
pub open spec fn count_char(s: Seq<char>, c: char) -> nat
    decreases s.len(),
{
    if s.len() == 0 {
        0
    } else {
        count_char(s.drop_last(), c) + (if s.last() == c {
            1nat
        } else {
            0nat
        })
    }
}

/// Splitting `s` at every occurrence of `sep`: one (possibly empty) part
/// more than there are separators, in order, separators removed.
pub open spec fn spec_split(s: Seq<char>, sep: char) -> Seq<Seq<char>>
    decreases s.len(),
{
    if s.len() == 0 {
        seq![Seq::<char>::empty()]
    } else {
        let parts = spec_split(s.drop_last(), sep);
        if s.last() == sep {
            parts.push(Seq::<char>::empty())
        } else {
            parts.update(parts.len() - 1, parts.last().push(s.last()))
        }
    }
}

pub proof fn lemma_split_len(s: Seq<char>, sep: char)
    ensures
        spec_split(s, sep).len() == count_char(s, sep) + 1,
    decreases s.len(),
{
    if s.len() > 0 {
        lemma_split_len(s.drop_last(), sep);
    }
}

/// Counts the occurrences of `c` in `s`.
pub fn count_char_str(s: &str, c: char) -> (r: usize)
    ensures
        r == count_char(s@, c),
{
    let n = s.unicode_len();
    let mut i: usize = 0;
    let mut r: usize = 0;
    while i < n
        invariant
            0 <= i <= n == s@.len(),
            r == count_char(s@.take(i as int), c),
            r <= i,
        decreases n - i,
    {
        proof {
            assert(s@.take(i + 1).drop_last() =~= s@.take(i as int));
        }
        if s.get_char(i) == c {
            r = r + 1;
        }
        i = i + 1;
    }
    proof {
        assert(s@.take(n as int) =~= s@);
    }
    r
}

/// Splits `s` at every occurrence of `sep`.
pub fn split_str(s: &str, sep: char) -> (r: Vec<String>)
    ensures
        views_of(r@) == spec_split(s@, sep),
        r@.len() == count_char(s@, sep) + 1,
{
    let n = s.unicode_len();
    let mut r: Vec<String> = Vec::new();
    let mut start: usize = 0;
    let mut i: usize = 0;
    while i < n
        invariant
            0 <= start <= i <= n == s@.len(),
            spec_split(s@.take(i as int), sep).len() == r@.len() + 1,
            views_of(r@) == spec_split(s@.take(i as int), sep).drop_last(),
            s@.subrange(start as int, i as int) == spec_split(s@.take(i as int), sep).last(),
        decreases n - i,
    {
        proof {
            assert(s@.take(i + 1).drop_last() =~= s@.take(i as int));
        }
        let ghost old_parts = spec_split(s@.take(i as int), sep);
        let ghost old_r = r@;
        let c = s.get_char(i);
        if c == sep {
            let token = s.substring_char(start, i).to_owned();
            r.push(token);
            start = i + 1;
            proof {
                assert(views_of(r@) =~= views_of(old_r).push(token@));
                assert(views_of(r@) =~= spec_split(s@.take(i + 1), sep).drop_last());
                assert(s@.subrange(start as int, i + 1) =~= spec_split(s@.take(i + 1), sep).last());
            }
        } else {
            proof {
                assert(s@.subrange(start as int, i + 1) =~= s@.subrange(start as int, i as int).push(
                    s@[i as int],
                ));
                assert(spec_split(s@.take(i + 1), sep).drop_last() =~= old_parts.drop_last());
            }
        }
        i = i + 1;
    }
    let token = s.substring_char(start, n).to_owned();
    r.push(token);
    proof {
        assert(s@.take(n as int) =~= s@);
        lemma_split_len(s@, sep);
        assert(views_of(r@) =~= spec_split(s@, sep).drop_last().push(spec_split(s@, sep).last()));
        assert(views_of(r@) =~= spec_split(s@, sep));
    }
    r
}

/// Whether `c` is a decimal digit.
pub open spec fn is_digit_char(c: char) -> bool {
    '0' <= c && c <= '9'
}

/// The numeric value of a decimal digit.
pub open spec fn digit_val(c: char) -> int {
    c as int - '0' as int
}

pub open spec fn all_digits(s: Seq<char>) -> bool {
    forall|i: int| 0 <= i < s.len() ==> is_digit_char(#[trigger] s[i])
}

/// The value of `s` read as a decimal numeral.
pub open spec fn spec_decimal(s: Seq<char>) -> int
    decreases s.len(),
{
    if s.len() == 0 {
        0
    } else {
        spec_decimal(s.drop_last()) * 10 + digit_val(s.last())
    }
}

pub proof fn lemma_decimal_nonneg(s: Seq<char>)
    requires
        all_digits(s),
    ensures
        spec_decimal(s) >= 0,
    decreases s.len(),
{
    if s.len() > 0 {
        assert(all_digits(s.drop_last()));
        lemma_decimal_nonneg(s.drop_last());
    }
}

/// A longer all-digit numeral never has a smaller value than its prefix.
pub proof fn lemma_decimal_prefix_le(s: Seq<char>, k: int)
    requires
        all_digits(s),
        0 <= k <= s.len(),
    ensures
        spec_decimal(s.take(k)) <= spec_decimal(s),
    decreases s.len() - k,
{
    if k < s.len() {
        lemma_decimal_prefix_le(s, k + 1);
        assert(s.take(k + 1).drop_last() =~= s.take(k));
        assert(all_digits(s.take(k + 1)));
        lemma_decimal_nonneg(s.take(k));
        assert(spec_decimal(s.take(k)) <= spec_decimal(s.take(k + 1)));
    } else {
        assert(s.take(k) =~= s);
    }
}

/// Reads `s` as a decimal `u32`: `Some` exactly when `s` is a non-empty
/// string of digits whose value fits.
pub fn parse_u32(s: &str) -> (r: Option<u32>)
    ensures
        r is Some <==> (s@.len() > 0 && all_digits(s@) && spec_decimal(s@) <= u32::MAX),
        r is Some ==> r->0 == spec_decimal(s@),
{
    let n = s.unicode_len();
    if n == 0 {
        return None;
    }
    let mut i: usize = 0;
    let mut acc: u32 = 0;
    while i < n
        invariant
            0 <= i <= n == s@.len(),
            n > 0,
            all_digits(s@.take(i as int)),
            acc == spec_decimal(s@.take(i as int)),
        decreases n - i,
    {
        let c = s.get_char(i);
        let cv = c as u32;
        proof {
            assert(s@.take(i + 1).drop_last() =~= s@.take(i as int));
        }
        if cv < 48 || cv > 57 {
            proof {
                assert(!is_digit_char(s@[i as int]));
            }
            return None;
        }
        let d = cv - 48;
        if acc > (u32::MAX - d) / 10 {
            proof {
                assert(all_digits(s@.take(i + 1)));
                assert(spec_decimal(s@.take(i + 1)) == acc * 10 + d);
                assert(acc * 10 + d > u32::MAX) by (nonlinear_arith)
                    requires
                        acc > (u32::MAX - d) / 10,
                        0 <= d <= 9,
                        acc <= u32::MAX,
                ;
                if all_digits(s@) {
                    lemma_decimal_prefix_le(s@, i + 1);
                }
            }
            return None;
        }
        proof {
            assert(acc * 10 + d <= u32::MAX) by (nonlinear_arith)
                requires
                    acc <= (u32::MAX - d) / 10,
                    0 <= d <= 9,
                    acc >= 0,
            ;
        }
        acc = acc * 10 + d;
        i = i + 1;
    }
    proof {
        assert(s@.take(n as int) =~= s@);
    }
    Some(acc)
}

/// The first index at which `t` occurs in `ss`, or -1 if it does not.
pub open spec fn first_index_of(ss: Seq<Seq<char>>, t: Seq<char>) -> int
    decreases ss.len(),
{
    if ss.len() == 0 {
        -1
    } else if ss[0] == t {
        0
    } else {
        let r = first_index_of(ss.drop_first(), t);
        if r == -1 {
            -1
        } else {
            r + 1
        }
    }
}

pub proof fn lemma_first_index_of(ss: Seq<Seq<char>>, t: Seq<char>)
    ensures
        first_index_of(ss, t) == -1 ==> forall|j: int| 0 <= j < ss.len() ==> ss[j] != t,
        first_index_of(ss, t) != -1 ==> {
            let r = first_index_of(ss, t);
            &&& 0 <= r < ss.len()
            &&& ss[r] == t
            &&& forall|j: int| 0 <= j < r ==> ss[j] != t
        },
    decreases ss.len(),
{
    if ss.len() > 0 && ss[0] != t {
        let rest = ss.drop_first();
        lemma_first_index_of(rest, t);
        assert(forall|j: int| 1 <= j < ss.len() ==> ss[j] == rest[j - 1]);
        if first_index_of(rest, t) == -1 {
            assert forall|j: int| 0 <= j < ss.len() implies ss[j] != t by {
                if j >= 1 {
                    assert(rest[j - 1] != t);
                }
            }
        } else {
            let r = first_index_of(rest, t);
            assert(ss[r + 1] == rest[r]);
            assert forall|j: int| 0 <= j < r + 1 implies ss[j] != t by {
                if j >= 1 {
                    assert(rest[j - 1] != t);
                }
            }
        }
    }
}

/// Whether `c` is an ASCII letter or digit.
pub open spec fn is_alnum(c: char) -> bool {
    ('a' <= c && c <= 'z') || ('A' <= c && c <= 'Z') || ('0' <= c && c <= '9')
}

/// The longest prefix of `s` made of ASCII letters and digits.
pub open spec fn alnum_prefix(s: Seq<char>) -> Seq<char>
    decreases s.len(),
{
    if s.len() == 0 || !is_alnum(s[0]) {
        Seq::empty()
    } else {
        seq![s[0]] + alnum_prefix(s.drop_first())
    }
}

proof fn lemma_alnum_prefix_is_take(s: Seq<char>, j: int)
    requires
        0 <= j <= s.len(),
        forall|i: int| 0 <= i < j ==> is_alnum(#[trigger] s[i]),
        j == s.len() || !is_alnum(s[j]),
    ensures
        alnum_prefix(s) == s.take(j),
    decreases s.len(),
{
    if s.len() == 0 || !is_alnum(s[0]) {
        assert(j == 0);
        assert(s.take(0) =~= Seq::<char>::empty());
    } else {
        assert(j >= 1);
        let rest = s.drop_first();
        assert(forall|i: int| 0 <= i < j - 1 ==> is_alnum(#[trigger] rest[i]));
        lemma_alnum_prefix_is_take(rest, j - 1);
        assert(seq![s[0]] + rest.take(j - 1) =~= s.take(j));
    }
}

/// Extracts the longest prefix of `s` made of ASCII letters and digits.
pub fn take_alnum_prefix(s: &str) -> (r: String)
    ensures
        r@ == alnum_prefix(s@),
{
    let n = s.unicode_len();
    let mut j: usize = 0;
    while j < n
        invariant
            0 <= j <= n == s@.len(),
            forall|i: int| 0 <= i < j ==> is_alnum(#[trigger] s@[i]),
        decreases n - j,
    {
        let c = s.get_char(j);
        let cv = c as u32;
        let alnum = (97 <= cv && cv <= 122) || (65 <= cv && cv <= 90) || (48 <= cv && cv <= 57);
        if !alnum {
            proof {
                lemma_alnum_prefix_is_take(s@, j as int);
            }
            return s.substring_char(0, j).to_owned();
        }
        j = j + 1;
    }
    proof {
        lemma_alnum_prefix_is_take(s@, n as int);
        assert(s@.take(n as int) =~= s@);
    }
    s.substring_char(0, n).to_owned()
}

/// Character-for-character string equality.
pub fn str_eq(a: &str, b: &str) -> (r: bool)
    ensures
        r == (a@ == b@),
{
    let n = a.unicode_len();
    if n != b.unicode_len() {
        return false;
    }
    let mut i: usize = 0;
    while i < n
        invariant
            0 <= i <= n == a@.len(),
            n == b@.len(),
            forall|j: int| 0 <= j < i ==> a@[j] == b@[j],
        decreases n - i,
    {
        if a.get_char(i) != b.get_char(i) {
            return false;
        }
        i = i + 1;
    }
    proof {
        assert(a@ =~= b@);
    }
    true
}

} // verus!
