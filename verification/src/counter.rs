//! The variant counter: a single forward pass over the text lines of the
//! input, skipping `#`-prefixed lines, counting data lines and the
//! biallelic variants they expand to (one per comma-separated alternate
//! allele in the fifth tab-separated field).
use vstd::prelude::*;

verus! {

use vstd::string::StrSliceExecFns;
use crate::VcfError;
use crate::text::{count_char, count_char_str, spec_split, split_str, views_of};

/// A line is a data line unless it starts with `#`.
pub open spec fn is_data_line(l: Seq<char>) -> bool {
    !(l.len() > 0 && l[0] == '#')
}

/// The tab-separated fields of a line.
pub open spec fn line_fields(l: Seq<char>) -> Seq<Seq<char>> {
    spec_split(l, '\t')
}

/// How many biallelic variants one data line stands for: one per
/// comma-separated alternate allele in its fifth field.
pub open spec fn spec_line_variants(l: Seq<char>) -> int {
    count_char(line_fields(l)[4], ',') + 1int
}

/// A data line the counter accepts: at least five tab-separated fields and
/// an expansion that fits the container's 32-bit count.
pub open spec fn spec_line_countable(l: Seq<char>) -> bool {
    line_fields(l).len() >= 5 && spec_line_variants(l) <= u32::MAX
}

/// Total biallelic variants over all data lines.
pub open spec fn spec_total_variants(lines: Seq<Seq<char>>) -> int
    decreases lines.len(),
{
    if lines.len() == 0 {
        0
    } else {
        spec_total_variants(lines.drop_last()) + if is_data_line(lines.last()) {
            spec_line_variants(lines.last())
        } else {
            0
        }
    }
}

/// Total count of data lines.
pub open spec fn spec_total_data_lines(lines: Seq<Seq<char>>) -> int
    decreases lines.len(),
{
    if lines.len() == 0 {
        0
    } else {
        spec_total_data_lines(lines.drop_last()) + if is_data_line(lines.last()) {
            1int
        } else {
            0int
        }
    }
}

pub open spec fn spec_all_countable(lines: Seq<Seq<char>>) -> bool {
    forall|i: int|
        0 <= i < lines.len() && is_data_line(#[trigger] lines[i]) ==> spec_line_countable(lines[i])
}

/// No data line's fifth field holds a comma.
pub open spec fn spec_no_multiallelic(lines: Seq<Seq<char>>) -> bool {
    forall|i: int|
        0 <= i < lines.len() && is_data_line(#[trigger] lines[i]) ==> count_char(
            line_fields(lines[i])[4],
            ',',
        ) == 0
}

/// The variant total dominates the data-line total, with equality exactly
/// when no data line is multiallelic.
pub proof fn lemma_totals_relation(lines: Seq<Seq<char>>)
    ensures
        spec_total_data_lines(lines) >= 0,
        spec_total_variants(lines) >= spec_total_data_lines(lines),
        spec_total_variants(lines) == spec_total_data_lines(lines) <==> spec_no_multiallelic(lines),
    decreases lines.len(),
{
    if lines.len() > 0 {
        let pre = lines.drop_last();
        lemma_totals_relation(pre);
        assert(forall|i: int| 0 <= i < pre.len() ==> pre[i] == lines[i]);
        if spec_total_variants(lines) == spec_total_data_lines(lines) {
            assert(spec_total_variants(pre) == spec_total_data_lines(pre));
            assert forall|i: int|
                0 <= i < lines.len() && is_data_line(#[trigger] lines[i]) implies count_char(
                line_fields(lines[i])[4],
                ',',
            ) == 0 by {
                if i < lines.len() - 1 {
                    assert(pre[i] == lines[i]);
                } else {
                    assert(lines[i] == lines.last());
                }
            }
        }
        if spec_no_multiallelic(lines) {
            assert forall|i: int|
                0 <= i < pre.len() && is_data_line(#[trigger] pre[i]) implies count_char(
                line_fields(pre[i])[4],
                ',',
            ) == 0 by {
                assert(pre[i] == lines[i]);
            }
            assert(spec_no_multiallelic(pre));
        }
    }
}

/// Totals over a prefix never exceed totals over the whole.
pub proof fn lemma_totals_prefix_le(lines: Seq<Seq<char>>, k: int)
    requires
        0 <= k <= lines.len(),
    ensures
        spec_total_variants(lines.take(k)) <= spec_total_variants(lines),
        spec_total_data_lines(lines.take(k)) <= spec_total_data_lines(lines),
    decreases lines.len() - k,
{
    if k < lines.len() {
        lemma_totals_prefix_le(lines, k + 1);
        assert(lines.take(k + 1).drop_last() =~= lines.take(k));
        assert(lines.take(k + 1).last() == lines[k]);
    } else {
        assert(lines.take(k) =~= lines);
    }
}

/// How many biallelic variants one data line stands for: the comma count of
/// its fifth tab-separated field plus one. Fails on a line with fewer than
/// five fields, or whose expansion does not fit a `u32` (the failure carries
/// no line ordinal of its own; the caller knows the line's position).
pub fn alt_allele_count(line: &str) -> (r: Result<u32, VcfError>)
    ensures
        r is Ok <==> spec_line_countable(line@),
        r is Ok ==> r->Ok_0 == spec_line_variants(line@),
        r is Err ==> r->Err_0 == (VcfError::ParseFailure { line: 0 }),
{
    let fields = split_str(line, '\t');
    if fields.len() < 5 {
        return Err(VcfError::ParseFailure { line: 0 });
    }
    assert(fields@[4]@ == line_fields(line@)[4]);
    let commas = count_char_str(fields[4].as_str(), ',');
    if commas >= u32::MAX as usize {
        return Err(VcfError::ParseFailure { line: 0 });
    }
    Ok(commas as u32 + 1)
}

/// Counts the data lines and the biallelic variants they expand to, in one
/// forward pass. Returns `(variant_count, line_count)`; the variant count
/// is never below the line count, and equals it exactly when no data line
/// is multiallelic. Fails with the one-based ordinal of the first data line
/// that is malformed or that pushes a total past the 32-bit container
/// field.
pub fn count_variants(lines: &Vec<String>) -> (r: Result<(u32, u32), VcfError>)
    ensures
        r is Ok <==> (spec_all_countable(views_of(lines@)) && spec_total_variants(views_of(lines@))
            <= u32::MAX && spec_total_data_lines(views_of(lines@)) <= u32::MAX),
        r is Ok ==> ({
            let vs = views_of(lines@);
            &&& r->Ok_0.0 == spec_total_variants(vs)
            &&& r->Ok_0.1 == spec_total_data_lines(vs)
            &&& r->Ok_0.0 >= r->Ok_0.1
            &&& (r->Ok_0.0 == r->Ok_0.1 <==> spec_no_multiallelic(vs))
        }),
        r is Err ==> ({
            let vs = views_of(lines@);
            &&& r->Err_0 matches VcfError::ParseFailure { line: k }
            &&& 1 <= k <= vs.len()
            &&& is_data_line(vs[k - 1])
            &&& (!spec_line_countable(vs[k - 1]) || spec_total_variants(vs.take(k as int))
                > u32::MAX || spec_total_data_lines(vs.take(k as int)) > u32::MAX)
        }),
{
    let ghost vs = views_of(lines@);
    let n = lines.len();
    let mut i: usize = 0;
    let mut variant_num: u32 = 0;
    let mut line_num: u32 = 0;
    while i < n
        invariant
            vs == views_of(lines@),
            0 <= i <= n == lines@.len(),
            variant_num == spec_total_variants(vs.take(i as int)),
            line_num == spec_total_data_lines(vs.take(i as int)),
            forall|j: int|
                0 <= j < i && is_data_line(#[trigger] vs[j]) ==> spec_line_countable(vs[j]),
        decreases n - i,
    {
        proof {
            assert(vs.take(i + 1).drop_last() =~= vs.take(i as int));
            assert(vs.take(i + 1).last() == vs[i as int]);
        }
        let line = lines[i].as_str();
        assert(line@ == vs[i as int]);
        let is_meta = line.unicode_len() >= 1 && line.get_char(0) == '#';
        if !is_meta {
            assert(is_data_line(vs[i as int]));
            let added = match alt_allele_count(line) {
                Ok(a) => a,
                Err(_) => {
                    return Err(VcfError::ParseFailure { line: i + 1 });
                },
            };
            if added > u32::MAX - variant_num {
                proof {
                    lemma_totals_prefix_le(vs, i + 1);
                }
                return Err(VcfError::ParseFailure { line: i + 1 });
            }
            if line_num == u32::MAX {
                proof {
                    lemma_totals_prefix_le(vs, i + 1);
                }
                return Err(VcfError::ParseFailure { line: i + 1 });
            }
            variant_num = variant_num + added;
            line_num = line_num + 1;
        } else {
            assert(!is_data_line(vs[i as int]));
        }
        i = i + 1;
    }
    proof {
        assert(vs.take(n as int) =~= vs);
        lemma_totals_relation(vs);
    }
    Ok((variant_num, line_num))
}

} // verus!
