//! The header parser and container sizing: skips `##` meta lines, reads the
//! `#`-prefixed column line, and extracts the ordered sample identifiers
//! that follow the nine fixed column names; computes the sample-block and
//! header lengths the binary container declares up front.
use vstd::prelude::*;

verus! {

use vstd::string::StrSliceExecFns;
use crate::VcfError;
use crate::text::{alnum_prefix, split_str, spec_split, take_alnum_prefix, views_of};

/// A meta line starts with the two-character `##` prefix.
pub open spec fn starts_with_meta(l: Seq<char>) -> bool {
    l.len() >= 2 && l[0] == '#' && l[1] == '#'
}

/// The column-header line starts with a single `#`.
pub open spec fn starts_with_hash(l: Seq<char>) -> bool {
    l.len() >= 1 && l[0] == '#'
}

/// The tab-separated fields of the header line, after its `#` marker.
pub open spec fn spec_header_fields(line: Seq<char>) -> Seq<Seq<char>> {
    spec_split(line.skip(1), '\t')
}

/// A well-shaped column line: `#`-prefixed, with at least the nine fixed
/// column names.
pub open spec fn spec_header_line_ok(line: Seq<char>) -> bool {
    starts_with_hash(line) && spec_header_fields(line).len() >= 9
}

/// The sample identifiers of the column line: the alphanumeric tokens of
/// the fields after the nine fixed column names, in order.
pub open spec fn spec_header_samples(line: Seq<char>) -> Seq<Seq<char>> {
    spec_header_fields(line).skip(9).map_values(|t: Seq<char>| alnum_prefix(t))
}

/// The index of the first line that does not carry the `##` meta prefix,
/// or -1 when every line does.
pub open spec fn first_non_meta(lines: Seq<Seq<char>>) -> int
    decreases lines.len(),
{
    if lines.len() == 0 {
        -1
    } else if !starts_with_meta(lines[0]) {
        0
    } else {
        let r = first_non_meta(lines.drop_first());
        if r == -1 {
            -1
        } else {
            r + 1
        }
    }
}

pub proof fn lemma_first_non_meta(lines: Seq<Seq<char>>)
    ensures
        first_non_meta(lines) == -1 ==> forall|j: int|
            0 <= j < lines.len() ==> starts_with_meta(#[trigger] lines[j]),
        first_non_meta(lines) != -1 ==> {
            let r = first_non_meta(lines);
            &&& 0 <= r < lines.len()
            &&& !starts_with_meta(lines[r])
            &&& forall|j: int| 0 <= j < r ==> starts_with_meta(#[trigger] lines[j])
        },
    decreases lines.len(),
{
    if lines.len() > 0 && starts_with_meta(lines[0]) {
        let rest = lines.drop_first();
        lemma_first_non_meta(rest);
        assert(forall|j: int| 1 <= j < lines.len() ==> lines[j] == rest[j - 1]);
        if first_non_meta(rest) == -1 {
            assert forall|j: int| 0 <= j < lines.len() implies starts_with_meta(
                #[trigger] lines[j],
            ) by {
                if j >= 1 {
                    assert(starts_with_meta(rest[j - 1]));
                }
            }
        } else {
            let r = first_non_meta(rest);
            assert forall|j: int| 0 <= j < r + 1 implies starts_with_meta(#[trigger] lines[j]) by {
                if j >= 1 {
                    assert(starts_with_meta(rest[j - 1]));
                }
            }
        }
    }
}

/// Parses one column-header line: after the `#` marker, the fields past the
/// nine fixed column names give the sample identifiers, each cut down to
/// its leading alphanumeric token (which also drops a trailing line break).
pub fn parse_header_samples(line: &str) -> (r: Result<Vec<String>, VcfError>)
    ensures
        r is Ok <==> spec_header_line_ok(line@),
        r is Ok ==> views_of(r->Ok_0@) == spec_header_samples(line@),
        r is Err ==> r->Err_0 == (VcfError::ParseFailure { line: 0 }),
{
    let n = line.unicode_len();
    if n < 1 || line.get_char(0) != '#' {
        return Err(VcfError::ParseFailure { line: 0 });
    }
    let rest = line.substring_char(1, n);
    proof {
        assert(rest@ =~= line@.skip(1));
    }
    let fields = split_str(rest, '\t');
    if fields.len() < 9 {
        return Err(VcfError::ParseFailure { line: 0 });
    }
    let ghost fvs = spec_header_fields(line@);
    let mut samples: Vec<String> = Vec::new();
    let mut k: usize = 9;
    while k < fields.len()
        invariant
            fvs == spec_header_fields(line@),
            views_of(fields@) == fvs,
            9 <= k <= fields@.len(),
            fields@.len() == fvs.len(),
            samples@.len() == k - 9,
            forall|j: int| 0 <= j < k - 9 ==> #[trigger] samples@[j]@ == alnum_prefix(fvs[9 + j]),
        decreases fields@.len() - k,
    {
        let token = take_alnum_prefix(fields[k].as_str());
        samples.push(token);
        k = k + 1;
    }
    proof {
        assert(views_of(samples@) =~= spec_header_samples(line@));
    }
    Ok(samples)
}

/// Reads the sample identifiers from the header: skips every `##` meta
/// line, then parses the next line, which must be the `#`-prefixed column
/// line. Fails with that line's one-based ordinal when it is not, and with
/// the line count when the input ends first.
pub fn read_vcf_header(lines: &Vec<String>) -> (r: Result<Vec<String>, VcfError>)
    ensures
        r is Ok <==> (first_non_meta(views_of(lines@)) != -1 && spec_header_line_ok(
            views_of(lines@)[first_non_meta(views_of(lines@))],
        )),
        r is Ok ==> views_of(r->Ok_0@) == spec_header_samples(
            views_of(lines@)[first_non_meta(views_of(lines@))],
        ),
        r is Err ==> ({
            let vs = views_of(lines@);
            &&& r->Err_0 matches VcfError::ParseFailure { line: m }
            &&& (first_non_meta(vs) == -1 ==> m == vs.len())
            &&& (first_non_meta(vs) != -1 ==> m == first_non_meta(vs) + 1 && !spec_header_line_ok(
                vs[first_non_meta(vs)],
            ))
        }),
{
    let ghost vs = views_of(lines@);
    let n = lines.len();
    let mut i: usize = 0;
    while i < n
        invariant
            vs == views_of(lines@),
            0 <= i <= n == lines@.len(),
            forall|j: int| 0 <= j < i ==> starts_with_meta(#[trigger] vs[j]),
        decreases n - i,
    {
        let line = lines[i].as_str();
        assert(line@ == vs[i as int]);
        let ln = line.unicode_len();
        let is_meta = ln >= 2 && line.get_char(0) == '#' && line.get_char(1) == '#';
        if !is_meta {
            proof {
                lemma_first_non_meta(vs);
                assert(first_non_meta(vs) == i as int);
            }
            return match parse_header_samples(line) {
                Ok(samples) => Ok(samples),
                Err(_) => Err(VcfError::ParseFailure { line: i + 1 }),
            };
        }
        i = i + 1;
    }
    proof {
        lemma_first_non_meta(vs);
        assert(first_non_meta(vs) == -1);
    }
    Err(VcfError::ParseFailure { line: n })
}

/// The sizing block of the binary container's fixed-size header.
pub struct HeaderSizing {
    pub sample_block_length: u32,
    pub header_length: u32,
    pub data_start_offset: u32,
    pub total_variant_count: u32,
    pub total_line_count: u32,
    pub sample_count: u32,
    pub compression_flag: bool,
    pub layout_id: u8,
}

/// The summed character length of the sample identifiers.
pub open spec fn spec_total_id_len(samples: Seq<Seq<char>>) -> int
    decreases samples.len(),
{
    if samples.len() == 0 {
        0
    } else {
        spec_total_id_len(samples.drop_last()) + samples.last().len()
    }
}

pub proof fn lemma_id_len_prefix_le(samples: Seq<Seq<char>>, k: int)
    requires
        0 <= k <= samples.len(),
    ensures
        spec_total_id_len(samples.take(k)) <= spec_total_id_len(samples),
    decreases samples.len() - k,
{
    if k < samples.len() {
        lemma_id_len_prefix_le(samples, k + 1);
        assert(samples.take(k + 1).drop_last() =~= samples.take(k));
        assert(samples.take(k + 1).last() == samples[k]);
    } else {
        assert(samples.take(k) =~= samples);
    }
}

/// All the container's size fields fit their 32-bit encoding.
pub open spec fn spec_sizing_fits(samples: Seq<Seq<char>>) -> bool {
    28 + 2 * samples.len() + spec_total_id_len(samples) <= u32::MAX
}

/// Computes the container's sizing block: the sample block takes 8 bytes
/// plus two per sample plus the summed identifier length, the fixed header
/// takes 20 bytes, and the data start offset is their sum. Fails when a
/// size would not fit its 32-bit field.
pub fn compute_header_sizing(samples: &Vec<String>, total_variant_count: u32, total_line_count: u32)
    -> (r: Result<HeaderSizing, VcfError>)
    ensures
        r is Ok <==> spec_sizing_fits(views_of(samples@)),
        r is Ok ==> ({
            let h = r->Ok_0;
            &&& h.sample_block_length == 8 + 2 * samples@.len() + spec_total_id_len(
                views_of(samples@),
            )
            &&& h.header_length == 20
            &&& h.data_start_offset == 20 + h.sample_block_length
            &&& h.total_variant_count == total_variant_count
            &&& h.total_line_count == total_line_count
            &&& h.sample_count == samples@.len()
            &&& h.compression_flag == true
            &&& h.layout_id == 2
        }),
        r is Err ==> r->Err_0 == (VcfError::ParseFailure { line: 0 }),
{
    let ghost vs = views_of(samples@);
    let n = samples.len();
    let mut total_len: u64 = 0;
    let mut i: usize = 0;
    while i < n
        invariant
            vs == views_of(samples@),
            0 <= i <= n == samples@.len(),
            total_len == spec_total_id_len(vs.take(i as int)),
            total_len <= u32::MAX,
        decreases n - i,
    {
        proof {
            assert(vs.take(i + 1).drop_last() =~= vs.take(i as int));
            assert(vs.take(i + 1).last() == vs[i as int]);
        }
        let sl = samples[i].as_str().unicode_len();
        if sl as u64 > u32::MAX as u64 - total_len {
            proof {
                lemma_id_len_prefix_le(vs, i + 1);
            }
            return Err(VcfError::ParseFailure { line: 0 });
        }
        total_len = total_len + sl as u64;
        i = i + 1;
    }
    proof {
        assert(vs.take(n as int) =~= vs);
    }
    if n as u64 > u32::MAX as u64 {
        return Err(VcfError::ParseFailure { line: 0 });
    }
    let block: u64 = 8 + 2 * (n as u64) + total_len;
    if block > u32::MAX as u64 - 20 {
        return Err(VcfError::ParseFailure { line: 0 });
    }
    let sizing = HeaderSizing {
        sample_block_length: block as u32,
        header_length: 20,
        data_start_offset: 20 + block as u32,
        total_variant_count,
        total_line_count,
        sample_count: n as u32,
        compression_flag: true,
        layout_id: 2,
    };
    Ok(sizing)
}

} // verus!
