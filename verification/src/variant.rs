//! One variant-call record: parsing a data line into its fields and raw
//! per-sample genotype calls, expanding a multiallelic record into one
//! encoded record per alternate allele, and forming the derived record
//! identifiers.
use vstd::prelude::*;

verus! {

use vstd::string::StrSliceExecFns;
use vstd::string::StringExecFns;
use crate::VcfError;
use crate::counter::line_fields;
use crate::genotype::{
    parse_geno_line,
    spec_ploidy_byte,
    spec_proba_pair,
};
use crate::text::{
    all_digits,
    count_char,
    first_index_of,
    lemma_first_index_of,
    lemma_split_len,
    parse_u32,
    spec_decimal,
    spec_split,
    split_str,
    str_eq,
    views_of,
};

/// One parsed data line: the named fields, the alternate-allele field kept
/// raw (possibly comma-separated), and one raw two-character genotype call
/// per sample.
#[derive(Debug)]
pub struct VariantRecord {
    pub chromosome: String,
    pub position: u32,
    pub id: String,
    pub reference_allele: String,
    pub alt_raw: String,
    pub genotypes: Vec<String>,
}

/// One biallelic record ready for the binary writer: identifiers, a single
/// alternate allele, and the encoded ploidy/missingness and probability
/// arrays.
#[derive(Debug)]
pub struct EncodedVariant {
    pub variant_id: String,
    pub rsid: String,
    pub chromosome: String,
    pub position: u32,
    pub reference_allele: String,
    pub alternate_allele: String,
    pub ploidy_missingness: Vec<u8>,
    pub probabilities: Vec<u32>,
    pub num_bits: u8,
}

/// Joining parts with a separator character.
pub open spec fn spec_join(parts: Seq<Seq<char>>, sep: char) -> Seq<char>
    decreases parts.len(),
{
    if parts.len() == 0 {
        Seq::empty()
    } else if parts.len() == 1 {
        parts[0]
    } else {
        spec_join(parts.drop_last(), sep) + seq![sep] + parts.last()
    }
}

/// The derived record identifier: the first two colon-separated tokens of
/// the raw id (fewer if there are fewer), then the two alleles, all joined
/// with colons.
pub open spec fn spec_format_id(id: Seq<char>, a1: Seq<char>, a2: Seq<char>) -> Seq<char> {
    let toks = spec_split(id, ':');
    let kept = if toks.len() < 2 {
        toks
    } else {
        toks.take(2)
    };
    spec_join(kept + seq![a1, a2], ':')
}

/// Identifiers formed for two alternate alleles of one record share their
/// whole text up to the trailing allele token.
pub proof fn lemma_format_id_trailing_allele(
    id: Seq<char>,
    a1: Seq<char>,
    x: Seq<char>,
    y: Seq<char>,
) -> (c: Seq<char>)
    ensures
        spec_format_id(id, a1, x) == c + seq![':'] + x,
        spec_format_id(id, a1, y) == c + seq![':'] + y,
{
    let toks = spec_split(id, ':');
    lemma_split_len(id, ':');
    let kept = if toks.len() < 2 {
        toks
    } else {
        toks.take(2)
    };
    let base = kept + seq![a1];
    assert(kept + seq![a1, x] =~= base.push(x));
    assert(kept + seq![a1, y] =~= base.push(y));
    assert(base.push(x).drop_last() =~= base);
    assert(base.push(y).drop_last() =~= base);
    spec_join(base, ':')
}

/// Joins the given parts with colons.
fn join_colon(parts: &Vec<String>) -> (r: String)
    ensures
        r@ == spec_join(views_of(parts@), ':'),
{
    proof {
        reveal_strlit(":");
        assert(":"@ =~= seq![':']);
    }
    let ghost vs = views_of(parts@);
    let mut r = String::new();
    let n = parts.len();
    let mut i: usize = 0;
    while i < n
        invariant
            vs == views_of(parts@),
            0 <= i <= n == parts@.len(),
            r@ == spec_join(vs.take(i as int), ':'),
            ":"@ == seq![':'],
        decreases n - i,
    {
        proof {
            assert(vs.take(i + 1).drop_last() =~= vs.take(i as int));
            assert(vs.take(i + 1).last() == vs[i as int]);
        }
        if i > 0 {
            r.append(":");
        }
        r.append(parts[i].as_str());
        proof {
            if i == 0 {
                assert(vs.take(1).len() == 1);
                assert(r@ =~= spec_join(vs.take(1), ':'));
            }
        }
        i = i + 1;
    }
    proof {
        assert(vs.take(n as int) =~= vs);
    }
    r
}

/// Forms the derived record identifier from the raw id and the two
/// alleles.
pub fn format_id_with_alleles(id: &str, a1: &str, a2: &str) -> (r: String)
    ensures
        r@ == spec_format_id(id@, a1@, a2@),
{
    let toks = split_str(id, ':');
    let mut parts: Vec<String> = Vec::new();
    parts.push(toks[0].clone());
    if toks.len() >= 2 {
        parts.push(toks[1].clone());
    }
    parts.push(a1.to_owned());
    parts.push(a2.to_owned());
    proof {
        let tvs = spec_split(id@, ':');
        let kept = if tvs.len() < 2 {
            tvs
        } else {
            tvs.take(2)
        };
        assert(views_of(parts@) =~= kept + seq![a1@, a2@]);
    }
    join_colon(&parts)
}

/// The zero-based position of the genotype token "GT" in the
/// colon-separated FORMAT field, or -1 when it is absent.
pub open spec fn spec_gt_index(fmt: Seq<char>) -> int {
    first_index_of(spec_split(fmt, ':'), seq!['G', 'T'])
}

/// The raw two-character genotype call of one sample field: the characters
/// at offsets 0 and 2 of the colon-separated subfield at the genotype
/// position (offset 1 holds the phasing separator). A call the subfield is
/// too short to hold is replaced by the missing marker `.`.
pub open spec fn spec_geno_token(field: Seq<char>, gt: int) -> Seq<char> {
    let g = spec_split(field, ':')[gt];
    let left = if g.len() >= 1 {
        g[0]
    } else {
        '.'
    };
    let right = if g.len() >= 3 {
        g[2]
    } else {
        '.'
    };
    seq![left, right]
}

/// A data line the parser accepts for the given sample count: exactly nine
/// fixed fields plus one per sample, a position that reads as a `u32`, a
/// FORMAT field naming "GT", and a genotype subfield present for every
/// sample.
pub open spec fn spec_line_ok(line: Seq<char>, sample_count: int) -> bool {
    let f = line_fields(line);
    &&& f.len() == 9 + sample_count
    &&& f[1].len() > 0
    &&& all_digits(f[1])
    &&& spec_decimal(f[1]) <= u32::MAX
    &&& spec_gt_index(f[8]) >= 0
    &&& forall|k: int|
        0 <= k < sample_count ==> spec_split(#[trigger] f[9 + k], ':').len() > spec_gt_index(f[8])
}

/// Parses one data line against the given sample count. The record keeps
/// the raw id and the raw (possibly comma-separated) alternate-allele
/// field; its genotypes are the per-sample raw two-character calls. The
/// failure carries no line ordinal of its own; the caller knows the line's
/// position.
pub fn parse_genotype_line(input: &str, sample_count: usize) -> (r: Result<VariantRecord, VcfError>)
    ensures
        r is Ok <==> spec_line_ok(input@, sample_count as int),
        r is Ok ==> ({
            let f = line_fields(input@);
            let rec = r->Ok_0;
            &&& rec.chromosome@ == f[0]
            &&& rec.position == spec_decimal(f[1])
            &&& rec.id@ == f[2]
            &&& rec.reference_allele@ == f[3]
            &&& rec.alt_raw@ == f[4]
            &&& rec.genotypes@.len() == sample_count
            &&& forall|i: int|
                0 <= i < sample_count ==> #[trigger] rec.genotypes@[i]@ == spec_geno_token(
                    f[9 + i],
                    spec_gt_index(f[8]),
                )
        }),
        r is Err ==> r->Err_0 == (VcfError::ParseFailure { line: 0 }),
{
    let ghost f = line_fields(input@);
    let fields = split_str(input, '\t');
    if fields.len() < 9 || fields.len() - 9 != sample_count {
        return Err(VcfError::ParseFailure { line: 0 });
    }
    let position = match parse_u32(fields[1].as_str()) {
        Some(p) => p,
        None => {
            return Err(VcfError::ParseFailure { line: 0 });
        },
    };
    proof {
        reveal_strlit("GT");
        assert("GT"@ =~= seq!['G', 'T']);
    }
    let fmt_subs = split_str(fields[8].as_str(), ':');
    let ghost fmt_vs = spec_split(f[8], ':');
    let mut gt: usize = 0;
    let mut found = false;
    while gt < fmt_subs.len() && !found
        invariant
            fmt_vs == spec_split(f[8], ':'),
            views_of(fmt_subs@) == fmt_vs,
            0 <= gt <= fmt_subs@.len(),
            "GT"@ == seq!['G', 'T'],
            forall|j: int| 0 <= j < gt ==> fmt_vs[j] != seq!['G', 'T'],
            found ==> (gt < fmt_vs.len() && fmt_vs[gt as int] == seq!['G', 'T']),
        decreases fmt_subs@.len() - gt + (if found {
            0int
        } else {
            1int
        }),
    {
        if str_eq(fmt_subs[gt].as_str(), "GT") {
            found = true;
        } else {
            gt = gt + 1;
        }
    }
    proof {
        lemma_first_index_of(fmt_vs, seq!['G', 'T']);
        if found {
            assert(spec_gt_index(f[8]) == gt as int);
        } else {
            assert(spec_gt_index(f[8]) == -1);
        }
    }
    if !found {
        return Err(VcfError::ParseFailure { line: 0 });
    }
    proof {
        reveal_strlit(".");
        assert("."@ =~= seq!['.']);
    }
    let mut genotypes: Vec<String> = Vec::new();
    let mut i: usize = 0;
    while i < sample_count
        invariant
            f == line_fields(input@),
            views_of(fields@) == f,
            fields@.len() == f.len(),
            9 + sample_count == fields@.len(),
            9 + sample_count <= usize::MAX,
            0 <= i <= sample_count,
            0 <= gt < spec_split(f[8], ':').len(),
            spec_gt_index(f[8]) == gt as int,
            "."@ == seq!['.'],
            genotypes@.len() == i,
            forall|k: int|
                0 <= k < i ==> spec_split(#[trigger] f[9 + k], ':').len() > gt as int,
            forall|k: int|
                0 <= k < i ==> #[trigger] genotypes@[k]@ == spec_geno_token(f[9 + k], gt as int),
        decreases sample_count - i,
    {
        assert(fields@[9 + i as int]@ == f[9 + i as int]);
        let subs = split_str(fields[9 + i].as_str(), ':');
        if subs.len() <= gt {
            proof {
                assert(spec_split(f[9 + i as int], ':').len() <= spec_gt_index(f[8]));
                assert(!spec_line_ok(input@, sample_count as int));
            }
            return Err(VcfError::ParseFailure { line: 0 });
        }
        let g = subs[gt].as_str();
        let ghost gv = spec_split(f[9 + i as int], ':')[gt as int];
        assert(g@ == gv);
        let gl = g.unicode_len();
        let left: &str = if gl >= 1 {
            g.substring_char(0, 1)
        } else {
            "."
        };
        let right: &str = if gl >= 3 {
            g.substring_char(2, 3)
        } else {
            "."
        };
        let mut token = left.to_owned();
        token.append(right);
        proof {
            assert(token@ =~= spec_geno_token(f[9 + i as int], gt as int));
        }
        genotypes.push(token);
        i = i + 1;
    }
    let record = VariantRecord {
        chromosome: fields[0].clone(),
        position,
        id: fields[2].clone(),
        reference_allele: fields[3].clone(),
        alt_raw: fields[4].clone(),
        genotypes,
    };
    Ok(record)
}

/// What one encoded record must hold for a source record, one alternate
/// allele and its one-based number, and a bit width: the identifier comes
/// from Format-ID over the record's raw id, the descriptive fields carry
/// over, and for every sample the ploidy byte and the probability pair are
/// the encoder's.
pub open spec fn spec_encodes(
    rec: VariantRecord,
    alt: Seq<char>,
    alt_num: int,
    num_bits: u8,
    e: EncodedVariant,
) -> bool {
    &&& e.variant_id@ == spec_format_id(rec.id@, rec.reference_allele@, alt)
    &&& e.rsid@ == e.variant_id@
    &&& e.chromosome@ == rec.chromosome@
    &&& e.position == rec.position
    &&& e.reference_allele@ == rec.reference_allele@
    &&& e.alternate_allele@ == alt
    &&& e.num_bits == num_bits
    &&& e.ploidy_missingness@.len() == rec.genotypes@.len()
    &&& e.probabilities@.len() == 2 * rec.genotypes@.len()
    &&& forall|i: int|
        0 <= i < rec.genotypes@.len() ==> {
            &&& #[trigger] e.ploidy_missingness@[i] == spec_ploidy_byte(
                rec.genotypes@[i]@,
                alt_num,
            )
            &&& e.probabilities@[2 * i] == spec_proba_pair(rec.genotypes@[i]@, alt_num, num_bits).0
            &&& e.probabilities@[2 * i + 1] == spec_proba_pair(
                rec.genotypes@[i]@,
                alt_num,
                num_bits,
            ).1
        }
}

/// What the `i`-th encoded record of a parsed-and-split data line must
/// hold, stated over the line's fields alone: `spec_encodes` composed with
/// the line parser's reading of the record.
pub open spec fn spec_line_encodes(
    line: Seq<char>,
    sample_count: int,
    num_bits: u8,
    i: int,
    e: EncodedVariant,
) -> bool {
    let f = line_fields(line);
    let alts = spec_split(f[4], ',');
    let gt = spec_gt_index(f[8]);
    &&& e.variant_id@ == spec_format_id(f[2], f[3], alts[i])
    &&& e.rsid@ == e.variant_id@
    &&& e.chromosome@ == f[0]
    &&& e.position == spec_decimal(f[1])
    &&& e.reference_allele@ == f[3]
    &&& e.alternate_allele@ == alts[i]
    &&& e.num_bits == num_bits
    &&& e.ploidy_missingness@.len() == sample_count
    &&& e.probabilities@.len() == 2 * sample_count
    &&& forall|k: int|
        0 <= k < sample_count ==> {
            &&& #[trigger] e.ploidy_missingness@[k] == spec_ploidy_byte(
                spec_geno_token(f[9 + k], gt),
                i + 1,
            )
            &&& e.probabilities@[2 * k] == spec_proba_pair(
                spec_geno_token(f[9 + k], gt),
                i + 1,
                num_bits,
            ).0
            &&& e.probabilities@[2 * k + 1] == spec_proba_pair(
                spec_geno_token(f[9 + k], gt),
                i + 1,
                num_bits,
            ).1
        }
}

/// Encodes one record against one alternate allele: derives the identifier
/// pair, keeps the descriptive fields, and encodes every sample's call.
pub fn parse_vcf_geno(
    record: &VariantRecord,
    alt_allele: &str,
    alt_allele_num: usize,
    num_bits: u8,
) -> (r: EncodedVariant)
    requires
        num_bits < 32,
    ensures
        spec_encodes(*record, alt_allele@, alt_allele_num as int, num_bits, r),
{
    let variant_id = format_id_with_alleles(
        record.id.as_str(),
        record.reference_allele.as_str(),
        alt_allele,
    );
    let rsid = variant_id.clone();
    let (probabilities, ploidy_missingness) = parse_geno_line(
        &record.genotypes,
        alt_allele_num,
        num_bits,
    );
    EncodedVariant {
        variant_id,
        rsid,
        chromosome: record.chromosome.clone(),
        position: record.position,
        reference_allele: record.reference_allele.clone(),
        alternate_allele: String::from_str(alt_allele),
        ploidy_missingness,
        probabilities,
        num_bits,
    }
}

/// Expands one record into one encoded record per comma-separated
/// alternate allele, in order; the allele at (zero-based) position `i` is
/// encoded as (one-based) alternate allele number `i + 1`. A single-allele
/// record goes through the same path with a list of one.
pub fn split_multiallelic(record: &VariantRecord, num_bits: u8) -> (r: Result<
    Vec<EncodedVariant>,
    VcfError,
>)
    requires
        num_bits < 32,
    ensures
        r is Ok,
        r->Ok_0@.len() == count_char(record.alt_raw@, ',') + 1,
        forall|i: int|
            0 <= i < r->Ok_0@.len() ==> spec_encodes(
                *record,
                spec_split(record.alt_raw@, ',')[i],
                i + 1,
                num_bits,
                #[trigger] r->Ok_0@[i],
            ),
{
    let alts = split_str(record.alt_raw.as_str(), ',');
    let mut out: Vec<EncodedVariant> = Vec::new();
    let n = alts.len();
    let mut i: usize = 0;
    while i < n
        invariant
            num_bits < 32,
            views_of(alts@) == spec_split(record.alt_raw@, ','),
            0 <= i <= n == alts@.len(),
            out@.len() == i,
            forall|k: int|
                0 <= k < i ==> spec_encodes(
                    *record,
                    spec_split(record.alt_raw@, ',')[k],
                    k + 1,
                    num_bits,
                    #[trigger] out@[k],
                ),
        decreases n - i,
    {
        let encoded = parse_vcf_geno(record, alts[i].as_str(), i + 1, num_bits);
        out.push(encoded);
        i = i + 1;
    }
    Ok(out)
}

} // verus!
