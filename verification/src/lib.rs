use vstd::prelude::*;

pub mod counter;
pub mod driver;
pub mod genotype;
pub mod header;
pub mod text;
pub mod variant;

pub use counter::alt_allele_count;
pub use counter::count_variants;
pub use driver::ConversionDriver;
pub use driver::Phase;
pub use genotype::encode_genotype;
pub use genotype::genos_to_proba;
pub use genotype::parse_geno_line;
pub use header::compute_header_sizing;
pub use header::parse_header_samples;
pub use header::read_vcf_header;
pub use header::HeaderSizing;
pub use variant::format_id_with_alleles;
pub use variant::parse_genotype_line;
pub use variant::parse_vcf_geno;
pub use variant::split_multiallelic;
pub use variant::EncodedVariant;
pub use variant::VariantRecord;

verus! {

/// The error type of the conversion: an input/output failure reported by the
/// caller's streams, or a malformed line, carrying the one-based ordinal of
/// the offending line so a caller can locate it.
#[derive(Debug, PartialEq, Eq)]
pub enum VcfError {
    IoFailure,
    ParseFailure { line: usize },
}

} // verus!
