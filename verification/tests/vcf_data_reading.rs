use vcf_to_bgen::parse_genotype_line;
use vcf_to_bgen::read_vcf_header;
use vcf_to_bgen::split_multiallelic;
use vcf_to_bgen::VcfError;

const COLUMNS: &str = "#CHROM\tPOS\tID\tREF\tALT\tQUAL\tFILTER\tINFO\tFORMAT";

fn header_with_samples(samples: &[&str]) -> Vec<String> {
    let mut column_line = String::from(COLUMNS);
    for s in samples {
        column_line.push('\t');
        column_line.push_str(s);
    }
    vec!["##fileformat=VCFv4.2".to_string(), "##source=test".to_string(), column_line]
}

fn line_with_genotypes(alt: &str, format: &str, genotypes: &[&str]) -> String {
    let mut line = format!("22\t16050075\trs587697622\tT\t{}\t100\tPASS\t.\t{}", alt, format);
    for g in genotypes {
        line.push('\t');
        line.push_str(g);
    }
    line
}

#[test]
fn read_samples() {
    let lines = header_with_samples(
        &[
            "HG00096", "HG00097", "HG00099", "HG00100", "HG00101", "HG00102", "HG00103", "HG00104",
            "HG00105", "HG001",
        ],
    );
    let samples = read_vcf_header(&lines).unwrap();
    assert_eq!(
        samples,
        [
            "HG00096", "HG00097", "HG00099", "HG00100", "HG00101", "HG00102", "HG00103", "HG00104",
            "HG00105", "HG001"
        ]
        .to_vec()
    );
}

#[test]
fn read_samples_requires_column_line() {
    let lines = vec!["##only".to_string(), "##meta".to_string()];
    let err = read_vcf_header(&lines).unwrap_err();
    assert_eq!(err, VcfError::ParseFailure { line: 2 });
}

#[test]
fn read_samples_rejects_unmarked_line() {
    let lines = vec![
        "##meta".to_string(),
        "22\t16050075\trs1\tT\tA\t100\tPASS\t.\tGT\t0/0".to_string(),
    ];
    let err = read_vcf_header(&lines).unwrap_err();
    assert_eq!(err, VcfError::ParseFailure { line: 2 });
}

#[test]
fn read_one_line() {
    let number_individuals: usize = 2504;
    let genotypes: Vec<String> = (0..number_individuals).map(|_| "0/0:30".to_string()).collect();
    let geno_refs: Vec<&str> = genotypes.iter().map(|s| s.as_str()).collect();
    let line = line_with_genotypes("A", "GT:DP", &geno_refs);
    let num_bits = 16;
    let variant_data = parse_genotype_line(&line, number_individuals).unwrap();
    let vec_variant_data = split_multiallelic(&variant_data, num_bits).unwrap();
    assert_eq!(
        vec_variant_data[0].probabilities[0..10],
        [65535, 0, 65535, 0, 65535, 0, 65535, 0, 65535, 0].to_vec()
    );
}

#[test]
fn read_one_line_2_field_format() {
    let genotypes = ["0/0:30"; 10];
    let line = line_with_genotypes("A", "GT:DP", &genotypes);
    let num_bits = 8;
    let variant_data = parse_genotype_line(&line, 10).unwrap();
    let vec_variant_data = split_multiallelic(&variant_data, num_bits).unwrap();
    assert_eq!(
        vec_variant_data[0].probabilities[0..10],
        [255, 0, 255, 0, 255, 0, 255, 0, 255, 0].to_vec()
    );
}

#[test]
fn read_one_line_complicated_format() {
    let genotypes = ["12:0.5:0/0:99"; 10];
    let line = line_with_genotypes("A", "DP:AF:GT:GQ", &genotypes);
    let num_bits = 8;
    let variant_data = parse_genotype_line(&line, 10).unwrap();
    let vec_variant_data = split_multiallelic(&variant_data, num_bits).unwrap();
    assert_eq!(
        vec_variant_data[0].probabilities[0..10],
        [255, 0, 255, 0, 255, 0, 255, 0, 255, 0].to_vec()
    );
}

#[test]
fn read_one_line_missing_values() {
    // Samples 0, 2 and 3 have no full diploid call: each is flagged missing
    // (ploidy byte 130) and carries the all-zero probability pair.
    let genotypes = ["./.", "0/0", "./0", "0/.", "0/0", "0/0", "0/0", "0/0", "0/0", "0/0"];
    let line = line_with_genotypes("A", "GT", &genotypes);
    let variant_data = parse_genotype_line(&line, 10).unwrap();
    let vec_variant_data = split_multiallelic(&variant_data, 8).unwrap();
    assert_eq!(
        vec_variant_data[0].ploidy_missingness,
        [130, 2, 130, 130, 2, 2, 2, 2, 2, 2].to_vec()
    );
    assert_eq!(
        vec_variant_data[0].probabilities,
        vec![0, 0, 255, 0, 0, 0, 0, 0, 255, 0, 255, 0, 255, 0, 255, 0, 255, 0, 255, 0]
    );
}

#[test]
fn read_one_line_multiallelic() {
    // Each split keeps only the calls naming its own alternate allele: a
    // sample whose call names the other allele is missing in this split.
    let genotypes = ["0/0", "0/1", "0/2", "1/2", "0/0", "0/0", "0/0", "0/0", "0/0", "0/0"];
    let line = line_with_genotypes("A,T", "GT", &genotypes);
    let variant_data = parse_genotype_line(&line, 10).unwrap();
    let vec_variant_data = split_multiallelic(&variant_data, 8).unwrap();
    assert_eq!(vec_variant_data.len(), 2);
    assert_eq!(
        vec_variant_data[0].ploidy_missingness,
        [2, 2, 130, 130, 2, 2, 2, 2, 2, 2].to_vec()
    );
    assert_eq!(
        vec_variant_data[0].probabilities,
        vec![255, 0, 0, 255, 0, 0, 0, 0, 255, 0, 255, 0, 255, 0, 255, 0, 255, 0, 255, 0]
    );
    assert_eq!(
        vec_variant_data[1].ploidy_missingness,
        [2, 130, 2, 130, 2, 2, 2, 2, 2, 2].to_vec()
    );
    assert_eq!(
        vec_variant_data[1].probabilities,
        vec![255, 0, 0, 0, 0, 255, 0, 0, 255, 0, 255, 0, 255, 0, 255, 0, 255, 0, 255, 0]
    );
    assert_eq!(vec_variant_data[0].alternate_allele, "A");
    assert_eq!(vec_variant_data[1].alternate_allele, "T");
}

#[test]
fn read_one_line_needs_genotype_token() {
    let genotypes = ["30"; 10];
    let line = line_with_genotypes("A", "DP", &genotypes);
    let err = parse_genotype_line(&line, 10).unwrap_err();
    assert_eq!(err, VcfError::ParseFailure { line: 0 });
}

#[test]
fn read_one_line_needs_all_samples() {
    let genotypes = ["0/0"; 9];
    let line = line_with_genotypes("A", "GT", &genotypes);
    let err = parse_genotype_line(&line, 10).unwrap_err();
    assert_eq!(err, VcfError::ParseFailure { line: 0 });
}
