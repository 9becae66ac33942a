use vcf_to_bgen::count_variants;
use vcf_to_bgen::VcfError;

fn header_lines() -> Vec<String> {
    vec![
        "##fileformat=VCFv4.2".to_string(),
        "#CHROM\tPOS\tID\tREF\tALT\tQUAL\tFILTER\tINFO\tFORMAT\tHG00096".to_string(),
    ]
}

fn data_line(alt: &str) -> String {
    format!("22\t16050075\trs587697622\tA\t{}\t100\tPASS\t.\tGT\t0/0", alt)
}

#[test]
fn count_100_variants() {
    let mut lines = header_lines();
    for _ in 0..100 {
        lines.push(data_line("G"));
    }
    let (num_variant, num_geno_line) = count_variants(&lines).unwrap();
    assert_eq!(num_geno_line, 100);
    assert_eq!(num_variant, 100);
}

#[test]
fn count_variants_with_multiallelic() {
    let mut lines = header_lines();
    lines.push(data_line("A,T"));
    let (num_variant, num_geno_line) = count_variants(&lines).unwrap();
    assert_eq!(num_geno_line, 1);
    assert_eq!(num_variant, 2);
}

#[test]
fn count_never_below_line_count() {
    let mut lines = header_lines();
    lines.push(data_line("G"));
    lines.push(data_line("A,C,T"));
    lines.push(data_line("C"));
    let (num_variant, num_geno_line) = count_variants(&lines).unwrap();
    assert_eq!(num_geno_line, 3);
    assert_eq!(num_variant, 5);
    assert!(num_variant >= num_geno_line);
}

#[test]
fn count_equality_without_commas() {
    let mut lines = header_lines();
    lines.push(data_line("G"));
    lines.push(data_line("C"));
    let (num_variant, num_geno_line) = count_variants(&lines).unwrap();
    assert_eq!(num_variant, num_geno_line);
}

#[test]
fn count_rejects_short_data_line() {
    let mut lines = header_lines();
    lines.push(data_line("G"));
    lines.push("22\t16050075\trs1\tA".to_string());
    let err = count_variants(&lines).unwrap_err();
    assert_eq!(err, VcfError::ParseFailure { line: 4 });
}
