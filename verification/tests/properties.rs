use vcf_to_bgen::alt_allele_count;
use vcf_to_bgen::compute_header_sizing;
use vcf_to_bgen::encode_genotype;
use vcf_to_bgen::format_id_with_alleles;
use vcf_to_bgen::genos_to_proba;
use vcf_to_bgen::parse_geno_line;
use vcf_to_bgen::parse_genotype_line;
use vcf_to_bgen::split_multiallelic;
use vcf_to_bgen::read_vcf_header;
use vcf_to_bgen::ConversionDriver;
use vcf_to_bgen::Phase;
use vcf_to_bgen::VcfError;

#[test]
fn encoded_arrays_scale_with_sample_count() {
    for n in [0usize, 1, 2, 7] {
        let genotypes: Vec<String> = (0..n).map(|_| "0/1".to_string()).collect();
        let (probas, ploidy) = parse_geno_line(&genotypes, 1, 8);
        assert_eq!(ploidy.len(), n);
        assert_eq!(probas.len(), 2 * n);
    }
}

#[test]
fn genotype_pairs_encode_exactly() {
    assert_eq!(encode_genotype("0/0", 1, 8), (2, 255, 0));
    assert_eq!(encode_genotype("0/1", 1, 8), (2, 0, 255));
    assert_eq!(encode_genotype("1/1", 1, 8), (2, 0, 0));
    assert_eq!(encode_genotype("./.", 1, 8), (130, 0, 0));
    assert_eq!(encode_genotype("0", 1, 8), (130, 0, 0));
    assert_eq!(encode_genotype("0|1", 1, 8), (2, 0, 255));
}

#[test]
fn probability_pairs_by_call_sum() {
    assert_eq!(genos_to_proba(&[0, 0], 8), vec![255, 0]);
    assert_eq!(genos_to_proba(&[0, 1], 8), vec![0, 255]);
    assert_eq!(genos_to_proba(&[1, 1], 8), vec![0, 0]);
    assert_eq!(genos_to_proba(&[0, 0], 16), vec![65535, 0]);
}

#[test]
fn splitting_two_alleles_gives_two_records() {
    let line = "1\t100\trs77:extra:junk\tC\tA,G\t.\t.\t.\tGT\t0/1\t0/0\t1/1";
    let record = parse_genotype_line(line, 3).unwrap();
    let encoded = split_multiallelic(&record, 8).unwrap();
    assert_eq!(encoded.len(), 2);
    assert_eq!(encoded[0].probabilities.len(), 6);
    assert_eq!(encoded[1].probabilities.len(), 6);
    assert_eq!(encoded[0].variant_id, "rs77:extra:C:A");
    assert_eq!(encoded[1].variant_id, "rs77:extra:C:G");
    assert_eq!(encoded[0].rsid, encoded[0].variant_id);
    assert_eq!(encoded[1].rsid, encoded[1].variant_id);
    // the identifiers differ only in their trailing allele token
    assert_eq!(&encoded[0].variant_id[..13], &encoded[1].variant_id[..13]);
    assert_eq!(encoded[0].chromosome, encoded[1].chromosome);
    assert_eq!(encoded[0].position, encoded[1].position);
    assert_eq!(encoded[0].reference_allele, encoded[1].reference_allele);
}

#[test]
fn round_trip_two_samples() {
    let lines = vec![
        "##fileformat=VCFv4.2".to_string(),
        "#CHROM\tPOS\tID\tREF\tALT\tQUAL\tFILTER\tINFO\tFORMAT\tS1\tS2".to_string(),
        "1\t100\trs1\tA\tT\t.\t.\t.\tGT:DP\t0/0:30\t0/1:20".to_string(),
    ];
    let samples = read_vcf_header(&lines).unwrap();
    assert_eq!(samples, vec!["S1", "S2"]);
    let record = parse_genotype_line(&lines[2], samples.len()).unwrap();
    let encoded = split_multiallelic(&record, 8).unwrap();
    assert_eq!(encoded.len(), 1);
    assert_eq!(encoded[0].probabilities, vec![255, 0, 0, 255]);
    assert_eq!(encoded[0].ploidy_missingness, vec![2, 2]);
}

#[test]
fn multiallelic_filter_per_split() {
    let line = "1\t100\trs9\tC\tA,T\t.\t.\t.\tGT\t0/1\t0/2";
    let record = parse_genotype_line(line, 2).unwrap();
    let encoded = split_multiallelic(&record, 8).unwrap();
    assert_eq!(encoded.len(), 2);
    // split 1 (vs A): sample 1 heterozygous, sample 2 has no valid call
    assert_eq!(encoded[0].probabilities, vec![0, 255, 0, 0]);
    assert_eq!(encoded[0].ploidy_missingness, vec![2, 130]);
    // split 2 (vs T): sample 1 has no valid call, sample 2 heterozygous
    assert_eq!(encoded[1].probabilities, vec![0, 0, 0, 255]);
    assert_eq!(encoded[1].ploidy_missingness, vec![130, 2]);
}

#[test]
fn sample_block_length_formula() {
    // ten samples of six characters each: 8 + 2 * 10 + 60 == 28 + 60
    let samples: Vec<String> = (0..10).map(|i| format!("HG{:04}", i)).collect();
    let sizing = compute_header_sizing(&samples, 5, 4).unwrap();
    assert_eq!(sizing.sample_block_length, 28 + 60);
    assert_eq!(sizing.header_length, 20);
    assert_eq!(sizing.data_start_offset, 20 + 28 + 60);
    assert_eq!(sizing.total_variant_count, 5);
    assert_eq!(sizing.total_line_count, 4);
    assert_eq!(sizing.sample_count, 10);
    assert!(sizing.compression_flag);
    assert_eq!(sizing.layout_id, 2);
}

#[test]
fn format_id_keeps_two_tokens() {
    assert_eq!(format_id_with_alleles("rs123:extra:junk", "A", "T"), "rs123:extra:A:T");
    assert_eq!(format_id_with_alleles("rs123", "A", "T"), "rs123:A:T");
    assert_eq!(format_id_with_alleles("22:16050075", "C", "G"), "22:16050075:C:G");
}

#[test]
fn alt_allele_count_per_line() {
    assert_eq!(alt_allele_count("1\t2\t3\tC\tA\tx\ty"), Ok(1));
    assert_eq!(alt_allele_count("1\t2\t3\tC\tA,G,T\tx\ty"), Ok(3));
    assert_eq!(
        alt_allele_count("too\tfew\tfields"),
        Err(VcfError::ParseFailure { line: 0 })
    );
}

#[test]
fn driver_walks_all_phases() {
    let lines = vec![
        "##fileformat=VCFv4.2".to_string(),
        "#CHROM\tPOS\tID\tREF\tALT\tQUAL\tFILTER\tINFO\tFORMAT\tS1\tS2".to_string(),
        "1\t100\trs1\tA\tT,G\t.\t.\t.\tGT\t0/1\t0/2".to_string(),
    ];
    let mut driver = ConversionDriver::new(8);
    assert_eq!(driver.phase(), Phase::Idle);
    driver.start_counting();
    assert_eq!(driver.phase(), Phase::CountingVariants);
    for line in &lines {
        driver.count_line(line).unwrap();
    }
    assert_eq!(driver.variant_total(), 2);
    assert_eq!(driver.line_total(), 1);
    driver.finish_counting();
    assert_eq!(driver.phase(), Phase::HeaderRead);
    assert!(!driver.header_line(&lines[0]).unwrap());
    assert!(driver.header_line(&lines[1]).unwrap());
    assert_eq!(driver.phase(), Phase::StreamingVariants);
    assert_eq!(driver.samples().len(), 2);
    let encoded = driver.stream_line(&lines[2]).unwrap();
    assert_eq!(encoded.len(), 2);
    assert_eq!(driver.phase(), Phase::Done);
}

#[test]
fn driver_fails_on_malformed_data_line() {
    let mut driver = ConversionDriver::new(8);
    driver.start_counting();
    driver.count_line("##meta").unwrap();
    let err = driver.count_line("short\tline").unwrap_err();
    assert_eq!(err, VcfError::ParseFailure { line: 2 });
    assert_eq!(driver.phase(), Phase::Failed);
    assert_eq!(driver.failure(), &Some(VcfError::ParseFailure { line: 2 }));
}

#[test]
fn driver_reports_stream_failure() {
    let mut driver = ConversionDriver::new(8);
    driver.start_counting();
    let e = driver.fail_io();
    assert_eq!(e, VcfError::IoFailure);
    assert_eq!(driver.phase(), Phase::Failed);
}

#[test]
fn position_must_be_numeric() {
    let line = "1\tnot_a_number\trs1\tA\tT\t.\t.\t.\tGT\t0/0";
    let err = parse_genotype_line(line, 1).unwrap_err();
    assert_eq!(err, VcfError::ParseFailure { line: 0 });
}
