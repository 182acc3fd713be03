use csv_sniff::download::DownloadProgress;
use csv_sniff::error::SniffError;
use csv_sniff::estimate::estimate_record_count;
use csv_sniff::sample::{
    effective_sample_rows, fraction_rows, remote_line_threshold, resolve_sample_spec, SampleMode,
    SampleSpec,
};
use csv_sniff::source::{classify_input, InputKind};
use csv_sniff::sniff::{DialectMetadata, FieldType, Metadata};
use csv_sniff::synth::{examined_records, synthesize};

fn make_spec(negative: bool, millionths: u64) -> SampleSpec {
    SampleSpec { negative, millionths }
}

#[test]
fn negative_sample_size_is_input_error() {
    let r = resolve_sample_spec(&make_spec(true, 500_000));
    assert!(matches!(r, Err(SniffError::Input)));
    let r = resolve_sample_spec(&make_spec(true, 0));
    assert!(matches!(r, Err(SniffError::Input)));
}

#[test]
fn sample_size_zero_resolves_to_all() {
    assert_eq!(resolve_sample_spec(&make_spec(false, 0)).unwrap(), SampleMode::All);
}

#[test]
fn sample_size_below_one_is_a_fraction() {
    assert_eq!(
        resolve_sample_spec(&make_spec(false, 250_000)).unwrap(),
        SampleMode::Fraction(250_000)
    );
}

#[test]
fn sample_size_at_least_one_rounds_to_rows() {
    assert_eq!(
        resolve_sample_spec(&make_spec(false, 1_000_000)).unwrap(),
        SampleMode::Rows(1)
    );
    assert_eq!(
        resolve_sample_spec(&make_spec(false, 2_500_000)).unwrap(),
        SampleMode::Rows(3)
    );
    assert_eq!(
        resolve_sample_spec(&make_spec(false, 1_000_000_000)).unwrap(),
        SampleMode::Rows(1000)
    );
}

#[test]
fn fraction_of_rows_rounds_to_nearest() {
    assert_eq!(fraction_rows(500_000, 10), 5);
    assert_eq!(fraction_rows(250_000, 1000), 250);
    assert_eq!(fraction_rows(333_333, 3), 1);
    assert_eq!(fraction_rows(999_999, 7), 7);
}

#[test]
fn effective_rows_apply_twenty_row_floor() {
    assert_eq!(effective_sample_rows(&SampleMode::All, 1000), None);
    assert_eq!(
        effective_sample_rows(&SampleMode::Fraction(100_000), 50),
        Some(20)
    );
    assert_eq!(
        effective_sample_rows(&SampleMode::Fraction(500_000), 1000),
        Some(500)
    );
    assert_eq!(effective_sample_rows(&SampleMode::Rows(5), 1000), Some(20));
    assert_eq!(effective_sample_rows(&SampleMode::Rows(1000), 10), Some(1000));
}

#[test]
fn line_threshold_follows_the_mode() {
    assert_eq!(remote_line_threshold(&SampleMode::All, Some(10_000)), None);
    assert_eq!(
        remote_line_threshold(&SampleMode::Rows(7), Some(10_000)),
        Some(7)
    );
    // (10_000 / 100) * 0.2 = 20 lines under the 100-bytes-per-line heuristic.
    assert_eq!(
        remote_line_threshold(&SampleMode::Fraction(200_000), Some(10_000)),
        Some(20)
    );
    assert_eq!(remote_line_threshold(&SampleMode::Fraction(200_000), None), None);
}

#[test]
fn download_progress_counts_lines_and_caps_bytes() {
    let mut p = DownloadProgress::new();
    p.ingest_chunk(b"ab\nc", Some(100));
    assert_eq!(p.bytes_received, 4);
    assert_eq!(p.lines_received, 1);
    p.ingest_chunk(b"d\ne\n", Some(100));
    assert_eq!(p.bytes_received, 8);
    assert_eq!(p.lines_received, 3);
    // The byte total never grows past a known total size.
    let mut q = DownloadProgress::new();
    q.ingest_chunk(b"123456", Some(4));
    assert_eq!(q.bytes_received, 4);
}

#[test]
fn download_stops_only_past_threshold() {
    let mut p = DownloadProgress::new();
    p.ingest_chunk(b"a\nb\n", Some(100));
    assert!(!p.should_stop(Some(2)));
    p.ingest_chunk(b"c\n", Some(100));
    assert!(p.should_stop(Some(2)));
    assert!(!p.should_stop(None));
}

#[test]
fn data_line_count_guards_the_header_discount() {
    let p = DownloadProgress::new();
    assert_eq!(p.data_line_count(), 0);
    let mut q = DownloadProgress::new();
    q.ingest_chunk(b"h\n1\n2\n", None);
    assert_eq!(q.data_line_count(), 2);
}

#[test]
fn exact_count_adjusts_for_header_and_preamble() {
    let e = estimate_record_count(Some(10), 0, 0, true, 2).unwrap();
    assert_eq!(e.record_count, 8);
    assert!(!e.estimated);
    let e = estimate_record_count(Some(10), 0, 0, false, 0).unwrap();
    assert_eq!(e.record_count, 11);
    assert!(!e.estimated);
}

#[test]
fn unknown_scan_estimates_from_average_length() {
    // 1000 bytes at 100 bytes per record, header present: 10 records.
    let e = estimate_record_count(None, 1000, 100, true, 0).unwrap();
    assert_eq!(e.record_count, 10);
    assert!(e.estimated);
    // Integer division: 1050 / 100 = 10.
    let e = estimate_record_count(None, 1050, 100, true, 0).unwrap();
    assert_eq!(e.record_count, 10);
    assert!(e.estimated);
}

#[test]
fn empty_scan_is_empty_dataset_error() {
    assert!(matches!(
        estimate_record_count(Some(0), 0, 0, true, 0),
        Err(SniffError::EmptyDataset)
    ));
}

#[test]
fn preamble_swallowing_all_rows_is_empty_dataset_error() {
    assert!(matches!(
        estimate_record_count(Some(2), 0, 0, true, 2),
        Err(SniffError::EmptyDataset)
    ));
}

#[test]
fn input_classification() {
    assert_eq!(classify_input(&None), InputKind::Stdin);
    assert_eq!(
        classify_input(&Some("https://example.com/data.csv".to_string())),
        InputKind::Url
    );
    assert_eq!(
        classify_input(&Some("data/example.csv".to_string())),
        InputKind::LocalPath
    );
    // Parses as a URL, but is not an http(s) scheme: treated as a path.
    assert_eq!(
        classify_input(&Some("ftp://example.com/data.csv".to_string())),
        InputKind::LocalPath
    );
}

#[test]
fn synthesis_clamps_and_falls_back() {
    let md = Metadata {
        dialect: DialectMetadata {
            delimiter: b',',
            quote: None,
            header_present: true,
            preamble_rows: 0,
            flexible: false,
            utf8_valid: true,
        },
        avg_record_len: 12,
        schema: Vec::new(),
    };
    let est = estimate_record_count(Some(5), 0, 0, true, 0).unwrap();
    // More rows examined than exist: the report is clamped to the count.
    let r = synthesize(
        "p".to_string(),
        "t".to_string(),
        md,
        60,
        None,
        est,
        100,
    );
    assert_eq!(r.sampled_records, 5);
    assert_eq!(r.record_count, 5);
    // No total size was reported, so the retrieved bytes stand in for it.
    assert_eq!(r.file_size, 60);
    assert_eq!(r.retrieved_size, 60);
    assert_eq!(r.avg_record_len, 12);
    assert_eq!(r.path, "p");
}

#[test]
fn error_rendering_schema() {
    assert_eq!(SniffError::Input.title(), "sniff error");
    assert_eq!(
        SniffError::Input.detail(),
        "Sample size must be greater than or equal to zero."
    );
    assert_eq!(SniffError::EmptyDataset.detail(), "Empty file");
    assert_eq!(SniffError::Io("boom".to_string()).detail(), "boom");
    assert_eq!(SniffError::Inference("stuck".to_string()).detail(), "stuck");
}

#[test]
fn field_type_labels() {
    assert_eq!(FieldType::Integer.type_label(), "Integer");
    assert_eq!(FieldType::Float.type_label(), "Float");
    assert_eq!(FieldType::Boolean.type_label(), "Boolean");
    assert_eq!(FieldType::Date.type_label(), "Date");
    assert_eq!(FieldType::DateTime.type_label(), "DateTime");
    assert_eq!(FieldType::Text.type_label(), "Text");
}

#[test]
fn examined_records_per_source() {
    // A remote prefix examines exactly the downloaded rows.
    assert_eq!(examined_records(&SampleMode::All, 0, Some(37), 1000), 37);
    // A whole-dataset direct scan examines every record.
    assert_eq!(examined_records(&SampleMode::All, 500, None, 480), 480);
    // A bounded direct scan examines the effective (floored) sample size.
    assert_eq!(
        examined_records(&SampleMode::Fraction(500_000), 100, None, 99),
        50
    );
}
