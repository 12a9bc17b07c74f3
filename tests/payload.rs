use cfspeedtest::format::format_bytes;
use cfspeedtest::options::{parse_output_format, parse_payload_size, MaxPayloadArg, OutputFormat, OutputMode};
use cfspeedtest::payload::PayloadSize;
use cfspeedtest::results::SpeedTestConfig;

#[test]
fn test_payload_sizes_up_to() {
    let sizes = PayloadSize::sizes_up_to(PayloadSize::M10);
    assert_eq!(sizes, vec![PayloadSize::K100, PayloadSize::M1, PayloadSize::M10]);
}

#[test]
fn types_test_format_bytes() {
    assert_eq!(format_bytes(100_000), "100KB");
    assert_eq!(format_bytes(1_000_000), "1MB");
    assert_eq!(format_bytes(25_000_000), "25MB");
}

#[test]
fn measurements_test_format_bytes() {
    assert_eq!(format_bytes(500), "500 bytes");
    assert_eq!(format_bytes(1_000), "1KB");
    assert_eq!(format_bytes(100_000), "100KB");
    assert_eq!(format_bytes(999_999), "999KB");
    assert_eq!(format_bytes(1_000_000), "1MB");
    assert_eq!(format_bytes(25_000_000), "25MB");
    assert_eq!(format_bytes(100_000_000), "100MB");
    assert_eq!(format_bytes(999_999_999), "999MB");
    assert_eq!(format_bytes(1_000_000_000), "1000000000 bytes");
}

#[test]
fn format_bytes_zero() {
    assert_eq!(format_bytes(0), "0 bytes");
}

#[test]
fn test_output_format_from_valid_inputs() {
    assert_eq!(OutputFormat::from("csv".to_string()), Ok(OutputFormat::Csv));
    assert_eq!(OutputFormat::from("CSV".to_string()), Ok(OutputFormat::Csv));
    assert_eq!(OutputFormat::from("json".to_string()), Ok(OutputFormat::Json));
    assert_eq!(OutputFormat::from("JSON".to_string()), Ok(OutputFormat::Json));
    assert_eq!(OutputFormat::from("json-pretty".to_string()), Ok(OutputFormat::JsonPretty));
    assert_eq!(OutputFormat::from("json_pretty".to_string()), Ok(OutputFormat::JsonPretty));
    assert_eq!(OutputFormat::from("JSON-PRETTY".to_string()), Ok(OutputFormat::JsonPretty));
    assert_eq!(OutputFormat::from("stdout".to_string()), Ok(OutputFormat::StdOut));
    assert_eq!(OutputFormat::from("STDOUT".to_string()), Ok(OutputFormat::StdOut));
}

#[test]
fn test_output_format_from_invalid_inputs() {
    assert!(OutputFormat::from("invalid".to_string()).is_err());
    assert!(OutputFormat::from("xml".to_string()).is_err());
    assert!(OutputFormat::from("".to_string()).is_err());
    assert!(OutputFormat::from("json_invalid".to_string()).is_err());

    let error_msg = OutputFormat::from("invalid".to_string()).unwrap_err();
    assert_eq!(error_msg, "Value needs to be one of csv, json or json-pretty");
}

#[test]
fn test_output_format_display() {
    assert_eq!(OutputFormat::Csv.to_string(), "Csv");
    assert_eq!(OutputFormat::Json.to_string(), "Json");
    assert_eq!(OutputFormat::JsonPretty.to_string(), "JsonPretty");
    assert_eq!(OutputFormat::StdOut.to_string(), "StdOut");
    assert_eq!(OutputFormat::Silent.to_string(), "None");
}

#[test]
fn output_format_lowercase_form() {
    assert_eq!(OutputFormat::from_lowercase("json"), Ok(OutputFormat::Json));
    assert!(OutputFormat::from_lowercase("JSON").is_err());
    assert_eq!(parse_output_format("Csv"), Ok(OutputFormat::Csv));
}

#[test]
fn test_payload_size_from_valid_inputs() {
    for (s, p) in [
        ("100k", PayloadSize::K100),
        ("100K", PayloadSize::K100),
        ("100kb", PayloadSize::K100),
        ("100KB", PayloadSize::K100),
        ("100000", PayloadSize::K100),
        ("100_000", PayloadSize::K100),
        ("1m", PayloadSize::M1),
        ("1M", PayloadSize::M1),
        ("1mb", PayloadSize::M1),
        ("1MB", PayloadSize::M1),
        ("1000000", PayloadSize::M1),
        ("1_000_000", PayloadSize::M1),
        ("10m", PayloadSize::M10),
        ("10M", PayloadSize::M10),
        ("10mb", PayloadSize::M10),
        ("10MB", PayloadSize::M10),
        ("10000000", PayloadSize::M10),
        ("10_000_000", PayloadSize::M10),
        ("25m", PayloadSize::M25),
        ("25M", PayloadSize::M25),
        ("25mb", PayloadSize::M25),
        ("25MB", PayloadSize::M25),
        ("25000000", PayloadSize::M25),
        ("25_000_000", PayloadSize::M25),
        ("100m", PayloadSize::M100),
        ("100M", PayloadSize::M100),
        ("100mb", PayloadSize::M100),
        ("100MB", PayloadSize::M100),
        ("100000000", PayloadSize::M100),
        ("100_000_000", PayloadSize::M100),
    ] {
        assert_eq!(PayloadSize::from(s.to_string()), Ok(p));
    }
}

#[test]
fn test_payload_size_from_invalid_inputs() {
    assert!(PayloadSize::from("invalid".to_string()).is_err());
    assert!(PayloadSize::from("50m".to_string()).is_err());
    assert!(PayloadSize::from("200k".to_string()).is_err());
    assert!(PayloadSize::from("".to_string()).is_err());
    assert!(PayloadSize::from("1g".to_string()).is_err());

    let error_msg = PayloadSize::from("invalid".to_string()).unwrap_err();
    assert_eq!(error_msg, "Value needs to be one of 100k, 1m, 10m, 25m or 100m");
}

#[test]
fn payload_size_parse_helpers() {
    assert_eq!(parse_payload_size("25M"), Ok(PayloadSize::M25));
    assert_eq!(PayloadSize::from_lowercase("1mb"), Ok(PayloadSize::M1));
    assert!(PayloadSize::from_lowercase("1MB").is_err());
}

#[test]
fn test_payload_size_values() {
    assert_eq!(PayloadSize::K100.bytes(), 100_000);
    assert_eq!(PayloadSize::M1.bytes(), 1_000_000);
    assert_eq!(PayloadSize::M10.bytes(), 10_000_000);
    assert_eq!(PayloadSize::M25.bytes(), 25_000_000);
    assert_eq!(PayloadSize::M100.bytes(), 100_000_000);
}

#[test]
fn test_payload_size_sizes_from_max() {
    assert_eq!(PayloadSize::sizes_from_max(PayloadSize::K100), vec![100_000]);
    assert_eq!(PayloadSize::sizes_from_max(PayloadSize::M1), vec![100_000, 1_000_000]);
    assert_eq!(
        PayloadSize::sizes_from_max(PayloadSize::M10),
        vec![100_000, 1_000_000, 10_000_000]
    );
    assert_eq!(
        PayloadSize::sizes_from_max(PayloadSize::M25),
        vec![100_000, 1_000_000, 10_000_000, 25_000_000]
    );
    assert_eq!(
        PayloadSize::sizes_from_max(PayloadSize::M100),
        vec![100_000, 1_000_000, 10_000_000, 25_000_000, 100_000_000]
    );
}

#[test]
fn test_payload_size_display() {
    let size = PayloadSize::K100;
    let display_str = size.to_string();
    assert!(!display_str.is_empty());
    assert_eq!(display_str, "100KB");
    assert_eq!(PayloadSize::M25.to_string(), "25MB");
}

#[test]
fn output_mode_and_config_from_flags() {
    assert_eq!(OutputMode::from_flags(false, false, false, false), OutputMode::Tui);
    assert_eq!(OutputMode::from_flags(true, true, false, false), OutputMode::Simple);
    assert_eq!(OutputMode::from_flags(false, false, true, true), OutputMode::JsonPretty);
    let c = SpeedTestConfig::from_options(5, 7, PayloadSize::M1, true, true, false);
    assert!(c.download && !c.upload);
    let p: PayloadSize = MaxPayloadArg::M10.into();
    assert_eq!(p, PayloadSize::M10);
}
