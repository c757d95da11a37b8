use gifmp4::cli::CliCommand;
use gifmp4::converter::ConversionOptions;
use gifmp4::text::{decimal_string, signed_decimal_string, str_eq, to_ascii_lowercase};

#[test]
fn decimal_string_writes_shortest_decimals() {
    assert_eq!(decimal_string(0), "0");
    assert_eq!(decimal_string(7), "7");
    assert_eq!(decimal_string(10), "10");
    assert_eq!(decimal_string(640), "640");
    assert_eq!(decimal_string(u32::MAX), u32::MAX.to_string());
}

#[test]
fn ascii_lowercase_keeps_other_characters() {
    assert_eq!(to_ascii_lowercase("GIF"), "gif");
    assert_eq!(to_ascii_lowercase("Mp4"), "mp4");
    assert_eq!(to_ascii_lowercase("ÀÉ-Z[@"), "ÀÉ-z[@");
    assert_eq!(to_ascii_lowercase(""), "");
}

#[test]
fn str_eq_compares_characters() {
    assert!(str_eq("gif", "gif"));
    assert!(!str_eq("gif", "gifs"));
    assert!(!str_eq("gif", "GIF"));
    assert!(str_eq("", ""));
}

#[test]
fn commands_carry_their_conversion_options() {
    let convert = CliCommand::Convert {
        input_path: "input.mp4".to_string(),
        output_path: None,
        frames_per_second: 12,
        output_width: Some(640),
        constant_rate_factor: 18,
    };
    assert_eq!(
        convert.conversion_options(),
        Some(ConversionOptions { frames_per_second: 12, output_width: Some(640), constant_rate_factor: 18 })
    );
    let batch = CliCommand::Batch {
        pattern: "media/**/*.gif".to_string(),
        output_dir: Some("converted".to_string()),
        frames_per_second: 15,
        output_width: None,
        constant_rate_factor: 20,
    };
    assert_eq!(
        batch.conversion_options(),
        Some(ConversionOptions { frames_per_second: 15, output_width: None, constant_rate_factor: 20 })
    );
    assert_eq!(CliCommand::Doctor.conversion_options(), None);
}

#[test]
fn signed_decimal_string_matches_to_string() {
    for n in [0, 5, -5, 42, -100, i32::MAX, i32::MIN] {
        assert_eq!(signed_decimal_string(n), n.to_string());
    }
}
