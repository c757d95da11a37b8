use gifmp4::media::{
    detect_conversion_direction, direction_for_extensions, normalize_path, ConversionDirection, MediaError,
};

#[test]
fn detects_gif_to_mp4_from_explicit_extensions() {
    let direction = detect_conversion_direction("animation.gif", Some("video.mp4")).unwrap();

    assert_eq!(direction, ConversionDirection::GifToMp4);
}

#[test]
fn detects_mp4_to_gif_from_explicit_extensions() {
    let direction = detect_conversion_direction("video.mp4", Some("animation.gif")).unwrap();

    assert_eq!(direction, ConversionDirection::Mp4ToGif);
}

#[test]
fn infers_output_format_when_output_path_is_omitted() {
    assert_eq!(
        detect_conversion_direction("animation.gif", None).unwrap(),
        ConversionDirection::GifToMp4
    );
    assert_eq!(
        detect_conversion_direction("video.mp4", None).unwrap(),
        ConversionDirection::Mp4ToGif
    );
}

#[test]
fn extensions_are_case_insensitive() {
    assert_eq!(
        detect_conversion_direction("animation.GIF", Some("video.MP4")).unwrap(),
        ConversionDirection::GifToMp4
    );
}

#[test]
fn rejects_unsupported_or_matching_formats() {
    for (input, output) in [
        ("image.png", None),
        ("animation.gif", Some("copy.gif")),
        ("video.mp4", Some("copy.mp4")),
    ] {
        let error = detect_conversion_direction(input, output).unwrap_err();

        assert!(
            error.message().contains("Unsupported conversion direction"),
            "unexpected error for {input}: {error:?}"
        );
    }
}

#[test]
fn reports_paths_without_an_extension() {
    let error = detect_conversion_direction("animation", None).unwrap_err();

    assert!(
        error.message().contains("Failed to normalize input path"),
        "{error:?}"
    );
}

#[test]
fn missing_extensions_carry_their_cause() {
    let error = detect_conversion_direction("animation", None).unwrap_err();
    assert_eq!(error.cause(), Some("There is no extension in the input file path".to_string()));
    let unsupported = detect_conversion_direction("a.png", None).unwrap_err();
    assert_eq!(unsupported.cause(), None);
}

#[test]
fn reports_output_paths_without_an_extension() {
    let error = detect_conversion_direction("animation.gif", Some("video")).unwrap_err();
    assert_eq!(
        error,
        MediaError::OutputWithoutExtension { path: "video".to_string() }
    );
    assert_eq!(error.message(), "Failed to normalize output path: \"video\"");
}

#[test]
fn input_error_message_quotes_the_path() {
    let error = detect_conversion_direction("dir/animation", None).unwrap_err();
    assert_eq!(error.message(), "Failed to normalize input path: \"dir/animation\"");
}

#[test]
fn unsupported_error_names_both_lower_case_extensions() {
    let error = detect_conversion_direction("Image.PNG", Some("out.GIF")).unwrap_err();
    assert_eq!(
        error,
        MediaError::UnsupportedDirection {
            input_extension: "png".to_string(),
            output_extension: "gif".to_string(),
        }
    );
    assert_eq!(
        error.message(),
        "Unsupported conversion direction: input extension: png, output extension: gif"
    );
    let omitted = detect_conversion_direction("image.png", None).unwrap_err();
    assert_eq!(
        omitted.message(),
        "Unsupported conversion direction: input extension: png, output extension: "
    );
}

#[test]
fn normalize_path_lower_cases_the_extension_of_the_file_name() {
    assert_eq!(normalize_path("dir/Clip.MP4"), Some("mp4".to_string()));
    assert_eq!(normalize_path("archive.tar.GZ"), Some("gz".to_string()));
    assert_eq!(normalize_path("dir.d/file"), None);
    assert_eq!(normalize_path(".gif"), None);
    assert_eq!(normalize_path("..gif"), Some("gif".to_string()));
    assert_eq!(normalize_path("name."), Some("".to_string()));
    assert_eq!(normalize_path("dir/clip.gif/"), Some("gif".to_string()));
    assert_eq!(normalize_path("dir/.."), None);
    assert_eq!(normalize_path(""), None);
}

#[test]
fn direction_for_extensions_takes_lower_case_names() {
    assert_eq!(direction_for_extensions("gif", Some("mp4")), Ok(ConversionDirection::GifToMp4));
    assert_eq!(direction_for_extensions("mp4", Some("gif")), Ok(ConversionDirection::Mp4ToGif));
    assert_eq!(direction_for_extensions("gif", None), Ok(ConversionDirection::GifToMp4));
    assert_eq!(direction_for_extensions("mp4", None), Ok(ConversionDirection::Mp4ToGif));
    assert!(direction_for_extensions("GIF", Some("mp4")).is_err());
    assert!(direction_for_extensions("gif", Some("gif")).is_err());
    assert!(direction_for_extensions("mp4", Some("mp4")).is_err());
    assert!(direction_for_extensions("gif", Some("")).is_err());
    assert!(direction_for_extensions("", None).is_err());
}

#[test]
fn mixed_case_extensions_are_accepted() {
    for input in ["a.gIf", "a.GiF", "a.Gif"] {
        assert_eq!(
            detect_conversion_direction(input, None).unwrap(),
            ConversionDirection::GifToMp4
        );
    }
    assert_eq!(
        detect_conversion_direction("a.Mp4", Some("b.gIF")).unwrap(),
        ConversionDirection::Mp4ToGif
    );
}

#[test]
fn empty_output_extension_is_refused() {
    let error = detect_conversion_direction("a.gif", Some("b.")).unwrap_err();
    assert_eq!(
        error,
        MediaError::UnsupportedDirection {
            input_extension: "gif".to_string(),
            output_extension: "".to_string(),
        }
    );
    assert!(detect_conversion_direction("a.mp4", Some("dir/b.")).is_err());
}

#[test]
fn a_file_named_dot_dot_gif_still_has_a_gif_extension() {
    assert_eq!(normalize_path("..gif"), Some("gif".to_string()));
    assert_eq!(
        detect_conversion_direction("..gif", None).unwrap(),
        ConversionDirection::GifToMp4
    );
}
