use gifmp4::converter::{
    convert, execute_output_path, gif_to_mp4_arguments, mp4_to_gif_arguments, output_directory,
    validate_conversion_request, ConversionError, ConversionOptions, DEFAULT_CONSTANT_RATE_FACTOR,
    DEFAULT_FRAMES_PER_SECOND,
};
use gifmp4::media::MediaError;

fn defaults() -> ConversionOptions {
    ConversionOptions {
        frames_per_second: DEFAULT_FRAMES_PER_SECOND,
        output_width: None,
        constant_rate_factor: DEFAULT_CONSTANT_RATE_FACTOR,
    }
}

fn strings(items: &[&str]) -> Vec<String> {
    items.iter().map(|s| s.to_string()).collect()
}

#[test]
fn default_options_are_thirty_fps_and_crf_twenty_three() {
    assert_eq!(DEFAULT_FRAMES_PER_SECOND, 30);
    assert_eq!(DEFAULT_CONSTANT_RATE_FACTOR, 23);
}

#[test]
fn omitted_output_goes_next_to_the_input_with_the_target_extension() {
    assert_eq!(execute_output_path("animation.gif", None).unwrap(), "animation.mp4");
    assert_eq!(execute_output_path("video.mp4", None).unwrap(), "video.gif");
    assert_eq!(execute_output_path("media/cats/Clip.MP4", None).unwrap(), "media/cats/Clip.gif");
    assert_eq!(execute_output_path("a.b.GIF", None).unwrap(), "a.b.mp4");
}

#[test]
fn given_output_is_kept() {
    assert_eq!(
        execute_output_path("animation.gif", Some("out/video.mp4")).unwrap(),
        "out/video.mp4"
    );
    assert!(matches!(
        execute_output_path("animation.png", None),
        Err(MediaError::UnsupportedDirection { .. })
    ));
}

#[test]
fn output_directory_is_the_non_empty_parent_of_the_output() {
    assert_eq!(output_directory("media/a.gif", None), Some("media".to_string()));
    assert_eq!(output_directory("a.gif", None), None);
    assert_eq!(output_directory("a.gif", Some("out/b.mp4")), Some("out".to_string()));
    assert_eq!(output_directory("/b.gif", None), Some("/".to_string()));
    assert_eq!(output_directory("a.png", None), None);
}

#[test]
fn missing_input_is_reported_first() {
    let options = ConversionOptions { frames_per_second: 0, output_width: Some(0), constant_rate_factor: 99 };
    let error = validate_conversion_request("missing.gif", None, &options, false, true).unwrap_err();
    assert_eq!(error, ConversionError::InputNotFound { path: "missing.gif".to_string() });
    assert_eq!(error.message(), "入力ファイルが見つかりません: missing.gif");
}

#[test]
fn option_ranges_are_checked_in_order() {
    let zero_fps = ConversionOptions { frames_per_second: 0, output_width: Some(0), constant_rate_factor: 99 };
    assert_eq!(
        validate_conversion_request("a.gif", None, &zero_fps, true, true),
        Err(ConversionError::InvalidFramesPerSecond)
    );
    let zero_width = ConversionOptions { frames_per_second: 1, output_width: Some(0), constant_rate_factor: 99 };
    assert_eq!(
        validate_conversion_request("a.gif", None, &zero_width, true, true),
        Err(ConversionError::InvalidOutputWidth)
    );
    let high_quality = ConversionOptions { frames_per_second: 1, output_width: Some(1), constant_rate_factor: 52 };
    assert_eq!(
        validate_conversion_request("a.gif", None, &high_quality, true, true),
        Err(ConversionError::InvalidQuality)
    );
    let edge = ConversionOptions { frames_per_second: 1, output_width: Some(1), constant_rate_factor: 51 };
    assert_eq!(validate_conversion_request("a.gif", None, &edge, true, true), Ok(()));
    let lowest = ConversionOptions { frames_per_second: 1, output_width: None, constant_rate_factor: 0 };
    assert_eq!(validate_conversion_request("a.gif", None, &lowest, true, true), Ok(()));
}

#[test]
fn option_error_messages() {
    assert_eq!(ConversionError::InvalidFramesPerSecond.message(), "FPSには1以上の値を指定してください");
    assert_eq!(ConversionError::InvalidOutputWidth.message(), "出力幅には1以上の値を指定してください");
    assert_eq!(ConversionError::InvalidQuality.message(), "qualityには0から51までの値を指定してください");
    assert_eq!(
        ConversionError::SameInputAndOutput { path: "a.gif".to_string() }.message(),
        "入力ファイルと出力ファイルに同じパスは指定できません: a.gif"
    );
}

#[test]
fn unsupported_paths_are_reported_as_media_errors() {
    let error = validate_conversion_request("a.png", None, &defaults(), true, true).unwrap_err();
    assert!(matches!(error, ConversionError::Media(MediaError::UnsupportedDirection { .. })));
    assert!(error.message().contains("Unsupported conversion direction"));
}

#[test]
fn output_equal_to_input_is_refused() {
    for path in ["a.gif", "dir/b.mp4", "c.GIF"] {
        let result = validate_conversion_request(path, Some(path), &defaults(), true, true);
        assert!(result.is_err(), "{path}");
        assert!(convert(path, Some(path), &defaults(), true, true).is_err(), "{path}");
    }
}

#[test]
fn missing_output_directory_is_reported() {
    let error = validate_conversion_request("a.gif", Some("out/b.mp4"), &defaults(), true, false).unwrap_err();
    assert_eq!(error, ConversionError::OutputDirectoryNotFound { path: "out".to_string() });
    assert_eq!(error.message(), "出力先ディレクトリが存在しません: out");
    assert_eq!(
        validate_conversion_request("a.gif", Some("b.mp4"), &defaults(), true, false),
        Ok(())
    );
}

#[test]
fn gif_to_mp4_arguments_use_the_quality_as_crf() {
    let options = ConversionOptions { frames_per_second: 30, output_width: None, constant_rate_factor: 18 };
    assert_eq!(
        gif_to_mp4_arguments("in.gif", "out.mp4", &options),
        strings(&[
            "-y", "-i", "in.gif", "-an", "-vf", "scale=trunc(iw/2)*2:trunc(ih/2)*2", "-c:v", "libx264",
            "-crf", "18", "-pix_fmt", "yuv420p", "-movflags", "+faststart", "out.mp4",
        ])
    );
}

#[test]
fn mp4_to_gif_arguments_build_a_palette_filter_graph() {
    let options = ConversionOptions { frames_per_second: 15, output_width: Some(640), constant_rate_factor: 23 };
    assert_eq!(
        mp4_to_gif_arguments("in.mp4", "out.gif", &options),
        strings(&[
            "-y",
            "-i",
            "in.mp4",
            "-filter_complex",
            "[0:v]fps=15,scale=640:-1:flags=lanczos,split[video_for_palette][video_for_output];[video_for_palette]palettegen=max_colors=256[palette];[video_for_output][palette]paletteuse=dither=sierra2_4a",
            "-an",
            "-loop",
            "0",
            "out.gif",
        ])
    );
    let unscaled = ConversionOptions { frames_per_second: 30, output_width: None, constant_rate_factor: 23 };
    assert_eq!(
        mp4_to_gif_arguments("in.mp4", "out.gif", &unscaled)[4],
        "[0:v]fps=30,scale=iw:-1:flags=lanczos,split[video_for_palette][video_for_output];[video_for_palette]palettegen=max_colors=256[palette];[video_for_output][palette]paletteuse=dither=sierra2_4a"
    );
}

#[test]
fn convert_resolves_the_output_and_picks_the_arguments() {
    let args = convert("media/anim.GIF", None, &defaults(), true, true).unwrap();
    assert_eq!(args[2], "media/anim.GIF");
    assert_eq!(args[9], "23");
    assert_eq!(args.last().unwrap(), "media/anim.mp4");

    let options = ConversionOptions { frames_per_second: 12, output_width: Some(480), constant_rate_factor: 23 };
    let args = convert("video.mp4", Some("clips/out.gif"), &options, true, true).unwrap();
    assert_eq!(args.len(), 9);
    assert!(args[4].starts_with("[0:v]fps=12,scale=480:-1:flags=lanczos,split"));
    assert_eq!(args.last().unwrap(), "clips/out.gif");
}

#[test]
fn convert_reports_the_first_failed_check() {
    assert_eq!(
        convert("a.gif", None, &defaults(), false, true),
        Err(ConversionError::InputNotFound { path: "a.gif".to_string() })
    );
    assert_eq!(
        convert("a.gif", Some("x/b.mp4"), &defaults(), true, false),
        Err(ConversionError::OutputDirectoryNotFound { path: "x".to_string() })
    );
}

#[test]
fn inferring_twice_gives_back_the_input() {
    for input in ["animation.gif", "media/cats/clip.mp4", "/abs/x.y.gif", ".hidden.mp4"] {
        let once = execute_output_path(input, None).unwrap();
        let twice = execute_output_path(&once, None).unwrap();
        assert_eq!(twice, input, "{input} -> {once}");
    }
    let once = execute_output_path("dir/a.gif/", None).unwrap();
    assert_eq!(once, "dir/a.mp4");
    assert_eq!(execute_output_path(&once, None).unwrap(), "dir/a.gif");
}

#[test]
fn inferred_output_keeps_the_directory_and_the_stem() {
    assert_eq!(execute_output_path("./a.gif", None).unwrap(), "./a.mp4");
    assert_eq!(execute_output_path("a/b.c.MP4", None).unwrap(), "a/b.c.gif");
    assert_eq!(output_directory("deep/dir/a.gif", None), Some("deep/dir".to_string()));
}

#[test]
fn a_stem_of_dot_leaves_no_file_name() {
    assert_eq!(execute_output_path("..gif", None).unwrap(), "..");
    assert_eq!(execute_output_path("dir/..mp4", None).unwrap(), "dir/..");
    assert_eq!(output_directory("..gif", None), None);
    assert_eq!(validate_conversion_request("..gif", None, &defaults(), true, true), Ok(()));
}

#[test]
fn output_with_an_empty_extension_is_refused() {
    let error = validate_conversion_request("a.gif", Some("b."), &defaults(), true, true).unwrap_err();
    assert!(matches!(error, ConversionError::Media(MediaError::UnsupportedDirection { .. })));
}
