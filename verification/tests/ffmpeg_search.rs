use gifmp4::ffmpeg::{
    bundled_ffmpeg_candidate_for, conversion_outcome, ffmpeg_filename, select_ffmpeg_path,
    version_check_outcome, FfmpegError,
};

#[test]
fn finds_ffmpeg_next_to_the_package_bin_directory() {
    let executable = "package/bin/gifmp4";
    let expected = String::from("package/libexec/ffmpeg");

    assert_eq!(
        bundled_ffmpeg_candidate_for(executable, ffmpeg_filename(false)).unwrap(),
        expected
    );
}

#[test]
fn finds_windows_ffmpeg_next_to_the_package_bin_directory() {
    assert_eq!(ffmpeg_filename(true), "ffmpeg.exe");
    assert_eq!(
        bundled_ffmpeg_candidate_for("package/bin/gifmp4.exe", ffmpeg_filename(true)).unwrap(),
        "package/libexec/ffmpeg.exe"
    );
}

#[test]
fn bundled_candidate_for_absolute_and_short_paths() {
    assert_eq!(
        bundled_ffmpeg_candidate_for("/opt/gifmp4/bin/gifmp4", "ffmpeg").unwrap(),
        "/opt/gifmp4/libexec/ffmpeg"
    );
    assert_eq!(
        bundled_ffmpeg_candidate_for("bin/gifmp4", "ffmpeg").unwrap(),
        "libexec/ffmpeg"
    );
    assert_eq!(
        bundled_ffmpeg_candidate_for("gifmp4", "ffmpeg"),
        Err(FfmpegError::NoPackageDirectory)
    );
    assert_eq!(
        bundled_ffmpeg_candidate_for("/", "ffmpeg"),
        Err(FfmpegError::NoExecutableDirectory)
    );
    assert_eq!(
        bundled_ffmpeg_candidate_for("", "ffmpeg"),
        Err(FfmpegError::NoExecutableDirectory)
    );
}

#[test]
fn configured_path_comes_first() {
    let bundled = Ok("package/libexec/ffmpeg".to_string());
    assert_eq!(
        select_ffmpeg_path(Some("/custom/ffmpeg"), true, bundled, true, "ffmpeg"),
        Ok("/custom/ffmpeg".to_string())
    );
    assert_eq!(
        select_ffmpeg_path(Some("/custom/ffmpeg"), true, Err(FfmpegError::ExecutableUnavailable), false, "ffmpeg"),
        Ok("/custom/ffmpeg".to_string())
    );
}

#[test]
fn missing_configured_path_is_an_error() {
    let error = select_ffmpeg_path(
        Some("/missing/ffmpeg"),
        false,
        Ok("package/libexec/ffmpeg".to_string()),
        true,
        "ffmpeg",
    )
    .unwrap_err();
    assert_eq!(
        error,
        FfmpegError::ConfiguredPathNotFound { path: "/missing/ffmpeg".to_string() }
    );
    assert_eq!(
        error.message(),
        "GIFMP4_FFMPEG_PATHで指定されたFFmpegが見つかりません: /missing/ffmpeg"
    );
}

#[test]
fn bundled_ffmpeg_comes_before_the_system_path() {
    assert_eq!(
        select_ffmpeg_path(None, false, Ok("package/libexec/ffmpeg".to_string()), true, "ffmpeg"),
        Ok("package/libexec/ffmpeg".to_string())
    );
    assert_eq!(
        select_ffmpeg_path(None, false, Ok("package/libexec/ffmpeg".to_string()), false, "ffmpeg"),
        Ok("ffmpeg".to_string())
    );
}

#[test]
fn system_path_is_used_when_no_bundled_ffmpeg_is_found() {
    for error in [
        FfmpegError::NoPackageDirectory,
        FfmpegError::NoExecutableDirectory,
        FfmpegError::ExecutableUnavailable,
    ] {
        assert_eq!(
            select_ffmpeg_path(None, false, Err(error), true, "ffmpeg"),
            Ok("ffmpeg".to_string())
        );
    }
    let bundled = bundled_ffmpeg_candidate_for("/gifmp4", "ffmpeg");
    assert_eq!(bundled, Err(FfmpegError::NoPackageDirectory));
    assert_eq!(
        select_ffmpeg_path(None, false, bundled, false, "ffmpeg"),
        Ok("ffmpeg".to_string())
    );
    assert_eq!(
        select_ffmpeg_path(None, false, Err(FfmpegError::NoPackageDirectory), true, "ffmpeg.exe"),
        Ok("ffmpeg.exe".to_string())
    );
}

#[test]
fn ffmpeg_error_messages() {
    assert_eq!(
        FfmpegError::ExecutableUnavailable.message(),
        "現在の実行ファイルのパスを取得できませんでした"
    );
    assert_eq!(
        FfmpegError::NoExecutableDirectory.message(),
        "実行ファイルの親ディレクトリを取得できませんでした"
    );
    assert_eq!(
        FfmpegError::NoPackageDirectory.message(),
        "パッケージディレクトリを取得できませんでした"
    );
}

#[test]
fn unsuccessful_ffmpeg_runs_report_the_exit_code() {
    assert_eq!(conversion_outcome(true, Some(0)), Ok(()));
    assert_eq!(conversion_outcome(true, None), Ok(()));
    let failed = conversion_outcome(false, Some(1)).unwrap_err();
    assert_eq!(failed, FfmpegError::ConversionFailed { code: Some(1) });
    assert_eq!(failed.message(), "FFmpegによる変換に失敗しました。終了コード: Some(1)");
    let killed = conversion_outcome(false, None).unwrap_err();
    assert_eq!(killed.message(), "FFmpegによる変換に失敗しました。終了コード: None");
    let check = version_check_outcome(false, Some(-2)).unwrap_err();
    assert_eq!(check.message(), "FFmpegの確認に失敗しました。終了コード: Some(-2)");
    assert_eq!(version_check_outcome(true, Some(0)), Ok(()));
}
