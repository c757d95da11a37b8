//! Where FFmpeg is looked for: the path in `GIFMP4_FFMPEG_PATH` first, then
//! `libexec/ffmpeg` in the package the tool was installed from, then
//! `ffmpeg` on the system `PATH`.

use vstd::prelude::*;
use crate::paths::{join, joined, parent, parent_of};
use crate::text::{signed_decimal, signed_decimal_string};

verus! {

/// Why no FFmpeg could be chosen.
#[derive(Debug, PartialEq, Eq)]
pub enum FfmpegError {
    /// `GIFMP4_FFMPEG_PATH` names no file.
    ConfiguredPathNotFound { path: String },
    /// The path of the running executable could not be found out.
    ExecutableUnavailable,
    /// The running executable's path has no parent directory.
    NoExecutableDirectory,
    /// The executable's directory has no parent (package) directory.
    NoPackageDirectory,
    /// FFmpeg ended without success while converting; `code` is its exit
    /// code, if it had one.
    ConversionFailed { code: Option<i32> },
    /// FFmpeg ended without success when asked for its version.
    VersionCheckFailed { code: Option<i32> },
}

/// The model of an `FfmpegError`.
pub enum FfmpegFailure {
    ConfiguredPathNotFound(Seq<char>),
    ExecutableUnavailable,
    NoExecutableDirectory,
    NoPackageDirectory,
    ConversionFailed(Option<i32>),
    VersionCheckFailed(Option<i32>),
}

impl View for FfmpegError {
    type V = FfmpegFailure;

    open spec fn view(&self) -> FfmpegFailure {
        match self {
            FfmpegError::ConfiguredPathNotFound { path } => FfmpegFailure::ConfiguredPathNotFound(path@),
            FfmpegError::ExecutableUnavailable => FfmpegFailure::ExecutableUnavailable,
            FfmpegError::NoExecutableDirectory => FfmpegFailure::NoExecutableDirectory,
            FfmpegError::NoPackageDirectory => FfmpegFailure::NoPackageDirectory,
            FfmpegError::ConversionFailed { code } => FfmpegFailure::ConversionFailed(*code),
            FfmpegError::VersionCheckFailed { code } => FfmpegFailure::VersionCheckFailed(*code),
        }
    }
}

/// An optional exit code as `{:?}` writes it: `Some(<code>)` or `None`.
pub open spec fn exit_code_text(code: Option<i32>) -> Seq<char> {
    match code {
        Some(c) => "Some("@ + signed_decimal(c as int) + ")"@,
        None => "None"@,
    }
}

fn exit_code_string(code: Option<i32>) -> (res: String)
    ensures
        res@ == exit_code_text(code),
{
    match code {
        Some(c) => {
            let mut s = String::from_str("Some(");
            s.append(signed_decimal_string(c).as_str());
            s.append(")");
            s
        },
        None => String::from_str("None"),
    }
}

/// The text of a failure, as the tool reports it.
pub open spec fn ffmpeg_message(f: FfmpegFailure) -> Seq<char> {
    match f {
        FfmpegFailure::ConfiguredPathNotFound(p) => "GIFMP4_FFMPEG_PATHで指定されたFFmpegが見つかりません: "@ + p,
        FfmpegFailure::ExecutableUnavailable => "現在の実行ファイルのパスを取得できませんでした"@,
        FfmpegFailure::NoExecutableDirectory => "実行ファイルの親ディレクトリを取得できませんでした"@,
        FfmpegFailure::NoPackageDirectory => "パッケージディレクトリを取得できませんでした"@,
        FfmpegFailure::ConversionFailed(code) => "FFmpegによる変換に失敗しました。終了コード: "@ + exit_code_text(code),
        FfmpegFailure::VersionCheckFailed(code) => "FFmpegの確認に失敗しました。終了コード: "@ + exit_code_text(code),
    }
}

impl FfmpegError {
    /// The error's text.
    pub fn message(&self) -> (res: String)
        ensures
            res@ == ffmpeg_message(self@),
    {
        match self {
            FfmpegError::ConfiguredPathNotFound { path } => {
                let mut s = String::from_str("GIFMP4_FFMPEG_PATHで指定されたFFmpegが見つかりません: ");
                s.append(path.as_str());
                s
            },
            FfmpegError::ExecutableUnavailable => String::from_str("現在の実行ファイルのパスを取得できませんでした"),
            FfmpegError::NoExecutableDirectory => String::from_str("実行ファイルの親ディレクトリを取得できませんでした"),
            FfmpegError::NoPackageDirectory => String::from_str("パッケージディレクトリを取得できませんでした"),
            FfmpegError::ConversionFailed { code } => {
                let mut s = String::from_str("FFmpegによる変換に失敗しました。終了コード: ");
                s.append(exit_code_string(*code).as_str());
                s
            },
            FfmpegError::VersionCheckFailed { code } => {
                let mut s = String::from_str("FFmpegの確認に失敗しました。終了コード: ");
                s.append(exit_code_string(*code).as_str());
                s
            },
        }
    }
}

/// The model of a path result.
pub open spec fn ffmpeg_result_view(r: Result<String, FfmpegError>) -> Result<Seq<char>, FfmpegFailure> {
    match r {
        Ok(p) => Ok(p@),
        Err(e) => Err(e@),
    }
}

/// The name of the FFmpeg executable on the target system.
pub open spec fn ffmpeg_filename_spec(windows: bool) -> Seq<char> {
    if windows {
        "ffmpeg.exe"@
    } else {
        "ffmpeg"@
    }
}

/// The FFmpeg bundled with a package whose executable is at `executable`:
/// `libexec/<file name>` in the parent of the executable's directory.
pub open spec fn bundled_candidate_spec(executable: Seq<char>, ffmpeg_filename: Seq<char>) -> Result<Seq<char>, FfmpegFailure> {
    match parent_of(executable) {
        None => Err(FfmpegFailure::NoExecutableDirectory),
        Some(directory) => match parent_of(directory) {
            None => Err(FfmpegFailure::NoPackageDirectory),
            Some(package) => Ok(joined(joined(package, "libexec"@), ffmpeg_filename)),
        },
    }
}

/// The outcome of a finished FFmpeg conversion: success, or a failure that
/// carries the exit code.
pub fn conversion_outcome(success: bool, code: Option<i32>) -> (res: Result<(), FfmpegError>)
    ensures
        success ==> res is Ok,
        !success ==> res == Err::<(), FfmpegError>(FfmpegError::ConversionFailed { code }),
{
    if success {
        Ok(())
    } else {
        Err(FfmpegError::ConversionFailed { code })
    }
}

/// The outcome of a finished `ffmpeg -version`: success, or a failure that
/// carries the exit code.
pub fn version_check_outcome(success: bool, code: Option<i32>) -> (res: Result<(), FfmpegError>)
    ensures
        success ==> res is Ok,
        !success ==> res == Err::<(), FfmpegError>(FfmpegError::VersionCheckFailed { code }),
{
    if success {
        Ok(())
    } else {
        Err(FfmpegError::VersionCheckFailed { code })
    }
}

/// The order in which FFmpeg is looked for. A configured path is taken if it
/// names a file and is an error otherwise; without one, the bundled candidate
/// is taken if it was found and names a file, and otherwise the bare
/// executable name, left to the system `PATH`.
pub open spec fn selection_spec(
    configured: Option<Seq<char>>,
    configured_is_file: bool,
    bundled: Result<Seq<char>, FfmpegFailure>,
    bundled_is_file: bool,
    ffmpeg_filename: Seq<char>,
) -> Result<Seq<char>, FfmpegFailure> {
    match configured {
        Some(c) => if configured_is_file {
            Ok(c)
        } else {
            Err(FfmpegFailure::ConfiguredPathNotFound(c))
        },
        None => match bundled {
            Ok(b) => if bundled_is_file {
                Ok(b)
            } else {
                Ok(ffmpeg_filename)
            },
            Err(_) => Ok(ffmpeg_filename),
        },
    }
}

/// The name of the FFmpeg executable: `ffmpeg.exe` on Windows, `ffmpeg`
/// elsewhere.
pub fn ffmpeg_filename(windows: bool) -> (res: &'static str)
    ensures
        res@ == ffmpeg_filename_spec(windows),
{
    if windows {
        "ffmpeg.exe"
    } else {
        "ffmpeg"
    }
}

/// The FFmpeg bundled next to the package's `bin` directory, for the
/// executable at `current_executable_path`.
pub fn bundled_ffmpeg_candidate_for(current_executable_path: &str, ffmpeg_filename: &str) -> (res: Result<String, FfmpegError>)
    ensures
        ffmpeg_result_view(res) == bundled_candidate_spec(current_executable_path@, ffmpeg_filename@),
{
    let executable_directory = match parent(current_executable_path) {
        Some(d) => d,
        None => {
            return Err(FfmpegError::NoExecutableDirectory);
        },
    };
    let package_directory = match parent(executable_directory.as_str()) {
        Some(p) => p,
        None => {
            return Err(FfmpegError::NoPackageDirectory);
        },
    };
    let libexec = join(package_directory.as_str(), "libexec");
    Ok(join(libexec.as_str(), ffmpeg_filename))
}

/// Chooses the FFmpeg to run (see `selection_spec`). `configured` is the
/// value of `GIFMP4_FFMPEG_PATH`, `configured_is_file` whether it names a
/// file; `bundled` is the bundled candidate, `bundled_is_file` whether it
/// names a file.
pub fn select_ffmpeg_path(
    configured: Option<&str>,
    configured_is_file: bool,
    bundled: Result<String, FfmpegError>,
    bundled_is_file: bool,
    ffmpeg_filename: &str,
) -> (res: Result<String, FfmpegError>)
    ensures
        ffmpeg_result_view(res) == selection_spec(
            match configured { Some(c) => Some(c@), None => None },
            configured_is_file,
            ffmpeg_result_view(bundled),
            bundled_is_file,
            ffmpeg_filename@,
        ),
{
    match configured {
        Some(c) => {
            if configured_is_file {
                Ok(String::from_str(c))
            } else {
                Err(FfmpegError::ConfiguredPathNotFound { path: String::from_str(c) })
            }
        },
        None => match bundled {
            Ok(b) => {
                if bundled_is_file {
                    Ok(b)
                } else {
                    Ok(String::from_str(ffmpeg_filename))
                }
            },
            Err(_) => Ok(String::from_str(ffmpeg_filename)),
        },
    }
}

/// The search order: a configured path is used whenever it is set (and is
/// an error if it names no file), whatever the bundled candidate; without one,
/// an existing bundled FFmpeg comes before the one on the system `PATH`, and
/// the one on `PATH` is the answer whenever no bundled FFmpeg is found, so
/// that without a configured path the search never fails.
pub proof fn lemma_search_order(
    configured: Option<Seq<char>>,
    configured_is_file: bool,
    bundled: Result<Seq<char>, FfmpegFailure>,
    bundled_is_file: bool,
    other_bundled: Result<Seq<char>, FfmpegFailure>,
    other_bundled_is_file: bool,
    ffmpeg_filename: Seq<char>,
)
    ensures
        configured is Some ==> selection_spec(configured, configured_is_file, bundled, bundled_is_file, ffmpeg_filename)
            == selection_spec(configured, configured_is_file, other_bundled, other_bundled_is_file, ffmpeg_filename),
        configured is Some && configured_is_file ==> selection_spec(configured, configured_is_file, bundled, bundled_is_file, ffmpeg_filename)
            == Ok::<Seq<char>, FfmpegFailure>(configured->Some_0),
        configured is Some && !configured_is_file ==> selection_spec(configured, configured_is_file, bundled, bundled_is_file, ffmpeg_filename)
            is Err,
        configured is None && bundled is Ok && bundled_is_file ==> selection_spec(configured, configured_is_file, bundled, bundled_is_file, ffmpeg_filename)
            == Ok::<Seq<char>, FfmpegFailure>(bundled->Ok_0),
        configured is None && !(bundled is Ok && bundled_is_file) ==> selection_spec(configured, configured_is_file, bundled, bundled_is_file, ffmpeg_filename)
            == Ok::<Seq<char>, FfmpegFailure>(ffmpeg_filename),
        configured is None ==> selection_spec(configured, configured_is_file, bundled, bundled_is_file, ffmpeg_filename) is Ok,
{
}

} // verus!
