//! The checks made on a conversion request, the output path it resolves to,
//! and the FFmpeg arguments that carry it out.

use vstd::prelude::*;
use crate::media::{
    detect_conversion_direction, detect_spec, gif, lemma_detected_pairs, lemma_format_names_are_lower_case,
    lemma_same_format_rejected, media_cause, media_message, mp4, normalized_extension, opt_str_view, ConversionDirection,
    MediaError, MediaFailure,
};
use crate::paths::{
    extension_of, file_name_of, lemma_name_with_extension, lemma_stem_of_name_with_extension,
    lemma_name_splits_at_last_dot, stem_is_dot, stem_of_name, extension_of_name, opt_view, parent, parent_of, paths_equal, same_path, with_extension,
    with_extension_of,
};
use crate::text::{decimal, decimal_string, decimal_value, lemma_decimal_is_representation};

verus! {

/// The frame rate of a GIF when none is given.
pub const DEFAULT_FRAMES_PER_SECOND: u32 = 30;

/// The H.264 constant rate factor when none is given.
pub const DEFAULT_CONSTANT_RATE_FACTOR: u8 = 23;

/// The largest H.264 constant rate factor accepted.
pub const MAX_CONSTANT_RATE_FACTOR: u8 = 51;

/// How a conversion is tuned.
#[derive(Debug, Clone, Copy, PartialEq, Eq)]
pub struct ConversionOptions {
    /// Frame rate of a GIF produced from an MP4.
    pub frames_per_second: u32,
    /// Width in pixels of a GIF produced from an MP4; the height follows the
    /// aspect ratio. `None` keeps the input width.
    pub output_width: Option<u32>,
    /// H.264 constant rate factor of an MP4 produced from a GIF (0 to 51).
    pub constant_rate_factor: u8,
}

/// Why a conversion request was refused.
#[derive(Debug, PartialEq, Eq)]
pub enum ConversionError {
    /// The input path names no file.
    InputNotFound { path: String },
    /// The frame rate is zero.
    InvalidFramesPerSecond,
    /// The output width is zero.
    InvalidOutputWidth,
    /// The constant rate factor is above 51.
    InvalidQuality,
    /// No conversion direction follows from the paths.
    Media(MediaError),
    /// The output path is the input path.
    SameInputAndOutput { path: String },
    /// The directory the output would be written to does not exist.
    OutputDirectoryNotFound { path: String },
}

/// The model of a `ConversionError`.
pub enum ConversionFailure {
    InputNotFound(Seq<char>),
    InvalidFramesPerSecond,
    InvalidOutputWidth,
    InvalidQuality,
    Media(MediaFailure),
    SameInputAndOutput(Seq<char>),
    OutputDirectoryNotFound(Seq<char>),
}

impl View for ConversionError {
    type V = ConversionFailure;

    open spec fn view(&self) -> ConversionFailure {
        match self {
            ConversionError::InputNotFound { path } => ConversionFailure::InputNotFound(path@),
            ConversionError::InvalidFramesPerSecond => ConversionFailure::InvalidFramesPerSecond,
            ConversionError::InvalidOutputWidth => ConversionFailure::InvalidOutputWidth,
            ConversionError::InvalidQuality => ConversionFailure::InvalidQuality,
            ConversionError::Media(e) => ConversionFailure::Media(e@),
            ConversionError::SameInputAndOutput { path } => ConversionFailure::SameInputAndOutput(path@),
            ConversionError::OutputDirectoryNotFound { path } => ConversionFailure::OutputDirectoryNotFound(path@),
        }
    }
}

/// The text of a failure, as the tool reports it.
pub open spec fn conversion_message(f: ConversionFailure) -> Seq<char> {
    match f {
        ConversionFailure::InputNotFound(p) => "入力ファイルが見つかりません: "@ + p,
        ConversionFailure::InvalidFramesPerSecond => "FPSには1以上の値を指定してください"@,
        ConversionFailure::InvalidOutputWidth => "出力幅には1以上の値を指定してください"@,
        ConversionFailure::InvalidQuality => "qualityには0から51までの値を指定してください"@,
        ConversionFailure::Media(m) => media_message(m),
        ConversionFailure::SameInputAndOutput(p) => "入力ファイルと出力ファイルに同じパスは指定できません: "@ + p,
        ConversionFailure::OutputDirectoryNotFound(p) => "出力先ディレクトリが存在しません: "@ + p,
    }
}

impl ConversionError {
    /// The error's text.
    pub fn message(&self) -> (res: String)
        ensures
            res@ == conversion_message(self@),
    {
        match self {
            ConversionError::InputNotFound { path } => {
                let mut s = String::from_str("入力ファイルが見つかりません: ");
                s.append(path.as_str());
                s
            },
            ConversionError::InvalidFramesPerSecond => String::from_str("FPSには1以上の値を指定してください"),
            ConversionError::InvalidOutputWidth => String::from_str("出力幅には1以上の値を指定してください"),
            ConversionError::InvalidQuality => String::from_str("qualityには0から51までの値を指定してください"),
            ConversionError::Media(e) => e.message(),
            ConversionError::SameInputAndOutput { path } => {
                let mut s = String::from_str("入力ファイルと出力ファイルに同じパスは指定できません: ");
                s.append(path.as_str());
                s
            },
            ConversionError::OutputDirectoryNotFound { path } => {
                let mut s = String::from_str("出力先ディレクトリが存在しません: ");
                s.append(path.as_str());
                s
            },
        }
    }
}

/// The underlying reason reported beneath a failure's text, if it has one.
pub open spec fn conversion_cause(f: ConversionFailure) -> Option<Seq<char>> {
    match f {
        ConversionFailure::Media(m) => media_cause(m),
        _ => None,
    }
}

impl ConversionError {
    /// The underlying reason beneath the error's text, if it has one.
    pub fn cause(&self) -> (res: Option<String>)
        ensures
            opt_view(res) == conversion_cause(self@),
    {
        match self {
            ConversionError::Media(e) => e.cause(),
            _ => None,
        }
    }
}

/// The extension an output without a given path receives.
pub open spec fn target_extension(d: ConversionDirection) -> Seq<char> {
    match d {
        ConversionDirection::GifToMp4 => mp4(),
        ConversionDirection::Mp4ToGif => gif(),
    }
}

/// The extension of the format a conversion starts from.
pub open spec fn source_extension(d: ConversionDirection) -> Seq<char> {
    match d {
        ConversionDirection::GifToMp4 => gif(),
        ConversionDirection::Mp4ToGif => mp4(),
    }
}

/// The other direction.
pub open spec fn reversed(d: ConversionDirection) -> ConversionDirection {
    match d {
        ConversionDirection::GifToMp4 => ConversionDirection::Mp4ToGif,
        ConversionDirection::Mp4ToGif => ConversionDirection::GifToMp4,
    }
}

/// The output path of a request: the given one, or else the input path with
/// the extension of the target format.
pub open spec fn resolved_output_spec(input_path: Seq<char>, output_path: Option<Seq<char>>) -> Result<Seq<char>, MediaFailure> {
    match detect_spec(input_path, output_path) {
        Err(e) => Err(e),
        Ok(d) => Ok(
            match output_path {
                Some(o) => o,
                None => with_extension_of(input_path, target_extension(d)),
            },
        ),
    }
}

/// The directory whose existence an output path depends on: its parent,
/// unless that is missing or empty.
pub open spec fn directory_to_check(output_path: Seq<char>) -> Option<Seq<char>> {
    match parent_of(output_path) {
        Some(p) => if p.len() > 0 { Some(p) } else { None },
        None => None,
    }
}

/// The directory that must exist for a request to be carried out, if any.
pub open spec fn output_directory_spec(input_path: Seq<char>, output_path: Option<Seq<char>>) -> Option<Seq<char>> {
    match resolved_output_spec(input_path, output_path) {
        Ok(r) => directory_to_check(r),
        Err(_) => None,
    }
}

/// The checks on a request, in the order they are made. `input_is_file`
/// tells whether the input path names a file, `output_directory_exists`
/// whether the directory of `output_directory_spec` exists.
pub open spec fn validation_spec(
    input_path: Seq<char>,
    output_path: Option<Seq<char>>,
    options: ConversionOptions,
    input_is_file: bool,
    output_directory_exists: bool,
) -> Result<(), ConversionFailure> {
    if !input_is_file {
        Err(ConversionFailure::InputNotFound(input_path))
    } else if options.frames_per_second == 0 {
        Err(ConversionFailure::InvalidFramesPerSecond)
    } else if options.output_width == Some(0u32) {
        Err(ConversionFailure::InvalidOutputWidth)
    } else if options.constant_rate_factor > 51 {
        Err(ConversionFailure::InvalidQuality)
    } else {
        match resolved_output_spec(input_path, output_path) {
            Err(e) => Err(ConversionFailure::Media(e)),
            Ok(r) => if same_path(r, input_path) {
                Err(ConversionFailure::SameInputAndOutput(input_path))
            } else {
                match directory_to_check(r) {
                    Some(p) => if output_directory_exists {
                        Ok(())
                    } else {
                        Err(ConversionFailure::OutputDirectoryNotFound(p))
                    },
                    None => Ok(()),
                }
            },
        }
    }
}

/// The model of a list of strings.
pub open spec fn strings_view(v: Vec<String>) -> Seq<Seq<char>> {
    v@.map_values(|s: String| s@)
}

/// FFmpeg arguments for GIF to MP4: no audio, even frame dimensions as
/// H.264 requires, the given constant rate factor, YUV 4:2:0 pixels and the
/// index at the front of the file; an existing output is overwritten.
pub open spec fn gif_to_mp4_arguments_spec(input_path: Seq<char>, output_path: Seq<char>, constant_rate_factor: u8) -> Seq<Seq<char>> {
    seq![
        "-y"@, "-i"@, input_path, "-an"@, "-vf"@, "scale=trunc(iw/2)*2:trunc(ih/2)*2"@,
        "-c:v"@, "libx264"@, "-crf"@, decimal(constant_rate_factor as nat), "-pix_fmt"@,
        "yuv420p"@, "-movflags"@, "+faststart"@, output_path,
    ]
}

/// The scaling step of an MP4 to GIF conversion: to the given width with the
/// aspect ratio kept, or at the input size.
pub open spec fn gif_scale_filter(output_width: Option<u32>) -> Seq<char> {
    match output_width {
        Some(w) => "scale="@ + decimal(w as nat) + ":-1:flags=lanczos"@,
        None => "scale=iw:-1:flags=lanczos"@,
    }
}

/// The filter graph of an MP4 to GIF conversion: resample to the frame rate,
/// scale, build a palette from the video and apply it with dithering.
pub open spec fn palette_filter_graph(frames_per_second: u32, output_width: Option<u32>) -> Seq<char> {
    "[0:v]fps="@ + decimal(frames_per_second as nat) + ","@ + gif_scale_filter(output_width)
        + ",split[video_for_palette][video_for_output];[video_for_palette]palettegen=max_colors=256[palette];[video_for_output][palette]paletteuse=dither=sierra2_4a"@
}

/// FFmpeg arguments for MP4 to GIF: the palette filter graph, no audio, an
/// endless loop; an existing output is overwritten.
pub open spec fn mp4_to_gif_arguments_spec(input_path: Seq<char>, output_path: Seq<char>, options: ConversionOptions) -> Seq<Seq<char>> {
    seq![
        "-y"@, "-i"@, input_path, "-filter_complex"@,
        palette_filter_graph(options.frames_per_second, options.output_width), "-an"@, "-loop"@,
        "0"@, output_path,
    ]
}

/// The FFmpeg arguments for a conversion in direction `d`.
pub open spec fn conversion_arguments_spec(d: ConversionDirection, input_path: Seq<char>, output_path: Seq<char>, options: ConversionOptions) -> Seq<Seq<char>> {
    match d {
        ConversionDirection::GifToMp4 => gif_to_mp4_arguments_spec(input_path, output_path, options.constant_rate_factor),
        ConversionDirection::Mp4ToGif => mp4_to_gif_arguments_spec(input_path, output_path, options),
    }
}

/// A request, checked and turned into FFmpeg arguments.
pub open spec fn convert_spec(
    input_path: Seq<char>,
    output_path: Option<Seq<char>>,
    options: ConversionOptions,
    input_is_file: bool,
    output_directory_exists: bool,
) -> Result<Seq<Seq<char>>, ConversionFailure> {
    match validation_spec(input_path, output_path, options, input_is_file, output_directory_exists) {
        Err(e) => Err(e),
        Ok(_) => match (detect_spec(input_path, output_path), resolved_output_spec(input_path, output_path)) {
            (Ok(d), Ok(r)) => Ok(conversion_arguments_spec(d, input_path, r, options)),
            (Err(e), _) => Err(ConversionFailure::Media(e)),
            (_, Err(e)) => Err(ConversionFailure::Media(e)),
        },
    }
}

/// The model of an output-path result.
pub open spec fn path_result_view(r: Result<String, MediaError>) -> Result<Seq<char>, MediaFailure> {
    match r {
        Ok(p) => Ok(p@),
        Err(e) => Err(e@),
    }
}

/// The model of a validation result.
pub open spec fn unit_result_view(r: Result<(), ConversionError>) -> Result<(), ConversionFailure> {
    match r {
        Ok(_) => Ok(()),
        Err(e) => Err(e@),
    }
}

/// The model of a conversion result.
pub open spec fn arguments_result_view(r: Result<Vec<String>, ConversionError>) -> Result<Seq<Seq<char>>, ConversionFailure> {
    match r {
        Ok(v) => Ok(strings_view(v)),
        Err(e) => Err(e@),
    }
}

/// The format names hold neither a dot nor a path separator.
proof fn lemma_format_names_have_no_dot_or_separator()
    ensures
        !mp4().contains('.'), !mp4().contains('/'), !mp4().contains('\\'),
        !gif().contains('.'), !gif().contains('/'), !gif().contains('\\'),
{
    assert forall|i: int| 0 <= i < mp4().len() implies mp4()[i] != '.' && mp4()[i] != '/' && mp4()[i] != '\\' by {}
    assert forall|i: int| 0 <= i < gif().len() implies gif()[i] != '.' && gif()[i] != '/' && gif()[i] != '\\' by {}
}

/// The path the output is written to: the given output path, or else the
/// input path with `mp4` or `gif` as extension, as the direction asks.
pub fn execute_output_path(input_path: &str, output_path: Option<&str>) -> (res: Result<String, MediaError>)
    ensures
        path_result_view(res) == resolved_output_spec(input_path@, opt_str_view(output_path)),
        res is Ok ==> detect_spec(input_path@, opt_str_view(output_path)) is Ok,
        output_path is Some && res is Ok ==> normalized_extension(res->Ok_0@)
            == Some(target_extension(detect_spec(input_path@, opt_str_view(output_path))->Ok_0)),
        output_path is None && !stem_is_dot(input_path@) && res is Ok ==> ({
            let r = res->Ok_0@;
            let d = detect_spec(input_path@, None)->Ok_0;
            &&& file_name_of(r) == Some(stem_of_name(file_name_of(input_path@).unwrap()) + seq!['.'] + target_extension(d))
            &&& parent_of(r) == parent_of(input_path@)
            &&& extension_of(r) == Some(target_extension(d))
        }),
{
    let direction = detect_conversion_direction(input_path, output_path)?;
    proof {
        reveal_strlit("mp4");
        reveal_strlit("gif");
        assert("mp4"@ =~= mp4());
        assert("gif"@ =~= gif());
        lemma_format_names_are_lower_case();
        lemma_detected_pairs(input_path@, opt_str_view(output_path));
        lemma_format_names_have_no_dot_or_separator();
        if output_path is None && file_name_of(input_path@) is Some {
            let f = file_name_of(input_path@).unwrap();
            lemma_stem_of_name_with_extension(f);
            lemma_name_with_extension(stem_of_name(f), target_extension(direction));
        }
    }
    let resolved = match output_path {
        Some(path) => String::from_str(path),
        None => match direction {
            ConversionDirection::GifToMp4 => with_extension(input_path, "mp4"),
            ConversionDirection::Mp4ToGif => with_extension(input_path, "gif"),
        },
    };
    Ok(resolved)
}

/// The directory whose existence decides the last check of
/// `validate_conversion_request`, if the request has one.
pub fn output_directory(input_path: &str, output_path: Option<&str>) -> (res: Option<String>)
    ensures
        opt_view(res) == output_directory_spec(input_path@, opt_str_view(output_path)),
{
    match execute_output_path(input_path, output_path) {
        Ok(resolved) => output_directory_of(resolved.as_str()),
        Err(_) => None,
    }
}

fn output_directory_of(resolved: &str) -> (res: Option<String>)
    ensures
        opt_view(res) == directory_to_check(resolved@),
{
    match parent(resolved) {
        Some(p) => {
            if p.unicode_len() > 0 {
                Some(p)
            } else {
                None
            }
        },
        None => None,
    }
}

/// Checks a request before anything is run: the input must be a file, the
/// frame rate and width at least 1, the constant rate factor at most 51, the
/// paths must name a supported conversion, the output must differ from the
/// input and its directory must exist. `input_is_file` tells whether the
/// input path names a file; `output_directory_exists` whether the directory
/// named by `output_directory` exists.
pub fn validate_conversion_request(
    input_path: &str,
    output_path: Option<&str>,
    options: &ConversionOptions,
    input_is_file: bool,
    output_directory_exists: bool,
) -> (res: Result<(), ConversionError>)
    ensures
        unit_result_view(res) == validation_spec(input_path@, opt_str_view(output_path), *options, input_is_file, output_directory_exists),
        output_path is Some || !stem_is_dot(input_path@) ==> !(res matches Err(ConversionError::SameInputAndOutput { .. })),
{
    if !input_is_file {
        return Err(ConversionError::InputNotFound { path: String::from_str(input_path) });
    }
    if options.frames_per_second == 0 {
        return Err(ConversionError::InvalidFramesPerSecond);
    }
    if let Some(0) = options.output_width {
        return Err(ConversionError::InvalidOutputWidth);
    }
    if options.constant_rate_factor > MAX_CONSTANT_RATE_FACTOR {
        return Err(ConversionError::InvalidQuality);
    }
    let resolved = match execute_output_path(input_path, output_path) {
        Ok(r) => r,
        Err(e) => {
            return Err(ConversionError::Media(e));
        },
    };
    if paths_equal(resolved.as_str(), input_path) {
        proof {
            // The output has the target format's extension and the input the
            // source format's, so the two cannot share a file name. Only an
            // input whose stem is `.` escapes this: its inferred output is
            // `..`, of which nothing is known.
            if output_path is Some || !stem_is_dot(input_path@) {
                lemma_format_names_are_lower_case();
                lemma_detected_pairs(input_path@, opt_str_view(output_path));
                match output_path {
                    Some(o) => {
                        lemma_same_format_rejected(input_path@, o@);
                    },
                    None => {},
                }
                assert(false);
            }
        }
        return Err(ConversionError::SameInputAndOutput { path: String::from_str(input_path) });
    }
    match output_directory_of(resolved.as_str()) {
        Some(p) => {
            if output_directory_exists {
                Ok(())
            } else {
                Err(ConversionError::OutputDirectoryNotFound { path: p })
            }
        },
        None => Ok(()),
    }
}

fn push_str(v: &mut Vec<String>, s: &str)
    ensures
        strings_view(*final(v)) == strings_view(*old(v)).push(s@),
{
    let ghost before = strings_view(*v);
    v.push(String::from_str(s));
    assert(strings_view(*v) =~= before.push(s@));
}

/// The FFmpeg arguments that turn the GIF at `input_path` into an MP4 at
/// `output_path`.
pub fn gif_to_mp4_arguments(input_path: &str, output_path: &str, options: &ConversionOptions) -> (res: Vec<String>)
    ensures
        strings_view(res) == gif_to_mp4_arguments_spec(input_path@, output_path@, options.constant_rate_factor),
{
    let mut v: Vec<String> = Vec::new();
    push_str(&mut v, "-y");
    push_str(&mut v, "-i");
    push_str(&mut v, input_path);
    push_str(&mut v, "-an");
    push_str(&mut v, "-vf");
    push_str(&mut v, "scale=trunc(iw/2)*2:trunc(ih/2)*2");
    push_str(&mut v, "-c:v");
    push_str(&mut v, "libx264");
    push_str(&mut v, "-crf");
    let crf = decimal_string(options.constant_rate_factor as u32);
    push_str(&mut v, crf.as_str());
    push_str(&mut v, "-pix_fmt");
    push_str(&mut v, "yuv420p");
    push_str(&mut v, "-movflags");
    push_str(&mut v, "+faststart");
    push_str(&mut v, output_path);
    assert(strings_view(v) =~= gif_to_mp4_arguments_spec(input_path@, output_path@, options.constant_rate_factor));
    v
}

fn gif_scale(output_width: Option<u32>) -> (res: String)
    ensures
        res@ == gif_scale_filter(output_width),
{
    match output_width {
        Some(w) => {
            let mut s = String::from_str("scale=");
            s.append(decimal_string(w).as_str());
            s.append(":-1:flags=lanczos");
            s
        },
        None => String::from_str("scale=iw:-1:flags=lanczos"),
    }
}

/// The FFmpeg arguments that turn the MP4 at `input_path` into a GIF at
/// `output_path`.
pub fn mp4_to_gif_arguments(input_path: &str, output_path: &str, options: &ConversionOptions) -> (res: Vec<String>)
    ensures
        strings_view(res) == mp4_to_gif_arguments_spec(input_path@, output_path@, *options),
{
    let mut graph = String::from_str("[0:v]fps=");
    graph.append(decimal_string(options.frames_per_second).as_str());
    graph.append(",");
    graph.append(gif_scale(options.output_width).as_str());
    graph.append(",split[video_for_palette][video_for_output];[video_for_palette]palettegen=max_colors=256[palette];[video_for_output][palette]paletteuse=dither=sierra2_4a");
    let mut v: Vec<String> = Vec::new();
    push_str(&mut v, "-y");
    push_str(&mut v, "-i");
    push_str(&mut v, input_path);
    push_str(&mut v, "-filter_complex");
    push_str(&mut v, graph.as_str());
    push_str(&mut v, "-an");
    push_str(&mut v, "-loop");
    push_str(&mut v, "0");
    push_str(&mut v, output_path);
    assert(strings_view(v) =~= mp4_to_gif_arguments_spec(input_path@, output_path@, *options));
    v
}

/// Checks a request (see `validate_conversion_request`) and, if it passes,
/// gives the FFmpeg arguments that carry it out.
pub fn convert(
    input_path: &str,
    output_path: Option<&str>,
    options: &ConversionOptions,
    input_is_file: bool,
    output_directory_exists: bool,
) -> (res: Result<Vec<String>, ConversionError>)
    ensures
        arguments_result_view(res) == convert_spec(input_path@, opt_str_view(output_path), *options, input_is_file, output_directory_exists),
        output_path is Some || !stem_is_dot(input_path@) ==> !(res matches Err(ConversionError::SameInputAndOutput { .. })),
{
    validate_conversion_request(input_path, output_path, options, input_is_file, output_directory_exists)?;
    let direction = match detect_conversion_direction(input_path, output_path) {
        Ok(d) => d,
        Err(e) => {
            return Err(ConversionError::Media(e));
        },
    };
    let resolved = match execute_output_path(input_path, output_path) {
        Ok(r) => r,
        Err(e) => {
            return Err(ConversionError::Media(e));
        },
    };
    match direction {
        ConversionDirection::GifToMp4 => Ok(gif_to_mp4_arguments(input_path, resolved.as_str(), options)),
        ConversionDirection::Mp4ToGif => Ok(mp4_to_gif_arguments(input_path, resolved.as_str(), options)),
    }
}

/// An output path that is the input path (as `Path` compares them) is
/// refused, whatever the options.
pub proof fn lemma_same_path_refused(
    input_path: Seq<char>,
    output_path: Seq<char>,
    options: ConversionOptions,
    input_is_file: bool,
    output_directory_exists: bool,
)
    requires
        same_path(output_path, input_path),
    ensures
        validation_spec(input_path, Some(output_path), options, input_is_file, output_directory_exists) is Err,
{
}

/// An output path spelled as the input path is refused, whatever the
/// options; the refusal comes at the latest from the formats, which agree.
pub proof fn lemma_identical_paths_refused(
    path: Seq<char>,
    options: ConversionOptions,
    input_is_file: bool,
    output_directory_exists: bool,
)
    ensures
        validation_spec(path, Some(path), options, input_is_file, output_directory_exists) is Err,
        convert_spec(path, Some(path), options, input_is_file, output_directory_exists) is Err,
{
    lemma_same_format_rejected(path, path);
}

/// An accepted request has an input file, a frame rate and width of at
/// least 1, a constant rate factor of at most 51, a supported direction,
/// and an output directory that exists whenever one has to.
pub proof fn lemma_accepted_request_is_well_formed(
    input_path: Seq<char>,
    output_path: Option<Seq<char>>,
    options: ConversionOptions,
    input_is_file: bool,
    output_directory_exists: bool,
)
    requires
        validation_spec(input_path, output_path, options, input_is_file, output_directory_exists) is Ok,
    ensures
        input_is_file,
        options.frames_per_second >= 1,
        options.output_width != Some(0u32),
        options.constant_rate_factor <= MAX_CONSTANT_RATE_FACTOR,
        detect_spec(input_path, output_path) is Ok,
        output_directory_spec(input_path, output_path) is Some ==> output_directory_exists,
{
}

/// Every accepted request runs FFmpeg with overwriting on, the input right
/// after `-i`, and the resolved output path as the last argument.
pub proof fn lemma_arguments_name_input_and_output(
    input_path: Seq<char>,
    output_path: Option<Seq<char>>,
    options: ConversionOptions,
    input_is_file: bool,
    output_directory_exists: bool,
)
    requires
        convert_spec(input_path, output_path, options, input_is_file, output_directory_exists) is Ok,
    ensures
        resolved_output_spec(input_path, output_path) is Ok,
        ({
            let args = convert_spec(input_path, output_path, options, input_is_file, output_directory_exists)->Ok_0;
            &&& args.len() >= 4
            &&& args[0] == "-y"@
            &&& args[1] == "-i"@
            &&& args[2] == input_path
            &&& args.last() == resolved_output_spec(input_path, output_path)->Ok_0
        }),
{
}

/// Inferring an output twice gives back the input's file name. A file name
/// whose extension is `gif` (or `mp4`), written in lower case, and whose stem
/// is not `.` becomes, by `execute_output_path` without an output, the stem
/// with the target extension; that name is detected in the reverse
/// direction, and inferring again restores the original file name. The
/// parent directory is kept both times (see `execute_output_path`).
pub proof fn lemma_inferring_twice_restores_the_file_name(name: Seq<char>, d: ConversionDirection)
    requires
        extension_of_name(name) == Some(source_extension(d)),
        stem_of_name(name) != seq!['.'],
    ensures
        ({
            let once = stem_of_name(name) + seq!['.'] + target_extension(d);
            &&& extension_of_name(once) == Some(target_extension(d))
            &&& target_extension(d) == source_extension(reversed(d))
            &&& stem_of_name(once) == stem_of_name(name)
            &&& stem_of_name(once) + seq!['.'] + target_extension(reversed(d)) == name
        }),
{
    lemma_format_names_have_no_dot_or_separator();
    lemma_name_splits_at_last_dot(name);
    lemma_stem_of_name_with_extension(name);
    lemma_name_with_extension(stem_of_name(name), target_extension(d));
}

/// The GIF to MP4 arguments carry the request: the input comes right after
/// `-i`, the number after `-crf` is exactly the requested quality (its digits
/// stand for `constant_rate_factor`, whatever its value), and the output is
/// the last argument.
pub proof fn lemma_gif_to_mp4_arguments_carry_the_request(input_path: Seq<char>, output_path: Seq<char>, constant_rate_factor: u8)
    ensures
        ({
            let a = gif_to_mp4_arguments_spec(input_path, output_path, constant_rate_factor);
            &&& a.len() == 15
            &&& a[1] == "-i"@
            &&& a[2] == input_path
            &&& a[8] == "-crf"@
            &&& a[9] == decimal(constant_rate_factor as nat)
            &&& decimal_value(a[9]) == constant_rate_factor
            &&& a[14] == output_path
        }),
{
    lemma_decimal_is_representation(constant_rate_factor as nat);
}

/// The scaling the MP4 to GIF filter graph asks for, written from the
/// requested width: that width with the height following, or the input width.
pub open spec fn requested_scale(output_width: Option<u32>) -> Seq<char> {
    match output_width {
        Some(w) => "scale="@ + decimal(w as nat) + ":-1:flags=lanczos"@,
        None => "scale=iw:-1:flags=lanczos"@,
    }
}

/// The MP4 to GIF arguments carry the request: the input comes right after
/// `-i`, the filter graph starts by resampling to exactly the requested frame
/// rate (whatever the width) and then scales to exactly the requested width
/// (or keeps the input's), the GIF loops forever, and the output is the last
/// argument.
pub proof fn lemma_mp4_to_gif_arguments_carry_the_request(input_path: Seq<char>, output_path: Seq<char>, options: ConversionOptions)
    ensures
        ({
            let a = mp4_to_gif_arguments_spec(input_path, output_path, options);
            let fps = decimal(options.frames_per_second as nat);
            let head = "[0:v]fps="@ + fps + ","@ + requested_scale(options.output_width);
            &&& a.len() == 9
            &&& a[1] == "-i"@
            &&& a[2] == input_path
            &&& a[3] == "-filter_complex"@
            &&& head.len() <= a[4].len()
            &&& a[4].subrange(0, head.len() as int) == head
            &&& decimal_value(fps) == options.frames_per_second
            &&& (options.output_width matches Some(w) ==> decimal_value(decimal(w as nat)) == w)
            &&& a[6] == "-loop"@
            &&& a[7] == "0"@
            &&& a[8] == output_path
        }),
{
    lemma_decimal_is_representation(options.frames_per_second as nat);
    if let Some(w) = options.output_width {
        lemma_decimal_is_representation(w as nat);
    }
    let a = mp4_to_gif_arguments_spec(input_path, output_path, options);
    let fps = decimal(options.frames_per_second as nat);
    let head = "[0:v]fps="@ + fps + ","@ + requested_scale(options.output_width);
    let tail = ",split[video_for_palette][video_for_output];[video_for_palette]palettegen=max_colors=256[palette];[video_for_output][palette]paletteuse=dither=sierra2_4a"@;
    assert(gif_scale_filter(options.output_width) == requested_scale(options.output_width));
    assert(a[4] == head + tail);
    assert((head + tail).subrange(0, head.len() as int) =~= head);
}

/// A request is carried out exactly when it passes the checks, and is
/// refused with the same error otherwise.
pub proof fn lemma_convert_accepts_exactly_the_valid_requests(
    input_path: Seq<char>,
    output_path: Option<Seq<char>>,
    options: ConversionOptions,
    input_is_file: bool,
    output_directory_exists: bool,
)
    ensures
        convert_spec(input_path, output_path, options, input_is_file, output_directory_exists) is Ok
            <==> validation_spec(input_path, output_path, options, input_is_file, output_directory_exists) is Ok,
        validation_spec(input_path, output_path, options, input_is_file, output_directory_exists) is Err ==>
            convert_spec(input_path, output_path, options, input_is_file, output_directory_exists)->Err_0
                == validation_spec(input_path, output_path, options, input_is_file, output_directory_exists)->Err_0,
{
}

/// An accepted request is carried out with the caller's own options: the
/// input after `-i`, the output path (the given one, if any) last, and for
/// GIF to MP4 the requested quality after `-crf`, for MP4 to GIF the
/// requested frame rate and width at the head of the filter graph.
pub proof fn lemma_convert_uses_the_requested_options(
    input_path: Seq<char>,
    output_path: Option<Seq<char>>,
    options: ConversionOptions,
    input_is_file: bool,
    output_directory_exists: bool,
)
    requires
        convert_spec(input_path, output_path, options, input_is_file, output_directory_exists) is Ok,
    ensures
        ({
            let a = convert_spec(input_path, output_path, options, input_is_file, output_directory_exists)->Ok_0;
            let d = detect_spec(input_path, output_path)->Ok_0;
            let r = resolved_output_spec(input_path, output_path)->Ok_0;
            &&& detect_spec(input_path, output_path) is Ok
            &&& resolved_output_spec(input_path, output_path) is Ok
            &&& (output_path matches Some(o) ==> r == o)
            &&& a.len() > 2
            &&& a[1] == "-i"@
            &&& a[2] == input_path
            &&& a.last() == r
            &&& (d == ConversionDirection::GifToMp4 ==> {
                &&& a.len() == 15
                &&& a[8] == "-crf"@
                &&& a[9] == decimal(options.constant_rate_factor as nat)
                &&& decimal_value(a[9]) == options.constant_rate_factor
            })
            &&& (d == ConversionDirection::Mp4ToGif ==> {
                let head = "[0:v]fps="@ + decimal(options.frames_per_second as nat) + ","@ + requested_scale(options.output_width);
                &&& a.len() == 9
                &&& a[3] == "-filter_complex"@
                &&& head.len() <= a[4].len()
                &&& a[4].subrange(0, head.len() as int) == head
            })
        }),
{
    let r = resolved_output_spec(input_path, output_path)->Ok_0;
    lemma_gif_to_mp4_arguments_carry_the_request(input_path, r, options.constant_rate_factor);
    lemma_mp4_to_gif_arguments_carry_the_request(input_path, r, options);
}

/// The checks refuse nothing else: a request whose input is a file, whose
/// frame rate and width are at least 1, whose quality is at most 51, whose
/// paths name a supported conversion, whose output is not the input, and
/// whose output's parent is missing, empty or an existing directory, is
/// accepted; and only such requests are.
pub proof fn lemma_valid_requests_are_accepted(
    input_path: Seq<char>,
    output_path: Option<Seq<char>>,
    options: ConversionOptions,
    input_is_file: bool,
    output_directory_exists: bool,
)
    ensures
        validation_spec(input_path, output_path, options, input_is_file, output_directory_exists) is Ok <==> {
            &&& input_is_file
            &&& options.frames_per_second >= 1
            &&& options.output_width != Some(0u32)
            &&& options.constant_rate_factor <= 51
            &&& detect_spec(input_path, output_path) is Ok
            &&& !same_path(resolved_output_spec(input_path, output_path)->Ok_0, input_path)
            &&& ({
                let parent = parent_of(resolved_output_spec(input_path, output_path)->Ok_0);
                parent is None || parent.unwrap().len() == 0 || output_directory_exists
            })
        },
{
}

/// Every non-empty parent of the resolved output is the directory checked,
/// and nothing else is: the directory to check is the output's parent
/// exactly when that parent exists and is not empty.
pub proof fn lemma_every_nonempty_parent_is_checked(input_path: Seq<char>, output_path: Option<Seq<char>>)
    ensures
        output_directory_spec(input_path, output_path) is Some <==> ({
            let r = resolved_output_spec(input_path, output_path);
            &&& r is Ok
            &&& parent_of(r->Ok_0) is Some
            &&& parent_of(r->Ok_0).unwrap().len() > 0
        }),
        output_directory_spec(input_path, output_path) is Some ==> output_directory_spec(input_path, output_path)
            == parent_of(resolved_output_spec(input_path, output_path)->Ok_0),
{
}

/// A request that passes every other check but whose output's non-empty
/// parent does not exist is refused, naming that parent.
pub proof fn lemma_missing_output_directory_is_reported(
    input_path: Seq<char>,
    output_path: Option<Seq<char>>,
    options: ConversionOptions,
    input_is_file: bool,
)
    requires
        input_is_file,
        options.frames_per_second >= 1,
        options.output_width != Some(0u32),
        options.constant_rate_factor <= 51,
        resolved_output_spec(input_path, output_path) is Ok,
        !same_path(resolved_output_spec(input_path, output_path)->Ok_0, input_path),
        parent_of(resolved_output_spec(input_path, output_path)->Ok_0) is Some,
        parent_of(resolved_output_spec(input_path, output_path)->Ok_0).unwrap().len() > 0,
    ensures
        validation_spec(input_path, output_path, options, input_is_file, false)
            == Err::<(), ConversionFailure>(ConversionFailure::OutputDirectoryNotFound(
                parent_of(resolved_output_spec(input_path, output_path)->Ok_0).unwrap(),
            )),
{
}

} // verus!
