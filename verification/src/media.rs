//! Which way a conversion goes, decided from the extensions of the input and
//! output paths.

use vstd::prelude::*;
use crate::paths::{extension, extension_of, opt_view};
use crate::text::{
    ascii_lower, ascii_lower_char, debug_path, debug_text_of, str_eq, to_ascii_lowercase,
};

verus! {

/// The two conversions the tool performs.
#[derive(Debug, Clone, Copy, PartialEq, Eq, Structural)]
pub enum ConversionDirection {
    GifToMp4,
    Mp4ToGif,
}

/// Why no conversion direction could be decided.
#[derive(Debug, PartialEq, Eq)]
pub enum MediaError {
    /// The input path has no extension.
    InputWithoutExtension { path: String },
    /// The output path has no extension.
    OutputWithoutExtension { path: String },
    /// The (lower-cased) extensions name no supported conversion.
    UnsupportedDirection { input_extension: String, output_extension: String },
}

/// The model of a `MediaError`.
pub enum MediaFailure {
    InputWithoutExtension(Seq<char>),
    OutputWithoutExtension(Seq<char>),
    UnsupportedDirection(Seq<char>, Seq<char>),
}

impl View for MediaError {
    type V = MediaFailure;

    open spec fn view(&self) -> MediaFailure {
        match self {
            MediaError::InputWithoutExtension { path } => MediaFailure::InputWithoutExtension(path@),
            MediaError::OutputWithoutExtension { path } => MediaFailure::OutputWithoutExtension(path@),
            MediaError::UnsupportedDirection { input_extension, output_extension } =>
                MediaFailure::UnsupportedDirection(input_extension@, output_extension@),
        }
    }
}

/// The text of a failure, as the tool reports it.
pub open spec fn media_message(f: MediaFailure) -> Seq<char> {
    match f {
        MediaFailure::InputWithoutExtension(p) => "Failed to normalize input path: "@ + debug_text_of(p),
        MediaFailure::OutputWithoutExtension(p) => "Failed to normalize output path: "@ + debug_text_of(p),
        MediaFailure::UnsupportedDirection(i, o) =>
            "Unsupported conversion direction: input extension: "@ + i + ", output extension: "@ + o,
    }
}

impl MediaError {
    /// The error's text.
    pub fn message(&self) -> (res: String)
        ensures
            res@ == media_message(self@),
    {
        match self {
            MediaError::InputWithoutExtension { path } => {
                let mut s = String::from_str("Failed to normalize input path: ");
                s.append(debug_path(path.as_str()).as_str());
                s
            },
            MediaError::OutputWithoutExtension { path } => {
                let mut s = String::from_str("Failed to normalize output path: ");
                s.append(debug_path(path.as_str()).as_str());
                s
            },
            MediaError::UnsupportedDirection { input_extension, output_extension } => {
                let mut s = String::from_str("Unsupported conversion direction: input extension: ");
                s.append(input_extension.as_str());
                s.append(", output extension: ");
                s.append(output_extension.as_str());
                s
            },
        }
    }
}

/// The underlying reason reported beneath a failure's text, if it has one:
/// a missing extension is explained as such (for either path).
pub open spec fn media_cause(f: MediaFailure) -> Option<Seq<char>> {
    match f {
        MediaFailure::UnsupportedDirection(_, _) => None,
        _ => Some("There is no extension in the input file path"@),
    }
}

impl MediaError {
    /// The underlying reason beneath the error's text, if it has one.
    pub fn cause(&self) -> (res: Option<String>)
        ensures
            opt_view(res) == media_cause(self@),
    {
        match self {
            MediaError::UnsupportedDirection { .. } => None,
            _ => Some(String::from_str("There is no extension in the input file path")),
        }
    }
}

/// The model of a direction result.
pub open spec fn direction_result_view(r: Result<ConversionDirection, MediaError>) -> Result<ConversionDirection, MediaFailure> {
    match r {
        Ok(d) => Ok(d),
        Err(e) => Err(e@),
    }
}

/// The lower-case GIF extension.
pub open spec fn gif() -> Seq<char> {
    seq!['g', 'i', 'f']
}

/// The lower-case MP4 extension.
pub open spec fn mp4() -> Seq<char> {
    seq!['m', 'p', '4']
}

/// The lower-case extension of a path, if it has one.
pub open spec fn normalized_extension(path: Seq<char>) -> Option<Seq<char>> {
    match extension_of(path) {
        Some(e) => Some(ascii_lower(e)),
        None => None,
    }
}

/// The supported pairs of lower-case extensions: GIF to MP4 and MP4 to GIF.
/// `None` stands for an omitted output path, whose format follows the input.
pub open spec fn direction_of(input_extension: Seq<char>, output_extension: Option<Seq<char>>) -> Option<ConversionDirection> {
    if input_extension == gif() && (output_extension == Some(mp4()) || output_extension is None) {
        Some(ConversionDirection::GifToMp4)
    } else if input_extension == mp4() && (output_extension == Some(gif()) || output_extension is None) {
        Some(ConversionDirection::Mp4ToGif)
    } else {
        None
    }
}

/// The output extension a failure names: empty for an omitted output.
pub open spec fn reported_extension(output_extension: Option<Seq<char>>) -> Seq<char> {
    match output_extension {
        Some(e) => e,
        None => Seq::empty(),
    }
}

/// The decision on two lower-case extensions.
pub open spec fn direction_spec(input_extension: Seq<char>, output_extension: Option<Seq<char>>) -> Result<ConversionDirection, MediaFailure> {
    match direction_of(input_extension, output_extension) {
        Some(d) => Ok(d),
        None => Err(MediaFailure::UnsupportedDirection(input_extension, reported_extension(output_extension))),
    }
}

/// The decision on an input path and an optional output path.
pub open spec fn detect_spec(input_path: Seq<char>, output_path: Option<Seq<char>>) -> Result<ConversionDirection, MediaFailure> {
    match normalized_extension(input_path) {
        None => Err(MediaFailure::InputWithoutExtension(input_path)),
        Some(i) => match output_path {
            None => direction_spec(i, None),
            Some(o) => match normalized_extension(o) {
                None => Err(MediaFailure::OutputWithoutExtension(o)),
                Some(e) => direction_spec(i, Some(e)),
            },
        },
    }
}

/// The model of an optional `&str`.
pub open spec fn opt_str_view(o: Option<&str>) -> Option<Seq<char>> {
    match o {
        Some(s) => Some(s@),
        None => None,
    }
}

/// The extension of `path`, lower-cased; `None` when the path has none.
pub fn normalize_path(path: &str) -> (res: Option<String>)
    ensures
        opt_view(res) == normalized_extension(path@),
{
    match extension(path) {
        Some(e) => Some(to_ascii_lowercase(e.as_str())),
        None => None,
    }
}

/// The direction named by the lower-case extension of the input and that
/// of the output, `None` when no output path is given.
pub fn direction_for_extensions(input_extension: &str, output_extension: Option<&str>) -> (res: Result<ConversionDirection, MediaError>)
    ensures
        direction_result_view(res) == direction_spec(input_extension@, opt_str_view(output_extension)),
{
    proof {
        reveal_strlit("gif");
        reveal_strlit("mp4");
        assert("gif"@ =~= gif());
        assert("mp4"@ =~= mp4());
    }
    let input_gif = str_eq(input_extension, "gif");
    let input_mp4 = str_eq(input_extension, "mp4");
    let (output_gif, output_mp4, omitted) = match output_extension {
        Some(e) => (str_eq(e, "gif"), str_eq(e, "mp4"), false),
        None => (false, false, true),
    };
    if input_gif && (output_mp4 || omitted) {
        Ok(ConversionDirection::GifToMp4)
    } else if input_mp4 && (output_gif || omitted) {
        Ok(ConversionDirection::Mp4ToGif)
    } else {
        let reported = match output_extension {
            Some(e) => String::from_str(e),
            None => String::new(),
        };
        Err(MediaError::UnsupportedDirection {
            input_extension: String::from_str(input_extension),
            output_extension: reported,
        })
    }
}

/// Decides the conversion from the extensions of the input path and of the
/// output path, compared without regard to ASCII case. An omitted output path
/// leaves the choice to the input: GIF goes to MP4, MP4 to GIF.
pub fn detect_conversion_direction(input_path: &str, output_path: Option<&str>) -> (res: Result<ConversionDirection, MediaError>)
    ensures
        direction_result_view(res) == detect_spec(input_path@, opt_str_view(output_path)),
{
    let input_extension = match normalize_path(input_path) {
        Some(e) => e,
        None => {
            return Err(MediaError::InputWithoutExtension { path: String::from_str(input_path) });
        },
    };
    let output_extension = match output_path {
        Some(path) => match normalize_path(path) {
            Some(e) => Some(e),
            None => {
                return Err(MediaError::OutputWithoutExtension { path: String::from_str(path) });
            },
        },
        None => None,
    };
    match output_extension {
        Some(e) => direction_for_extensions(input_extension.as_str(), Some(e.as_str())),
        None => direction_for_extensions(input_extension.as_str(), None),
    }
}

/// A character lower-cases to a given small letter exactly when it is that
/// letter or its capital.
proof fn lemma_lower_char_is(c: char, small: char, capital: char)
    requires
        'a' <= small && small <= 'z',
        (capital as u32) + 32 == small as u32,
    ensures
        ascii_lower_char(c) == small <==> (c == small || c == capital),
{
    if 'A' <= c && c <= 'Z' {
        assert(ascii_lower_char(c) as u32 == (c as u32) + 32);
    }
}

/// A digit lower-cases only to itself.
proof fn lemma_lower_char_is_digit(c: char, digit: char)
    requires
        '0' <= digit && digit <= '9',
    ensures
        ascii_lower_char(c) == digit <==> c == digit,
{
    if 'A' <= c && c <= 'Z' {
        assert(ascii_lower_char(c) as u32 == (c as u32) + 32);
    }
}

/// An extension names GIF, whatever the ASCII case of its letters, exactly
/// when it is `g`, `i`, `f`, each in either case.
pub proof fn lemma_gif_extension_in_any_case(e: Seq<char>)
    ensures
        ascii_lower(e) == gif() <==> (e.len() == 3 && (e[0] == 'g' || e[0] == 'G') && (e[1] == 'i' || e[1] == 'I')
            && (e[2] == 'f' || e[2] == 'F')),
{
    if e.len() == 3 {
        lemma_lower_char_is(e[0], 'g', 'G');
        lemma_lower_char_is(e[1], 'i', 'I');
        lemma_lower_char_is(e[2], 'f', 'F');
        if (e[0] == 'g' || e[0] == 'G') && (e[1] == 'i' || e[1] == 'I') && (e[2] == 'f' || e[2] == 'F') {
            assert(ascii_lower(e) =~= gif());
        }
        if ascii_lower(e) == gif() {
            assert(ascii_lower(e)[0] == 'g');
            assert(ascii_lower(e)[1] == 'i');
            assert(ascii_lower(e)[2] == 'f');
        }
    } else {
        assert(ascii_lower(e).len() != gif().len());
    }
}

/// An extension names MP4, whatever the ASCII case of its letters, exactly
/// when it is `m`, `p`, `4`, each letter in either case.
pub proof fn lemma_mp4_extension_in_any_case(e: Seq<char>)
    ensures
        ascii_lower(e) == mp4() <==> (e.len() == 3 && (e[0] == 'm' || e[0] == 'M') && (e[1] == 'p' || e[1] == 'P')
            && e[2] == '4'),
{
    if e.len() == 3 {
        lemma_lower_char_is(e[0], 'm', 'M');
        lemma_lower_char_is(e[1], 'p', 'P');
        lemma_lower_char_is_digit(e[2], '4');
        if (e[0] == 'm' || e[0] == 'M') && (e[1] == 'p' || e[1] == 'P') && e[2] == '4' {
            assert(ascii_lower(e) =~= mp4());
        }
        if ascii_lower(e) == mp4() {
            assert(ascii_lower(e)[0] == 'm');
            assert(ascii_lower(e)[1] == 'p');
            assert(ascii_lower(e)[2] == '4');
        }
    } else {
        assert(ascii_lower(e).len() != mp4().len());
    }
}

/// The lower-case names of the two formats are their own lower-case forms.
pub proof fn lemma_format_names_are_lower_case()
    ensures
        ascii_lower(gif()) == gif(),
        ascii_lower(mp4()) == mp4(),
        gif() != mp4(),
{
    assert(ascii_lower(gif()) =~= gif());
    assert(ascii_lower(mp4()) =~= mp4());
    assert(gif()[0] != mp4()[0]);
}

/// Whether two optional paths are both omitted, or both given with the same
/// extension but for ASCII case (or both without one).
pub open spec fn same_output_format(a: Option<Seq<char>>, b: Option<Seq<char>>) -> bool {
    match (a, b) {
        (None, None) => true,
        (Some(x), Some(y)) => normalized_extension(x) == normalized_extension(y),
        _ => false,
    }
}

/// Changing the ASCII case of the extensions changes no decision: inputs
/// whose extensions agree but for ASCII case (or which both lack one), with
/// outputs that agree in the same way, are accepted or refused alike, get the
/// same direction when accepted, and the same refusal when the extensions do
/// not fit.
pub proof fn lemma_detection_ignores_ascii_case(
    input_path: Seq<char>,
    other_input_path: Seq<char>,
    output_path: Option<Seq<char>>,
    other_output_path: Option<Seq<char>>,
)
    requires
        normalized_extension(input_path) == normalized_extension(other_input_path),
        same_output_format(output_path, other_output_path),
    ensures
        detect_spec(input_path, output_path) is Ok <==> detect_spec(other_input_path, other_output_path) is Ok,
        detect_spec(input_path, output_path) is Ok ==> detect_spec(input_path, output_path) == detect_spec(other_input_path, other_output_path),
        detect_spec(input_path, output_path) matches Err(MediaFailure::UnsupportedDirection(_, _))
            ==> detect_spec(input_path, output_path) == detect_spec(other_input_path, other_output_path),
{
}

/// A conversion into the input's own format is refused: when the output's
/// extension is the input's but for ASCII case, detection fails.
pub proof fn lemma_same_format_rejected(input_path: Seq<char>, output_path: Seq<char>)
    requires
        normalized_extension(input_path) == normalized_extension(output_path),
    ensures
        detect_spec(input_path, Some(output_path)) is Err,
{
    lemma_format_names_are_lower_case();
}

/// Without an output path, a GIF input goes to MP4, an MP4 input to GIF, and
/// any other input is refused.
pub proof fn lemma_omitted_output_follows_input(input_path: Seq<char>)
    ensures
        normalized_extension(input_path) == Some(gif()) ==> detect_spec(input_path, None) == Ok::<ConversionDirection, MediaFailure>(ConversionDirection::GifToMp4),
        normalized_extension(input_path) == Some(mp4()) ==> detect_spec(input_path, None) == Ok::<ConversionDirection, MediaFailure>(ConversionDirection::Mp4ToGif),
        normalized_extension(input_path) != Some(gif()) && normalized_extension(input_path) != Some(mp4())
            ==> detect_spec(input_path, None) is Err,
{
    lemma_format_names_are_lower_case();
}

/// A detected direction is one of the two supported pairs: the input's
/// lower-case extension is the source format, and a given output's is the
/// target format.
pub proof fn lemma_detected_pairs(input_path: Seq<char>, output_path: Option<Seq<char>>)
    ensures
        detect_spec(input_path, output_path) == Ok::<ConversionDirection, MediaFailure>(ConversionDirection::GifToMp4) ==> {
            &&& normalized_extension(input_path) == Some(gif())
            &&& (output_path is Some ==> normalized_extension(output_path.unwrap()) == Some(mp4()))
        },
        detect_spec(input_path, output_path) == Ok::<ConversionDirection, MediaFailure>(ConversionDirection::Mp4ToGif) ==> {
            &&& normalized_extension(input_path) == Some(mp4())
            &&& (output_path is Some ==> normalized_extension(output_path.unwrap()) == Some(gif()))
        },
{
}

} // verus!
