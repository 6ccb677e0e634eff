use crate::paths::{join_path, spec_join_path};
use crate::session::OutputFormat;
use vstd::prelude::*;
use vstd::string::StringExecFns;

verus! {

/// The sample rate the transcriber expects.
pub const WHISPER_SAMPLE_RATE: u32 = 16000;

/// Where the model files are published; a model's file is
/// `ggml-<name>.bin` under it.
pub const MODEL_URL_PREFIX: &'static str = "https://huggingface.co/ggerganov/whisper.cpp/resolve/main/ggml-";

/// The extension of a model file.
pub const MODEL_EXTENSION: &'static str = ".bin";

/// The directory, under the working directory, that holds the models.
pub const MODELS_DIR: &'static str = "models";

/// The file name of a model: its name with `.bin` appended.
pub fn model_file_name(model_name: &str) -> (r: String)
    ensures
        r@ == model_name@ + MODEL_EXTENSION@,
{
    let mut r = String::from_str(model_name);
    r.append(MODEL_EXTENSION);
    r
}

/// Where a model is kept: `models/<name>.bin` under `base_dir`.
pub fn model_path(base_dir: &str, model_name: &str) -> (r: String)
    ensures
        r@ == spec_join_path(spec_join_path(base_dir@, MODELS_DIR@), model_name@ + MODEL_EXTENSION@),
{
    let dir = join_path(base_dir, MODELS_DIR);
    let file = model_file_name(model_name);
    join_path(dir.as_str(), file.as_str())
}

/// Where a model can be downloaded from.
pub fn model_download_url(model_name: &str) -> (r: String)
    ensures
        r@ == MODEL_URL_PREFIX@ + model_name@ + MODEL_EXTENSION@,
{
    let mut r = String::from_str(MODEL_URL_PREFIX);
    r.append(model_name);
    r.append(MODEL_EXTENSION);
    r
}

/// How a recording is brought down to one channel.
#[derive(Clone, Copy, Debug, PartialEq, Eq, Structural)]
pub enum Mixdown {
    /// One channel: taken as it is.
    Mono,
    /// Two channels: each frame's pair is mixed into one sample.
    Stereo,
}

/// Why a recording cannot be prepared for the transcriber.
#[derive(Clone, Copy, Debug, PartialEq, Eq, Structural)]
pub enum PreprocessError {
    /// Only one or two channels can be mixed down.
    UnsupportedChannels(u16),
}

/// The mixdown for a recording of `channels` channels.
pub fn mixdown_for(channels: u16) -> (r: Result<Mixdown, PreprocessError>)
    ensures
        channels == 1 ==> r == Ok::<Mixdown, PreprocessError>(Mixdown::Mono),
        channels == 2 ==> r == Ok::<Mixdown, PreprocessError>(Mixdown::Stereo),
        channels != 1 && channels != 2 ==> r == Err::<Mixdown, PreprocessError>(
            PreprocessError::UnsupportedChannels(channels),
        ),
{
    if channels == 1 {
        Ok(Mixdown::Mono)
    } else if channels == 2 {
        Ok(Mixdown::Stereo)
    } else {
        Err(PreprocessError::UnsupportedChannels(channels))
    }
}

/// Whether a recording at `sample_rate` must be resampled for the transcriber.
pub fn needs_resampling(sample_rate: u32) -> (b: bool)
    ensures
        b == (sample_rate != WHISPER_SAMPLE_RATE),
{
    sample_rate != WHISPER_SAMPLE_RATE
}

/// The format of the copy handed to the transcriber: one channel at its
/// rate, 16-bit integer samples.
pub fn whisper_format() -> (f: OutputFormat)
    ensures
        f == (OutputFormat {
            channels: 1,
            sample_rate: WHISPER_SAMPLE_RATE,
            bits_per_sample: 16,
            float_samples: false,
        }),
{
    OutputFormat {
        channels: 1,
        sample_rate: WHISPER_SAMPLE_RATE,
        bits_per_sample: 16,
        float_samples: false,
    }
}

/// The text that segment `i` of `n` adds: its text and, unless it is the
/// last, a space; nothing for a segment that could not be read.
pub open spec fn segment_piece(seg: Option<String>, i: int, n: int) -> Seq<char> {
    match seg {
        Some(s) => if i < n - 1 {
            s@ + seq![' ']
        } else {
            s@
        },
        None => Seq::empty(),
    }
}

/// The pieces of the first `k` of the segments, in order.
pub open spec fn joined_prefix(segs: Seq<Option<String>>, k: nat) -> Seq<char>
    decreases k,
{
    if k == 0 {
        Seq::empty()
    } else {
        joined_prefix(segs, (k - 1) as nat) + segment_piece(
            segs[k - 1],
            k - 1,
            segs.len() as int,
        )
    }
}

/// The segments' texts, in order, with a space after each but the last.
pub open spec fn joined_segments(segs: Seq<Option<String>>) -> Seq<char> {
    joined_prefix(segs, segs.len())
}

/// Whether `c` is white space in the sense of Unicode's `White_Space`
/// property.
pub open spec fn is_white_space(c: char) -> bool {
    let u = c as u32;
    (0x9 <= u <= 0xd) || u == 0x20 || u == 0x85 || u == 0xa0 || u == 0x1680 || (0x2000 <= u
        <= 0x200a) || u == 0x2028 || u == 0x2029 || u == 0x202f || u == 0x205f || u == 0x3000
}

/// Whether `r` is `s` with its leading and trailing white space removed.
pub open spec fn is_trim_of(r: Seq<char>, s: Seq<char>) -> bool {
    exists|i: int, j: int|
        0 <= i <= j <= s.len() && r == s.subrange(i, j) && (forall|k: int|
            0 <= k < i ==> is_white_space(#[trigger] s[k])) && (forall|k: int|
            j <= k < s.len() ==> is_white_space(#[trigger] s[k])) && (i < j ==> !is_white_space(
            s[i],
        ) && !is_white_space(s[j - 1]))
}

/// Relies on `str::trim`: it removes the leading and trailing characters
/// that have Unicode's `White_Space` property, and nothing else.
#[verifier::external_body]
fn trim_white_space(s: &str) -> (r: String)
    ensures
        is_trim_of(r@, s@),
{
    s.trim().to_string()
}

/// The transcript of a session from its segments: their texts joined by
/// spaces, with white space trimmed from both ends.
pub fn transcript_text(segments: &Vec<Option<String>>) -> (r: String)
    ensures
        is_trim_of(r@, joined_segments(segments@)),
{
    let n = segments.len();
    let mut text = String::new();
    let mut i: usize = 0;
    while i < n
        invariant
            n == segments@.len(),
            i <= n,
            text@ == joined_prefix(segments@, i as nat),
        decreases n - i,
    {
        match &segments[i] {
            Some(s) => {
                text.append(s.as_str());
                if i < n - 1 {
                    let sep = " ";
                    proof {
                        reveal_strlit(" ");
                    }
                    text.append(sep);
                }
            },
            None => {},
        }
        proof {
            assert(text@ =~= joined_prefix(segments@, (i + 1) as nat));
        }
        i = i + 1;
    }
    trim_white_space(text.as_str())
}

} // verus!
