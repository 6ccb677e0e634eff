use vstd::prelude::*;
use vstd::string::{StrSliceExecFns, StringExecFns};

verus! {

/// `name` placed under the directory `base`: a `/` goes between the two
/// unless `base` is empty or already ends with one.
pub open spec fn spec_join_path(base: Seq<char>, name: Seq<char>) -> Seq<char> {
    if base.len() == 0 {
        name
    } else if base.last() == '/' {
        base + name
    } else {
        base + seq!['/'] + name
    }
}

/// Places `name` under the directory `base`.
pub fn join_path(base: &str, name: &str) -> (r: String)
    ensures
        r@ == spec_join_path(base@, name@),
{
    let n = base.unicode_len();
    if n == 0 {
        return String::from_str(name);
    }
    let mut r = String::from_str(base);
    if base.get_char(n - 1) != '/' {
        let sep = "/";
        proof {
            reveal_strlit("/");
        }
        r.append(sep);
    }
    r.append(name);
    proof {
        if base@.last() != '/' {
            assert(r@ =~= base@ + seq!['/'] + name@);
        }
    }
    r
}

/// The name of the recording file in a session directory.
pub const RECORDING_FILE: &'static str = "high-quality.wav";

/// The name of the resampled copy handed to the transcriber.
pub const WHISPER_FILE: &'static str = "whisper.wav";

/// The name of the transcript in a session directory.
pub const TRANSCRIPT_FILE: &'static str = "transcription.md";

/// The directory of one session: the session's name under the recordings
/// directory.
pub fn session_dir(recording_dir: &str, session_name: &str) -> (r: String)
    ensures
        r@ == spec_join_path(recording_dir@, session_name@),
{
    join_path(recording_dir, session_name)
}

/// The recording file of a session.
pub fn recording_file(session_dir: &str) -> (r: String)
    ensures
        r@ == spec_join_path(session_dir@, RECORDING_FILE@),
{
    join_path(session_dir, RECORDING_FILE)
}

/// The resampled copy of a session's recording.
pub fn whisper_file(session_dir: &str) -> (r: String)
    ensures
        r@ == spec_join_path(session_dir@, WHISPER_FILE@),
{
    join_path(session_dir, WHISPER_FILE)
}

/// The transcript of a session.
pub fn transcript_file(session_dir: &str) -> (r: String)
    ensures
        r@ == spec_join_path(session_dir@, TRANSCRIPT_FILE@),
{
    join_path(session_dir, TRANSCRIPT_FILE)
}

} // verus!
