//! Capture pipeline of a recording tool: the session state machine, the
//! consumer that records sample blocks and keeps the analysis window, the
//! integer plan of the frequency-band analyzer, and the helpers that name the
//! files of a session.
mod bands;
mod config;
mod paths;
mod recorder;
mod session;
mod stamp;
mod transcript;
mod window;

pub use bands::{
    band_ranges, frequency_bin, plan_bands, AnalysisError, BandPlan, BandRange, FFT_SIZE,
    MAX_BIN, MAX_FREQUENCY, MIN_FREQUENCY,
};
pub use config::{
    config_file, Config, CONFIG_DIR_NAME, CONFIG_FILE_NAME, DEFAULT_FREQUENCY_BARS, DEFAULT_MODEL,
    DEFAULT_QUALITY,
};
pub use paths::{
    join_path, recording_file, session_dir, transcript_file, whisper_file, RECORDING_FILE,
    TRANSCRIPT_FILE, WHISPER_FILE,
};
pub use recorder::Recorder;
pub use session::{
    Action, CaptureError, CaptureSession, Event, OutputFormat, Phase, recording_format,
};
pub use stamp::Timestamp;
pub use transcript::{
    mixdown_for, model_download_url, model_file_name, model_path, needs_resampling,
    transcript_text, whisper_format, Mixdown, PreprocessError, MODELS_DIR, MODEL_EXTENSION,
    MODEL_URL_PREFIX, WHISPER_SAMPLE_RATE,
};
pub use window::RollingWindow;
