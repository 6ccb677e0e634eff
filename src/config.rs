use crate::paths::{join_path, spec_join_path};
use vstd::prelude::*;
use vstd::string::StringExecFns;

verus! {

/// The model used when none is configured.
pub const DEFAULT_MODEL: &'static str = "base.en";

/// The audio quality used when none is configured.
pub const DEFAULT_QUALITY: &'static str = "high";

/// The number of visualization bands used when none is configured.
pub const DEFAULT_FREQUENCY_BARS: usize = 16;

/// The directory, under the user's configuration directory, that holds the
/// configuration file.
pub const CONFIG_DIR_NAME: &'static str = "openwhisper";

/// The name of the configuration file.
pub const CONFIG_FILE_NAME: &'static str = "config.toml";

/// The settings the recorder reads: where recordings go, which model
/// transcribes them, and how many bands the level display shows.
#[derive(Clone, Debug)]
pub struct Config {
    pub recording_dir: String,
    pub model_name: String,
    pub audio_quality: String,
    pub model_weights_path: String,
    pub frequency_bars: usize,
}

impl Config {
    /// The default settings for a user whose home directory is `home`:
    /// recordings under `home/recordings`, model weights under
    /// `home/recordings/models`.
    pub fn with_home(home: &str) -> (c: Config)
        ensures
            c.recording_dir@ == home@ + "/recordings"@,
            c.model_name@ == DEFAULT_MODEL@,
            c.audio_quality@ == DEFAULT_QUALITY@,
            c.model_weights_path@ == home@ + "/recordings/models"@,
            c.frequency_bars == DEFAULT_FREQUENCY_BARS,
    {
        let mut recording_dir = String::from_str(home);
        recording_dir.append("/recordings");
        let mut model_weights_path = String::from_str(home);
        model_weights_path.append("/recordings/models");
        Config {
            recording_dir,
            model_name: String::from_str(DEFAULT_MODEL),
            audio_quality: String::from_str(DEFAULT_QUALITY),
            model_weights_path,
            frequency_bars: DEFAULT_FREQUENCY_BARS,
        }
    }
}

/// The configuration file under the user's configuration directory.
pub fn config_file(config_dir: &str) -> (r: String)
    ensures
        r@ == spec_join_path(spec_join_path(config_dir@, CONFIG_DIR_NAME@), CONFIG_FILE_NAME@),
{
    let dir = join_path(config_dir, CONFIG_DIR_NAME);
    join_path(dir.as_str(), CONFIG_FILE_NAME)
}

} // verus!
