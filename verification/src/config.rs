//! The configuration of a harness process, fixed but for the snapshot's name.

use vstd::prelude::*;
use vstd::string::StringExecFns;
use crate::channel::MAX_INPUT_SIZE;
use crate::snapshot::{ConfigError, SnapshotHandle};

verus! {

/// The plain values of a configuration.
pub struct ConfigView {
    /// Which CPUs the workers are pinned to, as a list of cores.
    pub cores: Seq<char>,
    /// Wall-clock bound of one iteration, in seconds.
    pub timeout_secs: u64,
    /// Port on which the broker listens.
    pub broker_port: u16,
    /// Directory of the initial seeds.
    pub corpus_dir: Seq<char>,
    /// Directory in which the inputs that gave an objective are kept.
    pub objective_dir: Seq<char>,
    /// File that holds the dictionary of tokens.
    pub tokens_file: Seq<char>,
    /// Capacity of the input channel, in bytes.
    pub input_capacity: usize,
    /// Name of the baseline snapshot.
    pub baseline: Seq<char>,
}

impl ConfigView {
    /// The fixed configuration with the baseline snapshot `baseline`.
    pub open spec fn fixed(baseline: Seq<char>) -> ConfigView {
        ConfigView {
            cores: "1"@,
            timeout_secs: 5,
            broker_port: 1337,
            corpus_dir: "./corpus"@,
            objective_dir: "./crashes"@,
            tokens_file: "./tokens/test.dict"@,
            input_capacity: MAX_INPUT_SIZE,
            baseline,
        }
    }
}

/// The configuration of a harness process.
#[derive(Debug)]
pub struct HarnessConfig {
    /// Which CPUs the workers are pinned to, as a list of cores.
    pub cores: String,
    /// Wall-clock bound of one iteration, in seconds.
    pub timeout_secs: u64,
    /// Port on which the broker listens.
    pub broker_port: u16,
    /// Directory of the initial seeds.
    pub corpus_dir: String,
    /// Directory in which the inputs that gave an objective are kept.
    pub objective_dir: String,
    /// File that holds the dictionary of tokens.
    pub tokens_file: String,
    /// Capacity of the input channel, in bytes.
    pub input_capacity: usize,
    /// The baseline snapshot.
    pub baseline: SnapshotHandle,
}

impl View for HarnessConfig {
    type V = ConfigView;

    open spec fn view(&self) -> ConfigView {
        ConfigView {
            cores: self.cores@,
            timeout_secs: self.timeout_secs,
            broker_port: self.broker_port,
            corpus_dir: self.corpus_dir@,
            objective_dir: self.objective_dir@,
            tokens_file: self.tokens_file@,
            input_capacity: self.input_capacity,
            baseline: self.baseline@,
        }
    }
}

impl HarnessConfig {
    /// The fixed configuration: one worker on core 1, five seconds for an
    /// iteration, the broker on port 1337, seeds under `./corpus`, objectives
    /// under `./crashes`, tokens in `./tokens/test.dict`, a channel of
    /// [`MAX_INPUT_SIZE`] bytes. The name of the baseline snapshot is the one
    /// value that comes from outside, and it is required: without it the
    /// result is the error.
    pub fn fixed(snapshot_name: Option<String>) -> (config: Result<HarnessConfig, ConfigError>)
        ensures
            match snapshot_name {
                Some(name) => config matches Ok(c) && c@ == ConfigView::fixed(name@),
                None => config matches Err(e) && e == ConfigError::MissingSnapshotName,
            },
    {
        match SnapshotHandle::from_setting(snapshot_name) {
            Ok(baseline) => Ok(
                HarnessConfig {
                    cores: String::from_str("1"),
                    timeout_secs: 5,
                    broker_port: 1337,
                    corpus_dir: String::from_str("./corpus"),
                    objective_dir: String::from_str("./crashes"),
                    tokens_file: String::from_str("./tokens/test.dict"),
                    input_capacity: MAX_INPUT_SIZE,
                    baseline,
                },
            ),
            Err(e) => Err(e),
        }
    }
}

} // verus!
