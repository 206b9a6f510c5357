use vstd::prelude::*;

verus! {

/// Longest miner name, in bytes, that a block may carry.
pub const MAX_NAME_LENGTH: usize = 64;

/// Longest solution, in frames, that a block may carry: ten minutes at 30 frames a second.
pub const MAX_SOLUTION_TIME: usize = 10 * 60 * 30;

/// Limits that every block of the chain respects.
#[derive(Debug, Clone, Copy)]
pub struct ChainConfig {
    pub max_name_length: usize,
    pub max_solution_time: usize,
}

impl ChainConfig {
    /// The limits the chain runs with.
    pub fn default() -> (cfg: ChainConfig)
        ensures
            cfg.max_name_length == 64,
            cfg.max_solution_time == 18000,
    {
        ChainConfig { max_name_length: MAX_NAME_LENGTH, max_solution_time: MAX_SOLUTION_TIME }
    }
}



/// Limits handed to the external recorder and evaluator programs.
#[derive(Debug, Clone, Copy)]
pub struct Config {
    pub max_name_length: usize,
    pub max_solution_bytes: usize,
    pub max_window_length: usize,
    pub max_random_action: usize,
}

impl Config {
    pub fn new(
        max_name_length: usize,
        max_solution_bytes: usize,
        max_window_length: usize,
        max_random_action: usize,
    ) -> (cfg: Config)
        ensures
            cfg.max_name_length == max_name_length,
            cfg.max_solution_bytes == max_solution_bytes,
            cfg.max_window_length == max_window_length,
            cfg.max_random_action == max_random_action,
    {
        Config { max_name_length, max_solution_bytes, max_window_length, max_random_action }
    }
}

/// Seconds of play a recorded solution may last.
pub const MAX_SOLUTION_SECONDS: usize = 600;

/// Frames in the window over which random inputs are spread.
pub const MAX_WINDOW_LENGTH: usize = 100;

/// Random inputs forced within one window.
pub const MAX_RANDOM_ACTION: usize = 5;

/// Bytes a solution may take: seconds, times 30 frames a second, times 4 bytes a frame.
pub const MAX_SOLUTION_BYTES: usize = MAX_SOLUTION_SECONDS * 30 * 4;

/// The configuration the programs run with.
pub fn default_config() -> (cfg: Config)
    ensures
        cfg.max_name_length == 64,
        cfg.max_solution_bytes == 72000,
        cfg.max_window_length == 100,
        cfg.max_random_action == 5,
{
    Config::new(MAX_NAME_LENGTH, MAX_SOLUTION_BYTES, MAX_WINDOW_LENGTH, MAX_RANDOM_ACTION)
}

} // verus!
