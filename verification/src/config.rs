//! The settings of the pitch analysis.

use vstd::prelude::*;
use crate::estimate::FULL_CLARITY;

verus! {

/// Samples per second that the estimator's arithmetic assumes.
pub const SAMPLE_RATE: u32 = 44_100;

/// Samples in one analysis window.
pub const WINDOW_SIZE: usize = 8192;

/// The least signal power for which a pitch is looked for.
pub const POWER_THRESHOLD: u32 = 10;

/// The least clarity, in thousandths, for which a pitch is reported.
pub const CLARITY_THRESHOLD: u16 = 600;

/// The longest window that a configuration may ask for.
pub const MAX_WINDOW_SIZE: usize = 0x100_0000;

/// Why a set of analysis settings was not accepted.
#[derive(Clone, Copy, Debug, PartialEq, Eq, Structural)]
pub enum ConfigError {
    /// The sample rate is zero.
    ZeroSampleRate,
    /// The window has no samples, or more than `MAX_WINDOW_SIZE`.
    WindowSize,
    /// The clarity threshold is above one.
    ClarityThreshold,
}

/// What is wrong with the settings, if anything. The sample rate is looked
/// at first, then the window, then the clarity threshold.
pub open spec fn config_defect(sample_rate: u32, window_size: usize, clarity_threshold: u16) -> Option<
    ConfigError,
> {
    if sample_rate == 0 {
        Some(ConfigError::ZeroSampleRate)
    } else if window_size == 0 || window_size > MAX_WINDOW_SIZE {
        Some(ConfigError::WindowSize)
    } else if clarity_threshold > FULL_CLARITY {
        Some(ConfigError::ClarityThreshold)
    } else {
        None
    }
}

/// The padding that goes with a window: half its length.
pub open spec fn spec_padding(window_size: nat) -> nat {
    window_size / 2
}

/// The whole milliseconds of sound in one window.
pub open spec fn spec_window_millis(window_size: nat, sample_rate: nat) -> nat {
    window_size * 1000 / sample_rate
}

/// The settings of the pitch analysis.
#[derive(Clone, Copy, Debug, PartialEq, Eq, Structural)]
pub struct AnalysisConfig {
    sample_rate: u32,
    window_size: usize,
    power_threshold: u32,
    clarity_threshold: u16,
}

impl AnalysisConfig {
    /// The settings have passed `config_defect`.
    #[verifier::type_invariant]
    pub closed spec fn wf(self) -> bool {
        config_defect(self.sample_rate, self.window_size, self.clarity_threshold) is None
    }

    /// Samples per second.
    pub closed spec fn spec_sample_rate(self) -> nat {
        self.sample_rate as nat
    }

    /// Samples in one window.
    pub closed spec fn spec_window_size(self) -> nat {
        self.window_size as nat
    }

    /// The least signal power for which a pitch is looked for.
    pub closed spec fn spec_power_threshold(self) -> nat {
        self.power_threshold as nat
    }

    /// The least clarity, in thousandths, for which a pitch is reported.
    pub closed spec fn spec_clarity_threshold(self) -> nat {
        self.clarity_threshold as nat
    }

    /// Settings made of the four values, or what is wrong with them.
    pub fn new(
        sample_rate: u32,
        window_size: usize,
        power_threshold: u32,
        clarity_threshold: u16,
    ) -> (r: Result<AnalysisConfig, ConfigError>)
        ensures
            match r {
                Ok(config) => {
                    &&& config_defect(sample_rate, window_size, clarity_threshold) is None
                    &&& config.wf()
                    &&& config.spec_sample_rate() == sample_rate
                    &&& config.spec_window_size() == window_size
                    &&& config.spec_power_threshold() == power_threshold
                    &&& config.spec_clarity_threshold() == clarity_threshold
                },
                Err(error) => config_defect(sample_rate, window_size, clarity_threshold) == Some(
                    error,
                ),
            },
    {
        if sample_rate == 0 {
            Err(ConfigError::ZeroSampleRate)
        } else if window_size == 0 || window_size > MAX_WINDOW_SIZE {
            Err(ConfigError::WindowSize)
        } else if clarity_threshold > FULL_CLARITY {
            Err(ConfigError::ClarityThreshold)
        } else {
            Ok(AnalysisConfig { sample_rate, window_size, power_threshold, clarity_threshold })
        }
    }

    /// The settings that the game plays with.
    pub fn standard() -> (config: AnalysisConfig)
        ensures
            config.wf(),
            config.spec_sample_rate() == SAMPLE_RATE,
            config.spec_window_size() == WINDOW_SIZE,
            config.spec_power_threshold() == POWER_THRESHOLD,
            config.spec_clarity_threshold() == CLARITY_THRESHOLD,
    {
        AnalysisConfig {
            sample_rate: SAMPLE_RATE,
            window_size: WINDOW_SIZE,
            power_threshold: POWER_THRESHOLD,
            clarity_threshold: CLARITY_THRESHOLD,
        }
    }

    /// Samples per second.
    pub fn sample_rate(&self) -> (n: u32)
        ensures
            n == self.spec_sample_rate(),
            n > 0,
    {
        proof {
            use_type_invariant(self);
        }
        self.sample_rate
    }

    /// Samples in one window.
    pub fn window_size(&self) -> (n: usize)
        ensures
            n == self.spec_window_size(),
            0 < n <= MAX_WINDOW_SIZE,
    {
        proof {
            use_type_invariant(self);
        }
        self.window_size
    }

    /// The padding that the estimator is given: half the window.
    pub fn padding(&self) -> (n: usize)
        ensures
            n == spec_padding(self.spec_window_size()),
    {
        self.window_size / 2
    }

    /// The least signal power for which a pitch is looked for.
    pub fn power_threshold(&self) -> (n: u32)
        ensures
            n == self.spec_power_threshold(),
    {
        self.power_threshold
    }

    /// The least clarity, in thousandths, for which a pitch is reported.
    pub fn clarity_threshold(&self) -> (n: u16)
        ensures
            n == self.spec_clarity_threshold(),
            n <= FULL_CLARITY,
    {
        proof {
            use_type_invariant(self);
        }
        self.clarity_threshold
    }

    /// The whole milliseconds of sound in one window: the time within which
    /// the analysis of a window has to end.
    pub fn window_millis(&self) -> (ms: u64)
        ensures
            ms == spec_window_millis(self.spec_window_size(), self.spec_sample_rate()),
    {
        proof {
            use_type_invariant(self);
        }
        let samples: u64 = self.window_size as u64;
        let rate: u64 = self.sample_rate as u64;
        samples * 1000 / rate
    }
}

} // verus!
