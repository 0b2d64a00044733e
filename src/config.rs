//! Run configuration: capture mode, devices and decision thresholds.
//!
//! Thresholds are fixed-point integers so that every comparison the engine
//! makes is exact: similarities are counted in millionths
//! (`SIMILARITY_SCALE` stands for 1.0) and brightness in thousandths of a
//! pixel level (`BRIGHTNESS_SCALE` stands for one level of an 8-bit sample).
use vstd::prelude::*;

verus! {

/// The number that stands for a similarity of exactly 1.0.
pub const SIMILARITY_SCALE: u32 = 1_000_000;

/// The number that stands for a brightness of exactly one pixel level.
pub const BRIGHTNESS_SCALE: u32 = 1000;

/// Which camera, and which set of thresholds, a run uses.
#[derive(Debug, Clone, Copy, PartialEq, Eq, Structural)]
pub enum Modes {
    Rgb,
    Ir,
}

/// The capture devices and the active mode.
#[derive(Debug, Clone, Copy)]
pub struct Video {
    pub mode: Modes,
    pub device_rgb: i32,
    pub device_ir: i32,
}

impl Default for Video {
    fn default() -> (r: Self)
        ensures
            r.mode == Modes::Ir,
            r.device_rgb == 0,
            r.device_ir == 2,
    {
        Video { mode: Modes::Ir, device_rgb: 0, device_ir: 2 }
    }
}

impl Video {
    /// The device index that serves `mode`.
    pub open spec fn device_spec(&self, mode: Modes) -> i32 {
        match mode {
            Modes::Rgb => self.device_rgb,
            Modes::Ir => self.device_ir,
        }
    }

    /// The device index that serves `mode`.
    pub fn device_for(&self, mode: Modes) -> (r: i32)
        ensures
            r == self.device_spec(mode),
    {
        match mode {
            Modes::Rgb => self.device_rgb,
            Modes::Ir => self.device_ir,
        }
    }

    /// The device index of the active mode.
    pub fn device(&self) -> (r: i32)
        ensures
            r == self.device_spec(self.mode),
    {
        self.device_for(self.mode)
    }
}

/// Decision thresholds for both modes and the attempt budget.
///
/// `min_similarity_*` are in millionths and `min_brightness_*` in
/// thousandths of a pixel level; `retries` is the most frames one
/// enrollment or non-interactive verification run captures.
#[derive(Debug, Clone, Copy)]
pub struct Detection {
    pub min_similarity_rgb: u32,
    pub min_similarity_ir: u32,
    pub min_brightness_rgb: u32,
    pub min_brightness_ir: u32,
    pub retries: u32,
}

impl Default for Detection {
    fn default() -> (r: Self)
        ensures
            r.min_similarity_rgb == 700_000,
            r.min_similarity_ir == 900_000,
            r.min_brightness_rgb == 50_000,
            r.min_brightness_ir == 10_000,
            r.retries == 10,
    {
        Detection {
            min_similarity_rgb: 700_000,
            min_similarity_ir: 900_000,
            min_brightness_rgb: 50_000,
            min_brightness_ir: 10_000,
            retries: 10,
        }
    }
}

/// The thresholds that one run in one mode applies.
#[derive(Debug, Clone, Copy, PartialEq, Eq, Structural)]
pub struct Thresholds {
    /// In millionths: a match needs a similarity strictly above it.
    pub min_similarity: u32,
    /// In thousandths of a pixel level: a frame passes at or above it.
    pub min_brightness: u32,
    /// The most frames a bounded run captures.
    pub max_attempts: u32,
}

impl Detection {
    /// The thresholds of `mode`.
    pub open spec fn thresholds_spec(&self, mode: Modes) -> Thresholds {
        match mode {
            Modes::Rgb => Thresholds {
                min_similarity: self.min_similarity_rgb,
                min_brightness: self.min_brightness_rgb,
                max_attempts: self.retries,
            },
            Modes::Ir => Thresholds {
                min_similarity: self.min_similarity_ir,
                min_brightness: self.min_brightness_ir,
                max_attempts: self.retries,
            },
        }
    }

    /// Whether the thresholds are in their domain: both similarity
    /// thresholds in (0, 1] and at least one attempt.
    pub open spec fn valid_spec(&self) -> bool {
        &&& 0 < self.min_similarity_rgb <= SIMILARITY_SCALE
        &&& 0 < self.min_similarity_ir <= SIMILARITY_SCALE
        &&& self.retries >= 1
    }

    /// The thresholds of `mode`.
    pub fn thresholds(&self, mode: Modes) -> (r: Thresholds)
        ensures
            r == self.thresholds_spec(mode),
    {
        match mode {
            Modes::Rgb => Thresholds {
                min_similarity: self.min_similarity_rgb,
                min_brightness: self.min_brightness_rgb,
                max_attempts: self.retries,
            },
            Modes::Ir => Thresholds {
                min_similarity: self.min_similarity_ir,
                min_brightness: self.min_brightness_ir,
                max_attempts: self.retries,
            },
        }
    }

    /// Tests the domain of the thresholds.
    pub fn is_valid(&self) -> (r: bool)
        ensures
            r == self.valid_spec(),
    {
        0 < self.min_similarity_rgb && self.min_similarity_rgb <= SIMILARITY_SCALE
            && 0 < self.min_similarity_ir && self.min_similarity_ir <= SIMILARITY_SCALE
            && self.retries >= 1
    }
}

/// The whole run configuration.
#[derive(Debug, Clone, Copy)]
pub struct Config {
    pub video: Video,
    pub detection: Detection,
}

impl Default for Config {
    fn default() -> (r: Self)
        ensures
            r.video.mode == Modes::Ir,
            r.video.device_rgb == 0,
            r.video.device_ir == 2,
            r.detection.min_similarity_rgb == 700_000,
            r.detection.min_similarity_ir == 900_000,
            r.detection.min_brightness_rgb == 50_000,
            r.detection.min_brightness_ir == 10_000,
            r.detection.retries == 10,
    {
        Config { video: Video::default(), detection: Detection::default() }
    }
}

impl Config {
    /// The thresholds of the active mode.
    pub fn active_thresholds(&self) -> (r: Thresholds)
        ensures
            r == self.detection.thresholds_spec(self.video.mode),
    {
        self.detection.thresholds(self.video.mode)
    }
}

} // verus!
