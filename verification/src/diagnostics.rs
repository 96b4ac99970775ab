//! What the recorder can say about how it is set up, for a support request.

use vstd::prelude::*;

verus! {

/// The FFmpeg build the recorder links.
#[derive(Debug, Clone, PartialEq, Eq)]
pub struct FfmpegBuild {
    /// Which pinned build it is.
    pub identifier: String,
    /// The licence it is distributed under.
    pub licence: String,
    /// The `libavformat` version.
    pub avformat: String,
    /// The `libavcodec` version.
    pub avcodec: String,
    /// The `libavutil` version.
    pub avutil: String,
}

/// Everything the recorder reports about itself.
#[derive(Debug, Clone, PartialEq, Eq)]
pub struct Diagnostics {
    /// How the recording in progress is being captured, if one is.
    pub capture: Option<CaptureAccount>,
    /// What encoders were found.
    pub encoders: EncoderAccount,
    /// The FFmpeg build, if it could be read.
    pub ffmpeg: Option<Box<FfmpegBuild>>,
    /// The settings the recording in progress resolved, if one is.
    pub settings: Option<Vec<EffectiveSetting>>,
    /// Why the library could not be opened, if it could not.
    pub library_refusal: Option<String>,
}

/// One setting as a recording resolved it, and the layer that supplied it.
#[derive(Debug, Clone, PartialEq, Eq)]
pub struct EffectiveSetting {
    /// The setting.
    pub setting: String,
    /// Its value.
    pub value: String,
    /// Which layer supplied it.
    pub source: String,
}

/// How a recording is being captured, and how that has changed.
#[derive(Debug, Clone, PartialEq, Eq)]
pub struct CaptureAccount {
    /// The capture method the settings asked for.
    pub setting: String,
    /// The method the recording started with.
    pub started_with: String,
    /// The method in use now.
    pub current: String,
    /// Every change of method, in order; empty for none.
    pub changes: Vec<CaptureMethodChange>,
}

/// One change of capture method during a recording.
#[derive(Debug, Clone, PartialEq, Eq)]
pub struct CaptureMethodChange {
    /// The method before.
    pub from: String,
    /// The method after.
    pub to: String,
    /// Whether the capture had to be restarted.
    pub restart: bool,
    /// What prompted it.
    pub trigger: String,
    /// Why, in words.
    pub reason: String,
}

/// What encoder detection found.
#[derive(Debug, Clone, PartialEq, Eq)]
pub struct EncoderAccount {
    /// Whether detection has run.
    pub probed: bool,
    /// When it ran, if it has.
    pub detected_at: Option<String>,
    /// How long it took, in milliseconds.
    pub elapsed_ms: u64,
    /// The graphics adapters found.
    pub adapters: Vec<AdapterSummary>,
    /// The encoders found.
    pub encoders: Vec<EncoderSummary>,
}

/// One graphics adapter.
#[derive(Debug, Clone, PartialEq, Eq)]
pub struct AdapterSummary {
    /// What the adapter calls itself.
    pub description: String,
    /// Who made it.
    pub vendor: String,
    /// Integrated, discrete or software.
    pub kind: String,
    /// Its dedicated memory, in bytes.
    pub video_memory_bytes: u64,
    /// Its driver version, if known.
    pub driver_version: Option<String>,
    /// Whether capture runs on it.
    pub captures: bool,
}

/// One encoder, and what it can do.
#[derive(Debug, Clone, PartialEq, Eq)]
pub struct EncoderSummary {
    /// The encoder's identifier.
    pub encoder: String,
    /// Its name for a person.
    pub label: String,
    /// Whether it can be used on this machine.
    pub available: bool,
    /// Why it cannot, if it cannot.
    pub unavailable: Option<String>,
    /// Whether this build implements it.
    pub implemented: bool,
    /// The adapter it runs on, if any.
    pub adapter: Option<String>,
    /// Whether the settings asked for it.
    pub asked: bool,
    /// The codecs it was asked about.
    pub codecs: Vec<CodecSummary>,
}

/// What one encoder can do with one codec.
#[derive(Debug, Clone, PartialEq, Eq)]
pub struct CodecSummary {
    /// The codec.
    pub codec: String,
    /// Whether it is supported; absent when nothing knows.
    pub supported: Option<bool>,
    /// The widest frame it takes, if known.
    pub max_width: Option<u32>,
    /// The tallest frame it takes, if known.
    pub max_height: Option<u32>,
    /// The fastest 1080p frame rate it sustains, if known.
    pub max_framerate_1080p: Option<u32>,
    /// Whether the figures were inferred rather than measured.
    pub inferred: bool,
}

} // verus!
