//! Verified core of a dual-stream audio capture and post-processing pipeline.
//!
//! The library holds the decisions and data transformations of the pipeline:
//! stream configuration arithmetic, packet queues, gap-filled segment
//! rendering, segment merging, track mixing, channel splitting for the
//! encoder, the retry and health-monitor policies, and the session's file
//! naming and cleanup plan. Device access, file I/O and network calls live in
//! the application around it.

mod config;
mod segment;
mod mixing;
mod retry;
mod queue;
mod monitor;
mod naming;
mod session;
mod transcription;
mod models;
mod store;

pub use config::{
    calculate_expected_packet_duration, sample_format, PacketDuration, SampleEncoding,
    StreamConfig, WavFormat, DEFAULT_BUFFER_FRAMES,
};
pub use segment::{render_in_order, render_segment, sequence_order, AudioPacket};
pub use mixing::{
    merge_segments, mix_samples, pcm_to_i16, split_channels, superimpose, MergeError, Segment,
};
pub use retry::{RetryDecision, RetryPolicy, MAX_ATTEMPTS, RETRY_BACKOFF_MS};
pub use queue::{PacketQueue, SequenceCounter, FLUSH_THRESHOLD};
pub use monitor::{DeviceSeen, DirectionState, StreamAction, POLL_INTERVAL_MS};
pub use naming::{decimal_string, push_decimal, push_zero_padded};
pub use session::{
    final_output_name, merged_file_name, segment_file_name, session_label, superimposed_file_name,
    CaptureError, CaptureSession, Direction, PostProcessPlan,
};
pub use transcription::{
    service_failure, transcription_failure, DeepgramService, GroqService, SettingEntry,
    SettingValue, TranscriptionBackend, TranscriptionManager, TranscriptionStep,
};
pub use models::{
    gemini_role, Recording, Setting, TextGenerationOptions, TextGenerationStrategy, User,
};
pub use store::{RecordingUpdate, UpdateStatement};
