//! Value types of the generic `audio.cpp` runtime: requests, results,
//! capabilities and the builders that fill them.
//!
//! Samples, confidences and other floating-point quantities pass through the
//! bindings unchanged, so they are held as their IEEE-754 bit patterns
//! (`f32::to_bits`, `f64::to_bits`); paths are held as their text.

use vstd::prelude::*;

use crate::kinds::{ArtifactKind, BackendType, RunMode, StreamingInputKind, StreamingOutputKind, VadEventKind, VoiceTaskKind};
use crate::options::{unset_options, TaskOptions};
use crate::string_map::StringMap;
use crate::text::owned;

verus! {

/// Bit pattern of an `f32`, as `f32::to_bits` gives it.
pub type F32Bits = u32;

/// Bit pattern of an `f64`, as `f64::to_bits` gives it.
pub type F64Bits = u64;

/// Interleaved `f32` PCM buffer.
#[derive(Debug, Clone, PartialEq)]
pub struct AudioBuffer {
    /// Sample rate in Hz.
    pub sample_rate: i32,
    /// Channel count.
    pub channels: i32,
    /// Interleaved samples.
    pub samples: Vec<F32Bits>,
}

impl AudioBuffer {
    /// Create a PCM buffer.
    pub fn new(sample_rate: i32, channels: i32, samples: Vec<F32Bits>) -> (b: AudioBuffer)
        ensures
            b.sample_rate == sample_rate,
            b.channels == channels,
            b.samples@ == samples@,
    {
        AudioBuffer { sample_rate, channels, samples }
    }
}

/// Text plus optional language tag.
#[derive(Debug, Clone, PartialEq, Eq, Default)]
pub struct Transcript {
    /// Transcript or prompt text.
    pub text: String,
    /// BCP-47 or model-specific language tag.
    pub language: String,
}

impl Transcript {
    /// Create a transcript.
    pub fn new(text: &str, language: &str) -> (t: Transcript)
        ensures
            t.text@ == text@,
            t.language@ == language@,
    {
        Transcript { text: owned(text), language: owned(language) }
    }
}

/// Half-open sample range.
#[derive(Debug, Clone, Copy, PartialEq, Eq, Default)]
pub struct TimeSpan {
    /// Inclusive start sample.
    pub start_sample: i64,
    /// Exclusive end sample.
    pub end_sample: i64,
}

/// Speech segment with optional text.
#[derive(Debug, Clone, PartialEq)]
pub struct SpeechSegment {
    /// Sample span.
    pub span: TimeSpan,
    /// Model confidence in `[0, 1]`.
    pub confidence: F32Bits,
    /// Recognized text when available.
    pub text: String,
}

/// Diarized speaker turn.
#[derive(Debug, Clone, PartialEq)]
pub struct SpeakerTurn {
    /// Sample span.
    pub span: TimeSpan,
    /// Speaker label.
    pub speaker_id: String,
    /// Model confidence in `[0, 1]`.
    pub confidence: F32Bits,
    /// Recognized text when available.
    pub text: String,
}

/// Word-level timestamp.
#[derive(Debug, Clone, PartialEq)]
pub struct WordTimestamp {
    /// Sample span.
    pub span: TimeSpan,
    /// Word token.
    pub word: String,
    /// Model confidence in `[0, 1]`.
    pub confidence: F32Bits,
}

/// Speaker reference for cloning or conditioning.
#[derive(Debug, Clone, PartialEq, Default)]
pub struct VoiceReference {
    /// Reference audio.
    pub audio: Option<AudioBuffer>,
    /// Previously cached voice identifier.
    pub cached_voice_id: Option<String>,
}

/// Style controls for generation tasks.
#[derive(Debug, Clone, PartialEq, Default)]
pub struct StyleCondition {
    /// Language hint.
    pub language: Option<String>,
    /// Emotion hint.
    pub emotion: Option<String>,
    /// Speaking-rate multiplier.
    pub speaking_rate: Option<F32Bits>,
    /// Pitch shift.
    pub pitch_shift: Option<F32Bits>,
    /// Energy scale.
    pub energy_scale: Option<F32Bits>,
    /// Model-specific tags.
    pub tags: StringMap,
}

/// Combined speaker and style condition.
#[derive(Debug, Clone, PartialEq, Default)]
pub struct VoiceCondition {
    /// Speaker reference.
    pub speaker: Option<VoiceReference>,
    /// Style controls.
    pub style: Option<StyleCondition>,
}

/// Opaque model artifact.
#[derive(Debug, Clone, PartialEq, Eq)]
pub struct VoiceArtifact {
    /// Artifact class.
    pub kind: ArtifactKind,
    /// Artifact identifier.
    pub id: String,
    /// Raw payload bytes.
    pub payload: Vec<u8>,
    /// Artifact metadata.
    pub meta: StringMap,
}

/// Named PCM output with metadata.
#[derive(Debug, Clone, PartialEq)]
pub struct NamedAudioBuffer {
    /// Output identifier.
    pub id: String,
    /// Audio samples.
    pub audio: AudioBuffer,
    /// Output metadata.
    pub meta: StringMap,
}

/// Incremental PCM chunk for streaming sessions.
#[derive(Debug, Clone, PartialEq)]
pub struct AudioChunk {
    /// Sample rate in Hz.
    pub sample_rate: i32,
    /// Channel count.
    pub channels: i32,
    /// Absolute start sample of this chunk.
    pub start_sample: i64,
    /// Interleaved samples.
    pub samples: Vec<F32Bits>,
}

impl AudioChunk {
    /// Create a streaming audio chunk.
    pub fn new(sample_rate: i32, channels: i32, start_sample: i64, samples: Vec<F32Bits>) -> (c: AudioChunk)
        ensures
            c.sample_rate == sample_rate,
            c.channels == channels,
            c.start_sample == start_sample,
            c.samples@ == samples@,
    {
        AudioChunk { sample_rate, channels, start_sample, samples }
    }
}

/// Voice-activity event emitted by a streaming session.
#[derive(Debug, Clone, PartialEq)]
pub struct VoiceActivityEvent {
    /// Event class.
    pub kind: VadEventKind,
    /// Sample index of the event.
    pub sample: i64,
    /// Speech probability when available.
    pub probability: F32Bits,
    /// Completed segment when `kind` is [`VadEventKind::SpeechSegment`].
    pub segment: Option<SpeechSegment>,
}

/// Task and run-mode pair used to create a session.
#[derive(Debug, Clone, Copy, PartialEq, Eq, Structural)]
pub struct TaskSpec {
    /// Voice task to run.
    pub task: VoiceTaskKind,
    /// Offline or streaming execution.
    pub mode: RunMode,
}

impl TaskSpec {
    /// Create a task specification.
    pub fn new(task: VoiceTaskKind, mode: RunMode) -> (s: TaskSpec)
        ensures
            s == (TaskSpec { task, mode }),
    {
        TaskSpec { task, mode }
    }

    /// Offline task helper.
    pub fn offline(task: VoiceTaskKind) -> (s: TaskSpec)
        ensures
            s == (TaskSpec { task, mode: RunMode::Offline }),
    {
        TaskSpec::new(task, RunMode::Offline)
    }

    /// Streaming task helper.
    pub fn streaming(task: VoiceTaskKind) -> (s: TaskSpec)
        ensures
            s == (TaskSpec { task, mode: RunMode::Streaming }),
    {
        TaskSpec::new(task, RunMode::Streaming)
    }
}

/// Compute-backend selection for a session.
#[derive(Debug, Clone, Copy, PartialEq, Eq, Structural)]
pub struct BackendConfig {
    /// Backend family.
    pub backend: BackendType,
    /// Device index within that backend.
    pub device: i32,
    /// Host thread count.
    pub threads: i32,
}

impl Default for BackendConfig {
    /// The first CPU device with one thread.
    fn default() -> (c: BackendConfig)
        ensures
            c == (BackendConfig { backend: BackendType::Cpu, device: 0, threads: 1 }),
    {
        BackendConfig { backend: BackendType::Cpu, device: 0, threads: 1 }
    }
}

impl BackendConfig {
    /// CPU backend with the given thread count.
    pub fn cpu(threads: i32) -> (c: BackendConfig)
        ensures
            c == (BackendConfig { backend: BackendType::Cpu, device: 0, threads }),
    {
        BackendConfig { backend: BackendType::Cpu, device: 0, threads }
    }
}

/// Options used when creating a task session.
#[derive(Debug, Clone, PartialEq, Eq, Default)]
pub struct SessionOptions {
    /// Backend selection.
    pub backend: BackendConfig,
    /// Model-specific string options.
    pub options: StringMap,
}

impl SessionOptions {
    /// Start a builder with default CPU settings.
    pub fn new() -> (s: SessionOptions)
        ensures
            s.backend == (BackendConfig { backend: BackendType::Cpu, device: 0, threads: 1 }),
            s.options@ == Map::<Seq<char>, Seq<char>>::empty(),
    {
        SessionOptions { backend: BackendConfig::default(), options: StringMap::new() }
    }

    /// Set the backend configuration.
    pub fn backend(self, backend: BackendConfig) -> (s: SessionOptions)
        ensures
            s.backend == backend,
            s.options@ == self.options@,
    {
        let mut s = self;
        s.backend = backend;
        s
    }

    /// Insert a string option, replacing any earlier value for the key.
    pub fn option(self, key: &str, value: &str) -> (s: SessionOptions)
        ensures
            s.backend == self.backend,
            s.options@ == self.options@.insert(key@, value@),
    {
        let mut s = self;
        s.options.insert(owned(key), owned(value));
        s
    }
}

/// Request used to inspect or load a model.
#[derive(Debug, Clone, PartialEq, Eq)]
pub struct ModelLoadRequest {
    /// Model file or directory, as path text.
    pub model_path: String,
    /// Optional model-spec override path, as path text.
    pub model_spec_override: Option<String>,
    /// Optional family hint that skips loader probing.
    pub family_hint: Option<String>,
    /// Optional config identifier.
    pub config_id: Option<String>,
    /// Optional weight identifier.
    pub weight_id: Option<String>,
    /// Loader-specific options.
    pub options: StringMap,
}

/// Optional text of an optional string.
pub open spec fn opt_text(v: Option<String>) -> Option<Seq<char>> {
    match v {
        Some(s) => Some(s@),
        None => None,
    }
}

/// An optional string stands for the text it holds, or for nothing.
pub proof fn law_opt_text(s: String)
    ensures
        opt_text(Some(s)) == Some(s@),
        opt_text(None) is None,
{
}

impl ModelLoadRequest {
    /// Load the model at `model_path`.
    pub fn new(model_path: &str) -> (r: ModelLoadRequest)
        ensures
            r.model_path@ == model_path@,
            r.model_spec_override is None,
            r.family_hint is None,
            r.config_id is None,
            r.weight_id is None,
            r.options@ == Map::<Seq<char>, Seq<char>>::empty(),
    {
        ModelLoadRequest {
            model_path: owned(model_path),
            model_spec_override: None,
            family_hint: None,
            config_id: None,
            weight_id: None,
            options: StringMap::new(),
        }
    }

    /// Override the model spec path.
    pub fn model_spec_override(self, path: &str) -> (r: ModelLoadRequest)
        ensures
            opt_text(r.model_spec_override) == Some(path@),
            r.model_path == self.model_path,
            r.family_hint == self.family_hint,
            r.config_id == self.config_id,
            r.weight_id == self.weight_id,
            r.options@ == self.options@,
    {
        let mut r = self;
        r.model_spec_override = Some(owned(path));
        r
    }

    /// Set a family hint.
    pub fn family_hint(self, family: &str) -> (r: ModelLoadRequest)
        ensures
            opt_text(r.family_hint) == Some(family@),
            r.model_path == self.model_path,
            r.model_spec_override == self.model_spec_override,
            r.config_id == self.config_id,
            r.weight_id == self.weight_id,
            r.options@ == self.options@,
    {
        let mut r = self;
        r.family_hint = Some(owned(family));
        r
    }

    /// Set a config identifier.
    pub fn config_id(self, id: &str) -> (r: ModelLoadRequest)
        ensures
            opt_text(r.config_id) == Some(id@),
            r.model_path == self.model_path,
            r.model_spec_override == self.model_spec_override,
            r.family_hint == self.family_hint,
            r.weight_id == self.weight_id,
            r.options@ == self.options@,
    {
        let mut r = self;
        r.config_id = Some(owned(id));
        r
    }

    /// Set a weight identifier.
    pub fn weight_id(self, id: &str) -> (r: ModelLoadRequest)
        ensures
            opt_text(r.weight_id) == Some(id@),
            r.model_path == self.model_path,
            r.model_spec_override == self.model_spec_override,
            r.family_hint == self.family_hint,
            r.config_id == self.config_id,
            r.options@ == self.options@,
    {
        let mut r = self;
        r.weight_id = Some(owned(id));
        r
    }

    /// Insert a load option, replacing any earlier value for the key.
    pub fn option(self, key: &str, value: &str) -> (r: ModelLoadRequest)
        ensures
            r.options@ == self.options@.insert(key@, value@),
            r.model_path == self.model_path,
            r.model_spec_override == self.model_spec_override,
            r.family_hint == self.family_hint,
            r.config_id == self.config_id,
            r.weight_id == self.weight_id,
    {
        let mut r = self;
        r.options.insert(owned(key), owned(value));
        r
    }
}

/// Generic task input.
#[derive(Debug, Clone, PartialEq)]
pub struct TaskRequest {
    /// Text prompt or transcript.
    pub text: Option<Transcript>,
    /// Input audio.
    pub audio: Option<AudioBuffer>,
    /// Voice/style condition.
    pub voice: Option<VoiceCondition>,
    /// Input artifacts.
    pub artifacts: Vec<VoiceArtifact>,
    /// Typed request options. Unset fields are omitted when encoded.
    pub options: TaskOptions,
}

impl Default for TaskRequest {
    /// An empty request.
    fn default() -> (r: TaskRequest)
        ensures
            r.text is None,
            r.audio is None,
            r.voice is None,
            r.artifacts@.len() == 0,
            r.options == unset_options(),
    {
        TaskRequest::new()
    }
}

impl TaskRequest {
    /// Empty request.
    pub fn new() -> (r: TaskRequest)
        ensures
            r.text is None,
            r.audio is None,
            r.voice is None,
            r.artifacts@.len() == 0,
            r.options == unset_options(),
    {
        TaskRequest { text: None, audio: None, voice: None, artifacts: Vec::new(), options: TaskOptions::new() }
    }

    /// Set text input, with an empty language tag.
    pub fn text(self, text: &str) -> (r: TaskRequest)
        ensures
            r.text matches Some(t) && t.text@ == text@ && t.language@ == Seq::<char>::empty(),
            r.audio == self.audio,
            r.voice == self.voice,
            r.artifacts == self.artifacts,
            r.options == self.options,
    {
        let mut r = self;
        r.text = Some(Transcript::new(text, ""));
        proof {
            reveal_strlit("");
        }
        r
    }

    /// Set a full transcript.
    pub fn transcript(self, transcript: Transcript) -> (r: TaskRequest)
        ensures
            r.text == Some(transcript),
            r.audio == self.audio,
            r.voice == self.voice,
            r.artifacts == self.artifacts,
            r.options == self.options,
    {
        let mut r = self;
        r.text = Some(transcript);
        r
    }

    /// Set input audio.
    pub fn audio(self, audio: AudioBuffer) -> (r: TaskRequest)
        ensures
            r.audio == Some(audio),
            r.text == self.text,
            r.voice == self.voice,
            r.artifacts == self.artifacts,
            r.options == self.options,
    {
        let mut r = self;
        r.audio = Some(audio);
        r
    }

    /// Set voice conditioning.
    pub fn voice(self, voice: VoiceCondition) -> (r: TaskRequest)
        ensures
            r.voice == Some(voice),
            r.text == self.text,
            r.audio == self.audio,
            r.artifacts == self.artifacts,
            r.options == self.options,
    {
        let mut r = self;
        r.voice = Some(voice);
        r
    }

    /// Set typed request options, including ones converted from a per-family struct.
    pub fn options(self, options: TaskOptions) -> (r: TaskRequest)
        ensures
            r.options == options,
            r.text == self.text,
            r.audio == self.audio,
            r.voice == self.voice,
            r.artifacts == self.artifacts,
    {
        let mut r = self;
        r.options = options;
        r
    }
}

/// Audio-shape contract used during session preparation.
#[derive(Debug, Clone, Copy, PartialEq, Eq, Default)]
pub struct AudioPreparationContract {
    /// Expected sample rate.
    pub sample_rate: i32,
    /// Expected channel count.
    pub channels: i32,
    /// Maximum input samples the session should prepare for.
    pub max_input_samples: i64,
}

/// Values passed to a session's preparation.
#[derive(Debug, Clone, PartialEq, Default)]
pub struct SessionPreparationRequest {
    /// Optional audio contract.
    pub audio: Option<AudioPreparationContract>,
    /// Optional text used to size graphs.
    pub text: Option<Transcript>,
    /// Optional voice condition.
    pub voice: Option<VoiceCondition>,
    /// Model-specific options.
    pub options: StringMap,
}

/// Streaming chunk and event policy.
#[derive(Debug, Clone, Copy, PartialEq)]
pub struct StreamingPolicy {
    /// How audio is consumed.
    pub input: StreamingInputKind,
    /// How events are produced.
    pub output: StreamingOutputKind,
    /// Preferred chunk length in samples.
    pub preferred_audio_chunk_samples: i64,
    /// Preferred chunk length in seconds.
    pub preferred_audio_chunk_seconds: F64Bits,
}

/// Offline or finalized task output.
#[derive(Debug, Clone, PartialEq, Default)]
pub struct TaskResult {
    /// Primary audio output.
    pub audio: Option<AudioBuffer>,
    /// Additional named audio outputs.
    pub named_audio: Vec<NamedAudioBuffer>,
    /// Primary text output.
    pub text: Option<Transcript>,
    /// Speech segments.
    pub speech_segments: Vec<SpeechSegment>,
    /// Speaker turns.
    pub speaker_turns: Vec<SpeakerTurn>,
    /// Word timestamps.
    pub word_timestamps: Vec<WordTimestamp>,
    /// Primary artifact.
    pub artifact: Option<VoiceArtifact>,
    /// Additional artifacts.
    pub artifacts: Vec<VoiceArtifact>,
}

/// Incremental streaming event.
#[derive(Debug, Clone, PartialEq, Default)]
pub struct StreamEvent {
    /// Voice-activity updates.
    pub voice_activity: Vec<VoiceActivityEvent>,
    /// Partial transcript.
    pub partial_text: Option<Transcript>,
    /// Incremental audio.
    pub audio: Option<AudioBuffer>,
    /// Named incremental audio.
    pub named_audio: Vec<NamedAudioBuffer>,
    /// Speaker turns so far.
    pub speaker_turns: Vec<SpeakerTurn>,
    /// Word timestamps so far.
    pub word_timestamps: Vec<WordTimestamp>,
    /// Incremental artifacts.
    pub artifacts: Vec<VoiceArtifact>,
    /// Whether this event ends the stream.
    pub is_final: bool,
}

/// Discovered model file.
#[derive(Debug, Clone, PartialEq, Eq)]
pub struct NamedAsset {
    /// Asset identifier.
    pub id: String,
    /// Filesystem path, as path text.
    pub path: String,
}

/// One supported task and its run modes.
#[derive(Debug, Clone, PartialEq, Eq)]
pub struct TaskCapability {
    /// Task kind.
    pub task: VoiceTaskKind,
    /// Supported run modes.
    pub modes: Vec<RunMode>,
}

/// Advertised model capabilities.
#[derive(Debug, Clone, PartialEq, Eq, Default)]
pub struct CapabilitySet {
    /// Supported tasks.
    pub tasks: Vec<TaskCapability>,
    /// Supported languages.
    pub languages: Vec<String>,
    /// Whether speaker reference is accepted.
    pub supports_speaker_reference: bool,
    /// Whether style conditioning is accepted.
    pub supports_style_condition: bool,
    /// Whether timestamps are produced.
    pub supports_timestamps: bool,
}

/// Identity metadata for a loaded or inspected model.
#[derive(Debug, Clone, PartialEq, Eq, Default)]
pub struct ModelMetadata {
    /// Model family.
    pub family: String,
    /// Family variant.
    pub variant: String,
    /// Human-readable description.
    pub description: String,
    /// Known config identifiers.
    pub config_candidates: Vec<String>,
    /// Known weight identifiers.
    pub weight_candidates: Vec<String>,
}

/// Result of inspecting a model path without fully loading weights.
#[derive(Debug, Clone, PartialEq, Eq, Default)]
pub struct ModelInspection {
    /// Model identity.
    pub metadata: ModelMetadata,
    /// Advertised capabilities.
    pub capabilities: CapabilitySet,
    /// Resolved model root, as path text.
    pub model_root: String,
    /// Discovered config assets.
    pub discovered_configs: Vec<NamedAsset>,
    /// Discovered weight assets.
    pub discovered_weights: Vec<NamedAsset>,
}

/// A ggml backend device discovered at runtime.
#[derive(Debug, Clone, PartialEq, Eq)]
pub struct BackendDevice {
    /// ggml registry name, such as `CPU` or `METAL`.
    pub backend: String,
    /// Device index within that registry.
    pub index: i32,
    /// Human-readable device name.
    pub name: String,
    /// Device class such as `CPU` or `GPU`.
    pub kind: String,
}

} // verus!
