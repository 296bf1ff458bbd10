//! Typed request model, option encoding and error rules for the `audio.cpp` voice runtime.

pub mod encode;
pub mod encode_laws;
pub mod error;
pub mod kinds;
pub mod option_keys;
pub mod options;
pub mod registry;
pub mod session;
pub mod string_map;
pub mod text;
pub mod types;

pub use encode::{
    encode_audio_chunk, encode_voice_condition, AudioView, EncodedArtifact, EncodedAudioChunk,
    EncodedLoadRequest, EncodedPrepRequest, EncodedSessionOptions, EncodedTaskRequest,
    EncodedVoiceCondition,
};
pub use error::{check, Error, ErrorKind, Result, Status};
pub use kinds::{
    runtime_parse_result, ArtifactKind, BackendType, RunMode, StreamingInputKind, StreamingOutputKind, VadEventKind,
    VoiceTaskKind,
};
pub use options::{
    AceStepOptions, AudioChunkMode, ChatterboxOptions, DramaBoxOptions, FamilyOptions,
    IndexTts2Options, NemotronAsrOptions, OmnivoiceOptions, PocketTtsOptions, Qwen3TtsOptions,
    SileroVadOptions, StableAudioOptions, TaskOptions, TextChunkMode, VoxCpm2Options,
};
pub use registry::{model_spec_path, single_segment};
pub use session::{pulled_event, scoped_callback_outcome, SessionSupport};
pub use string_map::StringMap;
pub use types::{
    AudioBuffer, AudioChunk, AudioPreparationContract, BackendConfig, BackendDevice, CapabilitySet,
    F32Bits, F64Bits, ModelInspection, ModelLoadRequest, ModelMetadata, NamedAsset, NamedAudioBuffer,
    SessionOptions, SessionPreparationRequest, SpeakerTurn, SpeechSegment, StreamEvent,
    StreamingPolicy, StyleCondition, TaskCapability, TaskRequest, TaskResult, TaskSpec, TimeSpan,
    Transcript, VoiceActivityEvent, VoiceArtifact, VoiceCondition, VoiceReference, WordTimestamp,
};
