use audio_cpp::{
    encode_audio_chunk, encode_voice_condition, ArtifactKind, AudioBuffer, AudioChunk,
    AudioPreparationContract, AudioView, BackendConfig, EncodedLoadRequest, EncodedPrepRequest,
    EncodedSessionOptions, EncodedTaskRequest, Error, ModelLoadRequest, SessionOptions,
    SessionPreparationRequest, StringMap, StyleCondition, TaskOptions, TaskRequest, Transcript,
    VoiceArtifact, VoiceCondition, VoiceReference,
};

#[test]
fn encodes_load_request_paths() {
    let request = ModelLoadRequest::new("/tmp/model")
        .family_hint("silero_vad")
        .option("foo", "bar");
    let encoded = EncodedLoadRequest::new(&request).unwrap();
    assert_eq!(encoded.model_path.as_str(), "/tmp/model");
    assert!(encoded.family_hint.is_some());
    assert_eq!(encoded.options.len(), 1);
}

#[test]
fn encodes_typed_task_options() {
    let request = TaskRequest::new().options(TaskOptions {
        temperature: Some(0.7f32.to_string()),
        ..TaskOptions::default()
    });
    let encoded = EncodedTaskRequest::new(&request).unwrap();
    assert_eq!(encoded.options.len(), 1);
}

#[test]
fn load_request_reports_the_first_nul() {
    let request = ModelLoadRequest::new("/m").family_hint("fa\0m").config_id("\0c");
    assert_eq!(EncodedLoadRequest::new(&request).unwrap_err(), Error::Nul(2));
    let request = ModelLoadRequest::new("/m").option("k", "v\0");
    assert_eq!(EncodedLoadRequest::new(&request).unwrap_err(), Error::Nul(1));
    let request = ModelLoadRequest::new("/m\0").option("k\0", "v");
    assert_eq!(EncodedLoadRequest::new(&request).unwrap_err(), Error::Nul(2));
}

#[test]
fn task_request_checks_options_before_text() {
    let request = TaskRequest::new()
        .text("a\0b")
        .options(TaskOptions { sampler: Some("xy\0".into()), ..TaskOptions::default() });
    assert_eq!(EncodedTaskRequest::new(&request).unwrap_err(), Error::Nul(2));
    let request = TaskRequest::new().transcript(Transcript::new("ok", "e\0n"));
    assert_eq!(EncodedTaskRequest::new(&request).unwrap_err(), Error::Nul(1));
}

#[test]
fn task_request_checks_style_tags_before_artifacts() {
    let mut tags = StringMap::new();
    tags.insert("mood".to_string(), "\0".to_string());
    let mut meta = StringMap::new();
    meta.insert("m\0".to_string(), "v".to_string());
    let mut request = TaskRequest::new().voice(VoiceCondition {
        speaker: None,
        style: Some(StyleCondition { tags, ..StyleCondition::default() }),
    });
    request.artifacts.push(VoiceArtifact {
        kind: ArtifactKind::Custom,
        id: "id".into(),
        payload: vec![1, 2, 3],
        meta,
    });
    assert_eq!(EncodedTaskRequest::new(&request).unwrap_err(), Error::Nul(0));
}

#[test]
fn task_request_fields_are_carried() {
    let mut request = TaskRequest::new()
        .text("hello")
        .audio(AudioBuffer::new(24_000, 2, vec![0; 6]))
        .voice(VoiceCondition {
            speaker: Some(VoiceReference { audio: None, cached_voice_id: Some("v1".into()) }),
            style: Some(StyleCondition {
                emotion: Some("happy".into()),
                speaking_rate: Some(1.5f32.to_bits()),
                ..StyleCondition::default()
            }),
        });
    request.artifacts.push(VoiceArtifact {
        kind: ArtifactKind::SpeakerEmbedding,
        id: "spk".into(),
        payload: vec![9; 4],
        meta: StringMap::new(),
    });
    let encoded = EncodedTaskRequest::new(&request).unwrap();
    assert_eq!(encoded.text.map(|t| t.text.as_str()), Some("hello"));
    assert!(encoded.has_audio);
    assert_eq!(encoded.audio, AudioView { sample_rate: 24_000, channels: 2, sample_count: 6 });
    assert!(encoded.has_voice);
    assert!(encoded.voice.has_speaker);
    assert!(!encoded.voice.has_speaker_audio);
    assert_eq!(encoded.voice.cached_voice_id.map(String::as_str), Some("v1"));
    assert_eq!(encoded.voice.emotion.map(String::as_str), Some("happy"));
    assert_eq!(encoded.voice.language, None);
    assert!(encoded.voice.has_speaking_rate);
    assert_eq!(f32::from_bits(encoded.voice.speaking_rate), 1.5);
    assert!(!encoded.voice.has_pitch_shift);
    assert_eq!(encoded.artifacts.len(), 1);
    assert_eq!(encoded.artifacts[0].payload_size, 4);
    assert_eq!(encoded.artifacts[0].kind, ArtifactKind::SpeakerEmbedding);
    assert!(encoded.options.is_empty());
}

#[test]
fn absent_voice_encodes_to_zeroes() {
    let encoded = encode_voice_condition(&None);
    assert!(!encoded.has_speaker);
    assert!(!encoded.has_style);
    assert_eq!(encoded.speaker_audio, AudioView { sample_rate: 0, channels: 0, sample_count: 0 });
    assert!(encoded.tags.is_none());
    assert_eq!(encoded.speaking_rate, 0);
}

#[test]
fn preparation_request_encodes_audio_contract() {
    let request = SessionPreparationRequest {
        audio: Some(AudioPreparationContract { sample_rate: 16_000, channels: 1, max_input_samples: 480_000 }),
        text: None,
        voice: None,
        options: StringMap::new(),
    };
    let encoded = EncodedPrepRequest::new(&request).unwrap();
    assert!(encoded.has_audio);
    assert_eq!(encoded.audio_sample_rate, 16_000);
    assert_eq!(encoded.max_input_samples, 480_000);
    assert!(!encoded.has_voice);

    let empty = SessionPreparationRequest::default();
    let encoded = EncodedPrepRequest::new(&empty).unwrap();
    assert!(!encoded.has_audio);
    assert_eq!(encoded.audio_channels, 0);
}

#[test]
fn preparation_request_reports_nul_in_options() {
    let mut options = StringMap::new();
    options.insert("good".to_string(), "fine".to_string());
    options.insert("bad".to_string(), "x\0".to_string());
    let request = SessionPreparationRequest { options, ..SessionPreparationRequest::default() };
    assert_eq!(EncodedPrepRequest::new(&request).unwrap_err(), Error::Nul(1));
}

#[test]
fn session_options_encode() {
    let options = SessionOptions::new().backend(BackendConfig::cpu(4)).option("a", "b");
    let encoded = EncodedSessionOptions::new(&options).unwrap();
    assert_eq!(encoded.backend.threads, 4);
    assert_eq!(encoded.options.len(), 1);
    let bad = SessionOptions::new().option("a\0", "b");
    assert_eq!(EncodedSessionOptions::new(&bad).unwrap_err(), Error::Nul(1));
}

#[test]
fn audio_chunk_view() {
    let chunk = AudioChunk::new(16_000, 1, 3_200, vec![0; 320]);
    let encoded = encode_audio_chunk(&chunk);
    assert_eq!(encoded.sample_count, 320);
    assert_eq!(encoded.start_sample, 3_200);
    assert_eq!(encoded.sample_rate, 16_000);
}
