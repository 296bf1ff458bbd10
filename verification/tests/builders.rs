use audio_cpp::{
    AudioBuffer, AudioChunk, BackendConfig, BackendType, ModelLoadRequest, RunMode, SessionOptions,
    TaskOptions, TaskRequest, TaskSpec, Transcript, VoiceCondition, VoiceTaskKind,
};

#[test]
fn builders_preserve_fields() {
    let request = ModelLoadRequest::new("/tmp/model")
        .family_hint("silero_vad")
        .config_id("default")
        .option("key", "value");
    assert_eq!(request.model_path, "/tmp/model");
    assert_eq!(request.family_hint.as_deref(), Some("silero_vad"));
    assert_eq!(
        request.options.get("key").map(String::as_str),
        Some("value")
    );

    let task = TaskRequest::new()
        .text("hello")
        .audio(AudioBuffer::new(16_000, 1, vec![0.0f32.to_bits(), 0.1f32.to_bits()]))
        .options(TaskOptions {
            temperature: Some(0.7f32.to_string()),
            ..TaskOptions::default()
        });
    assert_eq!(
        task.text.as_ref().map(|text| text.text.as_str()),
        Some("hello")
    );
    assert_eq!(
        task.audio.as_ref().map(|audio| audio.sample_rate),
        Some(16_000)
    );
    assert_eq!(task.options.temperature, Some(0.7f32.to_string()));
}

#[test]
fn load_request_builders_set_every_field() {
    let request = ModelLoadRequest::new("/m")
        .model_spec_override("/spec.json")
        .weight_id("w1")
        .config_id("c1")
        .option("a", "1")
        .option("a", "2");
    assert_eq!(request.model_spec_override.as_deref(), Some("/spec.json"));
    assert_eq!(request.weight_id.as_deref(), Some("w1"));
    assert_eq!(request.config_id.as_deref(), Some("c1"));
    assert_eq!(request.family_hint, None);
    assert_eq!(request.options.get("a").map(String::as_str), Some("2"));
    assert_eq!(request.options.len(), 1);
}

#[test]
fn task_spec_helpers() {
    assert_eq!(
        TaskSpec::offline(VoiceTaskKind::Tts),
        TaskSpec { task: VoiceTaskKind::Tts, mode: RunMode::Offline }
    );
    assert_eq!(TaskSpec::streaming(VoiceTaskKind::Asr).mode, RunMode::Streaming);
    assert_eq!(TaskSpec::new(VoiceTaskKind::Vad, RunMode::Streaming).task, VoiceTaskKind::Vad);
}

#[test]
fn backend_defaults_and_session_options() {
    assert_eq!(
        BackendConfig::default(),
        BackendConfig { backend: BackendType::Cpu, device: 0, threads: 1 }
    );
    assert_eq!(BackendConfig::cpu(8).threads, 8);
    assert_eq!(BackendConfig::cpu(8).backend, BackendType::Cpu);
    let options = SessionOptions::new()
        .backend(BackendConfig { backend: BackendType::Metal, device: 1, threads: 4 })
        .option("x", "y");
    assert_eq!(options.backend.backend, BackendType::Metal);
    assert_eq!(options.options.get("x").map(String::as_str), Some("y"));
    assert_eq!(SessionOptions::new().backend, BackendConfig::default());
}

#[test]
fn task_request_builders() {
    let request = TaskRequest::new()
        .transcript(Transcript::new("hallo", "de"))
        .voice(VoiceCondition::default());
    assert_eq!(request.text, Some(Transcript { text: "hallo".into(), language: "de".into() }));
    assert!(request.voice.is_some());
    assert!(request.audio.is_none());
    assert_eq!(TaskRequest::new().text("x").text.unwrap().language, "");
    let chunk = AudioChunk::new(8_000, 2, 160, vec![1.0f32.to_bits()]);
    assert_eq!(chunk.start_sample, 160);
    assert_eq!(f32::from_bits(chunk.samples[0]), 1.0);
}
