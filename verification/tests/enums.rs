use audio_cpp::{
    runtime_parse_result, ArtifactKind, BackendType, Error, ErrorKind, RunMode, Status,
    VoiceTaskKind,
};

#[test]
fn parses_well_known_enums() {
    assert_eq!("tts".parse::<VoiceTaskKind>().unwrap(), VoiceTaskKind::Tts);
    assert_eq!("offline".parse::<RunMode>().unwrap(), RunMode::Offline);
    assert_eq!("metal".parse::<BackendType>().unwrap(), BackendType::Metal);
    assert_eq!("rocm".parse::<BackendType>().unwrap(), BackendType::Hip);
    assert_eq!(
        "speaker_embedding".parse::<ArtifactKind>().unwrap(),
        ArtifactKind::SpeakerEmbedding
    );
    assert!("nope".parse::<VoiceTaskKind>().is_err());
}

#[test]
fn parses_task_kind_names() {
    let kind = VoiceTaskKind::parse("tts").unwrap();
    assert_eq!(kind, VoiceTaskKind::Tts);
    assert_eq!(kind.as_str(), "tts");
    match VoiceTaskKind::parse("not-a-task") {
        Err(Error::Native { kind, message }) => {
            assert_eq!(kind, ErrorKind::Unsupported);
            assert!(!message.is_empty());
        }
        other => panic!("unexpected result: {other:?}"),
    }
}

#[test]
fn every_voice_task_kind_parses_back_from_its_name() {
    let all = [
        VoiceTaskKind::Vad,
        VoiceTaskKind::Asr,
        VoiceTaskKind::Diarization,
        VoiceTaskKind::SourceSeparation,
        VoiceTaskKind::AudioGeneration,
        VoiceTaskKind::Tts,
        VoiceTaskKind::VoiceCloning,
        VoiceTaskKind::VoiceConversion,
        VoiceTaskKind::SpeechToSpeech,
        VoiceTaskKind::Alignment,
        VoiceTaskKind::VoiceDesign,
        VoiceTaskKind::SpeakerRecognition,
        VoiceTaskKind::Svc,
        VoiceTaskKind::Midi,
    ];
    for kind in all {
        assert_eq!(VoiceTaskKind::parse(kind.as_str()).unwrap(), kind);
    }
    assert_eq!(VoiceTaskKind::Diarization.as_str(), "diar");
    assert_eq!(VoiceTaskKind::VoiceCloning.as_str(), "clon");
    assert_eq!(VoiceTaskKind::SpeechToSpeech.as_str(), "s2s");
}

#[test]
fn every_backend_and_artifact_parses_back_from_its_name() {
    for kind in [
        BackendType::Cpu,
        BackendType::Cuda,
        BackendType::Hip,
        BackendType::Vulkan,
        BackendType::Metal,
        BackendType::BestAvailable,
    ] {
        assert_eq!(BackendType::parse(kind.as_str()).unwrap(), kind);
    }
    assert_eq!(BackendType::BestAvailable.as_str(), "best");
    for kind in [
        ArtifactKind::SpeakerEmbedding,
        ArtifactKind::StyleEmbedding,
        ArtifactKind::PromptEmbedding,
        ArtifactKind::AcousticTokens,
        ArtifactKind::Midi,
        ArtifactKind::TranscriptAlignment,
        ArtifactKind::DiarizationState,
        ArtifactKind::VadState,
        ArtifactKind::Custom,
    ] {
        assert_eq!(ArtifactKind::parse(kind.as_str()).unwrap(), kind);
    }
    assert_eq!(RunMode::parse("streaming").unwrap(), RunMode::Streaming);
    assert_eq!(RunMode::Streaming.as_str(), "streaming");
}

#[test]
fn unknown_name_reports_unsupported_with_the_text() {
    match RunMode::parse("batch") {
        Err(Error::Native { kind, message }) => {
            assert_eq!(kind, ErrorKind::Unsupported);
            assert_eq!(message, "unknown run mode `batch`");
        }
        other => panic!("unexpected result: {other:?}"),
    }
}

#[test]
fn names_are_case_sensitive() {
    assert!("TTS".parse::<VoiceTaskKind>().is_err());
    assert!("Metal".parse::<BackendType>().is_err());
}

#[test]
fn interior_nul_is_reported_before_the_name() {
    assert_eq!("ab\0c".parse::<RunMode>(), Err(Error::Nul(2)));
    assert_eq!(BackendType::parse("\0"), Err(Error::Nul(0)));
}

#[test]
fn runtime_parse_result_keeps_the_runtime_kind_and_error() {
    assert_eq!(
        runtime_parse_result(Status::Success, BackendType::Hip, "").unwrap(),
        BackendType::Hip
    );
    match runtime_parse_result(Status::Unsupported, VoiceTaskKind::Vad, "unknown task 'nope'") {
        Err(Error::Native { kind, message }) => {
            assert_eq!(kind, ErrorKind::Unsupported);
            assert_eq!(message, "unknown task 'nope'");
        }
        other => panic!("unexpected result: {other:?}"),
    }
    match runtime_parse_result(Status::InvalidArgument, RunMode::Offline, "bad") {
        Err(Error::Native { kind, message }) => {
            assert_eq!(kind, ErrorKind::InvalidArgument);
            assert_eq!(message, "bad");
        }
        other => panic!("unexpected result: {other:?}"),
    }
}
