use audio_cpp::{model_spec_path, single_segment};

#[test]
fn bundled_spec_path_for_a_family() {
    assert_eq!(
        model_spec_path("/src/audio-cpp", "qwen3_tts").as_deref(),
        Some("/src/audio-cpp/../audio-cpp-sys/audio.cpp/model_specs/qwen3_tts.json")
    );
    assert_eq!(
        model_spec_path("/src/audio-cpp/", "silero_vad").as_deref(),
        Some("/src/audio-cpp/../audio-cpp-sys/audio.cpp/model_specs/silero_vad.json")
    );
}

#[test]
fn families_that_are_not_one_segment_have_no_spec() {
    assert!(model_spec_path("/src", "../nope").is_none());
    assert!(model_spec_path("/src", "").is_none());
    assert!(model_spec_path("/src", "a/b").is_none());
    assert!(model_spec_path("/src", "a\\b").is_none());
    assert!(model_spec_path("/src", "a..b").is_none());
    assert!(single_segment("a.b"));
    assert!(single_segment("."));
    assert!(!single_segment(".."));
}
