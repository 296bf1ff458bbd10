use audio_cpp::{
    AceStepOptions, AudioChunkMode, ChatterboxOptions, DramaBoxOptions, FamilyOptions,
    IndexTts2Options, NemotronAsrOptions, OmnivoiceOptions, PocketTtsOptions, Qwen3TtsOptions,
    SileroVadOptions, StableAudioOptions, TaskOptions, TextChunkMode, VoxCpm2Options,
};

#[test]
fn omits_none_fields() {
    let encoded = TaskOptions {
        seed: Some(7),
        ..TaskOptions::default()
    }
    .encode();
    assert_eq!(encoded.get("seed").map(String::as_str), Some("7"));
    assert!(!encoded.contains_key("temperature"));
    assert!(!encoded.contains_key("guidance_scale"));
}

#[test]
fn voxcpm2_encodes_unique_and_common_keys() {
    let encoded = TaskOptions::from(VoxCpm2Options {
        seed: Some(1234),
        guidance_scale: Some(2.0f32.to_string()),
        num_inference_steps: Some(10),
        retry_badcase: Some(false),
        prompt_text: Some("warm".into()),
        ..VoxCpm2Options::default()
    })
    .encode();
    assert_eq!(encoded.get("seed").map(String::as_str), Some("1234"));
    assert_eq!(encoded.get("guidance_scale").map(String::as_str), Some("2"));
    assert_eq!(
        encoded.get("num_inference_steps").map(String::as_str),
        Some("10")
    );
    assert_eq!(
        encoded.get("retry_badcase").map(String::as_str),
        Some("false")
    );
    assert_eq!(encoded.get("prompt_text").map(String::as_str), Some("warm"));
    assert!(!encoded.contains_key("min_tokens"));
}

#[test]
fn unset_options_encode_to_an_empty_map() {
    let encoded = TaskOptions::new().encode();
    assert!(encoded.is_empty());
    assert_eq!(encoded.len(), 0);
}

#[test]
fn every_kind_of_value_is_rendered() {
    let encoded = TaskOptions {
        seed: Some(u32::MAX),
        top_k: Some(-40),
        num_beams: Some(0),
        do_sample: Some(true),
        return_timestamps: Some(false),
        sampler: Some("euler".into()),
        temperature: Some(0.7f32.to_string()),
        text_chunk_mode: Some(TextChunkMode::WordBudget),
        audio_chunk_mode: Some(AudioChunkMode::Off),
        target_voice: Some("/voices/a.wav".into()),
        ..TaskOptions::default()
    }
    .encode();
    assert_eq!(encoded.get("seed").map(String::as_str), Some("4294967295"));
    assert_eq!(encoded.get("top_k").map(String::as_str), Some("-40"));
    assert_eq!(encoded.get("num_beams").map(String::as_str), Some("0"));
    assert_eq!(encoded.get("do_sample").map(String::as_str), Some("true"));
    assert_eq!(encoded.get("return_timestamps").map(String::as_str), Some("false"));
    assert_eq!(encoded.get("sampler").map(String::as_str), Some("euler"));
    assert_eq!(encoded.get("temperature").map(String::as_str), Some("0.7"));
    assert_eq!(encoded.get("text_chunk_mode").map(String::as_str), Some("word_budget"));
    assert_eq!(encoded.get("audio_chunk_mode").map(String::as_str), Some("none"));
    assert_eq!(encoded.get("target_voice").map(String::as_str), Some("/voices/a.wav"));
    assert_eq!(encoded.len(), 10);
}

#[test]
fn minimum_signed_value_is_rendered() {
    let encoded = TaskOptions { max_tokens: Some(i32::MIN), ..TaskOptions::default() }.encode();
    assert_eq!(encoded.get("max_tokens").map(String::as_str), Some("-2147483648"));
}

#[test]
fn encoded_keys_iterate_in_order() {
    let encoded = TaskOptions {
        seed: Some(1),
        lyrics: Some("la".into()),
        route: Some("r".into()),
        do_sample: Some(true),
        ..TaskOptions::default()
    }
    .encode();
    let keys: Vec<&str> = encoded.entries().iter().map(|(k, _)| k.as_str()).collect();
    assert_eq!(keys, vec!["do_sample", "lyrics", "route", "seed"]);
}

#[test]
fn chunk_mode_names() {
    assert_eq!(TextChunkMode::Default.as_str(), "default");
    assert_eq!(TextChunkMode::TagAware.as_str(), "tag_aware");
    assert_eq!(TextChunkMode::Japanese.as_str(), "japanese");
    assert_eq!(TextChunkMode::Endline.as_str(), "endline");
    assert_eq!(AudioChunkMode::Auto.as_str(), "auto");
    assert_eq!(AudioChunkMode::Fixed.as_str(), "fixed");
    assert_eq!(AudioChunkMode::Vad.as_str(), "vad");
    assert_eq!(AudioChunkMode::QuietEnergy.as_str(), "quiet_energy");
}

#[test]
fn qwen3_conversion_keeps_shared_fields_and_extras() {
    let options = TaskOptions::from(Qwen3TtsOptions {
        temperature: Some(0.9f32.to_string()),
        reference_text: Some("ref".into()),
        speaker: Some("vivian".into()),
        x_vector_only_mode: Some(true),
        ..Qwen3TtsOptions::default()
    });
    assert_eq!(options.temperature.as_deref(), Some("0.9"));
    assert_eq!(options.reference_text.as_deref(), Some("ref"));
    assert!(matches!(options.family, Some(FamilyOptions::Qwen3Tts(_))));
    let encoded = options.encode();
    assert_eq!(encoded.get("reference_text").map(String::as_str), Some("ref"));
    assert_eq!(encoded.get("speaker").map(String::as_str), Some("vivian"));
    assert_eq!(encoded.get("x_vector_only_mode").map(String::as_str), Some("true"));
    assert_eq!(encoded.len(), 4);
}

#[test]
fn silero_vad_keeps_only_extras() {
    let options = TaskOptions::from(SileroVadOptions {
        threshold: Some(0.5f32.to_string()),
        min_speech_duration_ms: Some(250),
        use_max_poss_sil_at_max_speech: Some(false),
        ..SileroVadOptions::default()
    });
    assert_eq!(options.seed, None);
    let encoded = options.encode();
    assert_eq!(encoded.get("threshold").map(String::as_str), Some("0.5"));
    assert_eq!(encoded.get("min_speech_duration_ms").map(String::as_str), Some("250"));
    assert_eq!(encoded.get("use_max_poss_sil_at_max_speech").map(String::as_str), Some("false"));
    assert_eq!(encoded.len(), 3);
}

#[test]
fn dramabox_has_no_extra_keys() {
    let encoded = TaskOptions::from(DramaBoxOptions {
        seed: Some(3),
        negative_prompt: Some("noise".into()),
        target_voice: Some("/v.wav".into()),
        ..DramaBoxOptions::default()
    })
    .encode();
    assert_eq!(encoded.get("seed").map(String::as_str), Some("3"));
    assert_eq!(encoded.get("negative_prompt").map(String::as_str), Some("noise"));
    assert_eq!(encoded.get("target_voice").map(String::as_str), Some("/v.wav"));
    assert_eq!(encoded.len(), 3);
}

#[test]
fn chatterbox_and_pocket_extras() {
    let encoded = TaskOptions::from(ChatterboxOptions {
        exaggeration: Some(0.5f32.to_string()),
        greedy: Some(true),
        source_audio: Some("/src.wav".into()),
        ..ChatterboxOptions::default()
    })
    .encode();
    assert_eq!(encoded.get("exaggeration").map(String::as_str), Some("0.5"));
    assert_eq!(encoded.get("greedy").map(String::as_str), Some("true"));
    assert_eq!(encoded.get("source_audio").map(String::as_str), Some("/src.wav"));

    let encoded = TaskOptions::from(PocketTtsOptions {
        language: Some("en".into()),
        noise_file: Some("/n.bin".into()),
        frames_after_eos: Some(2),
        ..PocketTtsOptions::default()
    })
    .encode();
    assert_eq!(encoded.get("language").map(String::as_str), Some("en"));
    assert_eq!(encoded.get("noise_file").map(String::as_str), Some("/n.bin"));
    assert_eq!(encoded.get("frames_after_eos").map(String::as_str), Some("2"));
    assert_eq!(encoded.len(), 3);
}

#[test]
fn nemotron_and_index_tts2_extras() {
    let encoded = TaskOptions::from(NemotronAsrOptions {
        language: Some("de".into()),
        max_tokens: Some(64),
        lookahead_tokens: Some(4),
        keep_language_tags: Some(false),
        streaming: Some(true),
    })
    .encode();
    assert_eq!(encoded.get("language").map(String::as_str), Some("de"));
    assert_eq!(encoded.get("max_tokens").map(String::as_str), Some("64"));
    assert_eq!(encoded.get("lookahead_tokens").map(String::as_str), Some("4"));
    assert_eq!(encoded.get("keep_language_tags").map(String::as_str), Some("false"));
    assert_eq!(encoded.get("streaming").map(String::as_str), Some("true"));
    assert_eq!(encoded.len(), 5);

    let encoded = TaskOptions::from(IndexTts2Options {
        num_beams: Some(3),
        emotion_text: Some("calm".into()),
        interval_silence_ms: Some(200),
        ..IndexTts2Options::default()
    })
    .encode();
    assert_eq!(encoded.get("num_beams").map(String::as_str), Some("3"));
    assert_eq!(encoded.get("emotion_text").map(String::as_str), Some("calm"));
    assert_eq!(encoded.get("interval_silence_ms").map(String::as_str), Some("200"));
    assert_eq!(encoded.len(), 3);
}

#[test]
fn ace_step_writes_duration_under_both_keys() {
    let options = TaskOptions::from(AceStepOptions {
        duration_sec: Some(30.0f32.to_string()),
        lyrics: Some("la la".into()),
        bpm: Some(120),
        dcw_enabled: Some(true),
        ..AceStepOptions::default()
    });
    assert!(matches!(options.family, Some(FamilyOptions::AceStep(_))));
    let encoded = options.encode();
    assert_eq!(encoded.get("duration_sec").map(String::as_str), Some("30"));
    assert_eq!(encoded.get("duration_seconds").map(String::as_str), Some("30"));
    assert_eq!(encoded.get("lyrics").map(String::as_str), Some("la la"));
    assert_eq!(encoded.get("bpm").map(String::as_str), Some("120"));
    assert_eq!(encoded.get("dcw_enabled").map(String::as_str), Some("true"));
    assert_eq!(encoded.len(), 5);
}

#[test]
fn omnivoice_and_stable_audio_extras() {
    let encoded = TaskOptions::from(OmnivoiceOptions {
        text_chunk_mode: Some(TextChunkMode::Endline),
        speed: Some(1.25f32.to_string()),
        denoise: Some(true),
        ..OmnivoiceOptions::default()
    })
    .encode();
    assert_eq!(encoded.get("text_chunk_mode").map(String::as_str), Some("endline"));
    assert_eq!(encoded.get("speed").map(String::as_str), Some("1.25"));
    assert_eq!(encoded.get("denoise").map(String::as_str), Some("true"));
    assert_eq!(encoded.len(), 3);

    let encoded = TaskOptions::from(StableAudioOptions {
        prompt: Some("rain".into()),
        duration_sec: Some(5.0f32.to_string()),
        sampler: Some("dpmpp".into()),
        ..StableAudioOptions::default()
    })
    .encode();
    assert_eq!(encoded.get("prompt").map(String::as_str), Some("rain"));
    assert_eq!(encoded.get("duration_sec").map(String::as_str), Some("5"));
    assert_eq!(encoded.get("duration_seconds").map(String::as_str), Some("5"));
    assert_eq!(encoded.get("sampler").map(String::as_str), Some("dpmpp"));
    assert_eq!(encoded.len(), 4);
}

#[test]
fn family_extras_join_the_shared_map() {
    let shared = TaskOptions {
        seed: Some(3),
        language: Some("en".into()),
        ..TaskOptions::default()
    };
    let with_family = TaskOptions {
        family: Some(FamilyOptions::VoxCpm2(VoxCpm2Options {
            seed: Some(99),
            min_tokens: Some(4),
            prompt_text: Some("calm".into()),
            ..VoxCpm2Options::default()
        })),
        ..shared.clone()
    };
    let base = shared.encode();
    let all = with_family.encode();
    assert_eq!(all.len(), base.len() + 2);
    for (key, value) in base.entries() {
        assert_eq!(all.get(key), Some(value));
    }
    assert_eq!(all.get("seed").map(String::as_str), Some("3"));
    assert_eq!(all.get("min_tokens").map(String::as_str), Some("4"));
    assert_eq!(all.get("prompt_text").map(String::as_str), Some("calm"));
    assert!(!base.contains_key("min_tokens"));
}
