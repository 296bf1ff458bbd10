//! The keys that the option encoding writes: shared and family keys never
//! collide, so a family's extras join the shared map without overwriting it,
//! and a family struct converted into [`TaskOptions`] sends exactly its set
//! fields, each under its own key with its rendered value.

use vstd::prelude::*;

use crate::options::{
    ace_step_options_entries, chatterbox_options_entries, common_entries, drama_box_options_entries,
    encoded_options, entries_map, family_entries, index_tts2_options_entries,
    lemma_entries_map_keys, lemma_entries_map_value, nemotron_asr_options_entries,
    omnivoice_options_entries, option_entries, options_from_ace_step_options,
    options_from_chatterbox_options, options_from_drama_box_options,
    options_from_index_tts2_options, options_from_nemotron_asr_options,
    options_from_omnivoice_options, options_from_pocket_tts_options,
    options_from_qwen3_tts_options, options_from_silero_vad_options,
    options_from_stable_audio_options, options_from_vox_cpm2_options, pocket_tts_options_entries,
    qwen3_tts_options_entries, silero_vad_options_entries, stable_audio_options_entries,
    vox_cpm2_options_entries, AceStepOptions, ChatterboxOptions, DramaBoxOptions, FamilyOptions,
    IndexTts2Options, NemotronAsrOptions, OmnivoiceOptions, PocketTtsOptions, Qwen3TtsOptions,
    SileroVadOptions, StableAudioOptions, TaskOptions, VoxCpm2Options,
};
use crate::options::{
    audio_chunk_mode_name, text_chunk_mode_name,
    audio_chunk_value, bool_value, i32_value, text_chunk_value, text_value, u32_value,
};

use crate::text::{decimal, signed_decimal};

verus! {

/// A list of candidate entries, each a key and, when set, its text.
pub type Entries = Seq<(Seq<char>, Option<Seq<char>>)>;

/// No two entries of `s` share a key.
pub open spec fn entry_keys_distinct(s: Entries) -> bool {
    forall|a: int, b: int| 0 <= a < b < s.len() ==> #[trigger] s[a].0 != #[trigger] s[b].0
}

/// No entry of `a` has the key of an entry of `b`.
pub open spec fn entry_keys_disjoint(a: Entries, b: Entries) -> bool {
    forall|i: int, j: int| 0 <= i < a.len() && 0 <= j < b.len() ==> #[trigger] a[i].0 != #[trigger] b[j].0
}

/// The options with the family extras removed: only the shared fields.
pub open spec fn without_family(o: TaskOptions) -> TaskOptions {
    TaskOptions { family: None, ..o }
}

/// Encoding two lists of entries one after the other gives the first map
/// overwritten by the second.
pub proof fn lemma_entries_map_concat(a: Entries, b: Entries)
    ensures
        entries_map(a + b) == entries_map(a).union_prefer_right(entries_map(b)),
    decreases b.len(),
{
    if b.len() == 0 {
        assert(a + b =~= a);
        assert(entries_map(a).union_prefer_right(entries_map(b)) =~= entries_map(a));
    } else {
        lemma_entries_map_concat(a, b.drop_last());
        assert((a + b).drop_last() =~= a + b.drop_last());
        assert((a + b).last() == b.last());
        assert(entries_map(a + b) =~= entries_map(a).union_prefer_right(entries_map(b)));
    }
}

/// Two lists each without repeated keys, and sharing none, have none together.
pub proof fn lemma_distinct_concat(a: Entries, b: Entries)
    requires
        entry_keys_distinct(a),
        entry_keys_distinct(b),
        entry_keys_disjoint(a, b),
    ensures
        entry_keys_distinct(a + b),
{
    assert forall|x: int, y: int| 0 <= x < y < (a + b).len() implies #[trigger] (a + b)[x].0 != #[trigger] (a + b)[y].0 by {
        if y < a.len() {
            assert((a + b)[x] == a[x] && (a + b)[y] == a[y]);
        } else if x < a.len() {
            assert((a + b)[x] == a[x] && (a + b)[y] == b[y - a.len()]);
        } else {
            assert((a + b)[x] == b[x - a.len()] && (a + b)[y] == b[y - a.len()]);
        }
    }
}

/// In a list without repeated keys, each set entry's key maps to its text.
pub proof fn lemma_distinct_entry_value(s: Entries, i: int)
    requires
        entry_keys_distinct(s),
        0 <= i < s.len(),
        s[i].1 is Some,
    ensures
        entries_map(s).contains_key(s[i].0),
        entries_map(s)[s[i].0] == s[i].1->0,
{
    assert forall|j: int| i < j < s.len() && (#[trigger] s[j]).0 == s[i].0 implies s[j].1 is None by {
        assert(s[i].0 != s[j].0);
    }
    lemma_entries_map_value(s, i);
}

/// In a list without repeated keys, an entry's key is in the map exactly
/// when the entry is set, and then maps to the entry's text.
pub proof fn lemma_distinct_entry(s: Entries, i: int)
    requires
        entry_keys_distinct(s),
        0 <= i < s.len(),
    ensures
        entries_map(s).contains_key(s[i].0) <==> s[i].1 is Some,
        s[i].1 is Some ==> entries_map(s)[s[i].0] == s[i].1->0,
{
    if s[i].1 is Some {
        lemma_distinct_entry_value(s, i);
    } else {
        lemma_entries_map_keys(s, s[i].0);
        assert forall|j: int| 0 <= j < s.len() && (#[trigger] s[j]).0 == s[i].0 implies s[j].1 is None by {
            if j != i {
                if j < i {
                    assert(s[j].0 != s[i].0);
                } else {
                    assert(s[i].0 != s[j].0);
                }
            }
        }
    }
}

/// The shared option fields all have different keys.
pub proof fn lemma_shared_keys_distinct(o: TaskOptions)
    ensures
        entry_keys_distinct(common_entries(o)),
{
    reveal_strlit("audio_chunk_duration_sec");
    reveal_strlit("audio_chunk_mode");
    reveal_strlit("audio_chunk_threshold_sec");
    reveal_strlit("cross_fade_duration_sec");
    reveal_strlit("do_sample");
    reveal_strlit("duration_scale");
    reveal_strlit("duration_sec");
    reveal_strlit("guidance_rescale");
    reveal_strlit("guidance_scale");
    reveal_strlit("language");
    reveal_strlit("length_penalty");
    reveal_strlit("lyrics");
    reveal_strlit("max_new_tokens");
    reveal_strlit("max_tokens");
    reveal_strlit("min_p");
    reveal_strlit("negative_prompt");
    reveal_strlit("num_beams");
    reveal_strlit("num_inference_steps");
    reveal_strlit("reference_duration_sec");
    reveal_strlit("reference_language");
    reveal_strlit("reference_text");
    reveal_strlit("repetition_penalty");
    reveal_strlit("return_timestamps");
    reveal_strlit("route");
    reveal_strlit("sampler");
    reveal_strlit("seed");
    reveal_strlit("source_audio");
    reveal_strlit("spatio_temporal_guidance_scale");
    reveal_strlit("target_voice");
    reveal_strlit("temperature");
    reveal_strlit("text_chunk_mode");
    reveal_strlit("text_chunk_size");
    reveal_strlit("top_k");
    reveal_strlit("top_p");
    assert("audio_chunk_duration_sec"@.len() == 24);
    assert("audio_chunk_mode"@.len() == 16);
    assert("audio_chunk_threshold_sec"@.len() == 25);
    assert("cross_fade_duration_sec"@.len() == 23);
    assert("do_sample"@.len() == 9);
    assert("duration_scale"@.len() == 14);
    assert("duration_sec"@.len() == 12);
    assert("guidance_rescale"@.len() == 16);
    assert("guidance_scale"@.len() == 14);
    assert("language"@.len() == 8);
    assert("length_penalty"@.len() == 14);
    assert("lyrics"@.len() == 6);
    assert("max_new_tokens"@.len() == 14);
    assert("max_tokens"@.len() == 10);
    assert("min_p"@.len() == 5);
    assert("negative_prompt"@.len() == 15);
    assert("num_beams"@.len() == 9);
    assert("num_inference_steps"@.len() == 19);
    assert("reference_duration_sec"@.len() == 22);
    assert("reference_language"@.len() == 18);
    assert("reference_text"@.len() == 14);
    assert("repetition_penalty"@.len() == 18);
    assert("return_timestamps"@.len() == 17);
    assert("route"@.len() == 5);
    assert("sampler"@.len() == 7);
    assert("seed"@.len() == 4);
    assert("source_audio"@.len() == 12);
    assert("spatio_temporal_guidance_scale"@.len() == 30);
    assert("target_voice"@.len() == 12);
    assert("temperature"@.len() == 11);
    assert("text_chunk_mode"@.len() == 15);
    assert("text_chunk_size"@.len() == 15);
    assert("top_k"@.len() == 5);
    assert("top_p"@.len() == 5);
    assert("audio_chunk_mode"@[0] == 'a');
    assert("do_sample"@[0] == 'd');
    assert("duration_scale"@[0] == 'd');
    assert("duration_sec"@[0] == 'd');
    assert("guidance_rescale"@[0] == 'g');
    assert("guidance_scale"@[0] == 'g');
    assert("length_penalty"@[0] == 'l');
    assert("max_new_tokens"@[0] == 'm');
    assert("min_p"@[0] == 'm');
    assert("negative_prompt"@[0] == 'n');
    assert("num_beams"@[0] == 'n');
    assert("reference_language"@[2] == 'f');
    assert("reference_text"@[0] == 'r');
    assert("repetition_penalty"@[2] == 'p');
    assert("route"@[0] == 'r');
    assert("source_audio"@[0] == 's');
    assert("target_voice"@[0] == 't');
    assert("text_chunk_mode"@[0] == 't');
    assert("text_chunk_mode"@[11] == 'm');
    assert("text_chunk_size"@[0] == 't');
    assert("text_chunk_size"@[11] == 's');
    assert("top_k"@[0] == 't');
    assert("top_k"@[4] == 'k');
    assert("top_p"@[0] == 't');
    assert("top_p"@[4] == 'p');
}

/// The extra keys of [`VoxCpm2Options`] differ from each other and from every shared key.
proof fn lemma_vox_cpm2_keys(o: TaskOptions, x: VoxCpm2Options)
    ensures
        entry_keys_distinct(vox_cpm2_options_entries(x)),
        entry_keys_disjoint(common_entries(o), vox_cpm2_options_entries(x)),
{
    reveal_strlit("audio_chunk_duration_sec");
    reveal_strlit("audio_chunk_mode");
    reveal_strlit("audio_chunk_threshold_sec");
    reveal_strlit("cfm_noise_file");
    reveal_strlit("cross_fade_duration_sec");
    reveal_strlit("do_sample");
    reveal_strlit("duration_scale");
    reveal_strlit("duration_sec");
    reveal_strlit("guidance_rescale");
    reveal_strlit("guidance_scale");
    reveal_strlit("language");
    reveal_strlit("length_penalty");
    reveal_strlit("lyrics");
    reveal_strlit("max_new_tokens");
    reveal_strlit("max_tokens");
    reveal_strlit("min_p");
    reveal_strlit("min_tokens");
    reveal_strlit("negative_prompt");
    reveal_strlit("num_beams");
    reveal_strlit("num_inference_steps");
    reveal_strlit("prompt_text");
    reveal_strlit("reference_duration_sec");
    reveal_strlit("reference_language");
    reveal_strlit("reference_text");
    reveal_strlit("repetition_penalty");
    reveal_strlit("retry_badcase");
    reveal_strlit("retry_badcase_max_times");
    reveal_strlit("retry_badcase_ratio_threshold");
    reveal_strlit("return_timestamps");
    reveal_strlit("route");
    reveal_strlit("sampler");
    reveal_strlit("seed");
    reveal_strlit("source_audio");
    reveal_strlit("spatio_temporal_guidance_scale");
    reveal_strlit("target_voice");
    reveal_strlit("temperature");
    reveal_strlit("text_chunk_mode");
    reveal_strlit("text_chunk_size");
    reveal_strlit("top_k");
    reveal_strlit("top_p");
    assert("audio_chunk_duration_sec"@.len() == 24);
    assert("audio_chunk_mode"@.len() == 16);
    assert("audio_chunk_threshold_sec"@.len() == 25);
    assert("cfm_noise_file"@.len() == 14);
    assert("cross_fade_duration_sec"@.len() == 23);
    assert("do_sample"@.len() == 9);
    assert("duration_scale"@.len() == 14);
    assert("duration_sec"@.len() == 12);
    assert("guidance_rescale"@.len() == 16);
    assert("guidance_scale"@.len() == 14);
    assert("language"@.len() == 8);
    assert("length_penalty"@.len() == 14);
    assert("lyrics"@.len() == 6);
    assert("max_new_tokens"@.len() == 14);
    assert("max_tokens"@.len() == 10);
    assert("min_p"@.len() == 5);
    assert("min_tokens"@.len() == 10);
    assert("negative_prompt"@.len() == 15);
    assert("num_beams"@.len() == 9);
    assert("num_inference_steps"@.len() == 19);
    assert("prompt_text"@.len() == 11);
    assert("reference_duration_sec"@.len() == 22);
    assert("reference_language"@.len() == 18);
    assert("reference_text"@.len() == 14);
    assert("repetition_penalty"@.len() == 18);
    assert("retry_badcase"@.len() == 13);
    assert("retry_badcase_max_times"@.len() == 23);
    assert("retry_badcase_ratio_threshold"@.len() == 29);
    assert("return_timestamps"@.len() == 17);
    assert("route"@.len() == 5);
    assert("sampler"@.len() == 7);
    assert("seed"@.len() == 4);
    assert("source_audio"@.len() == 12);
    assert("spatio_temporal_guidance_scale"@.len() == 30);
    assert("target_voice"@.len() == 12);
    assert("temperature"@.len() == 11);
    assert("text_chunk_mode"@.len() == 15);
    assert("text_chunk_size"@.len() == 15);
    assert("top_k"@.len() == 5);
    assert("top_p"@.len() == 5);
    assert("cfm_noise_file"@[0] == 'c');
    assert("cross_fade_duration_sec"@[0] == 'c');
    assert("duration_scale"@[0] == 'd');
    assert("guidance_scale"@[0] == 'g');
    assert("length_penalty"@[0] == 'l');
    assert("max_new_tokens"@[0] == 'm');
    assert("max_tokens"@[1] == 'a');
    assert("min_tokens"@[1] == 'i');
    assert("prompt_text"@[0] == 'p');
    assert("reference_text"@[0] == 'r');
    assert("retry_badcase_max_times"@[0] == 'r');
    assert("temperature"@[0] == 't');
}

/// The extra keys of [`Qwen3TtsOptions`] differ from each other and from every shared key.
proof fn lemma_qwen3_tts_keys(o: TaskOptions, x: Qwen3TtsOptions)
    ensures
        entry_keys_distinct(qwen3_tts_options_entries(x)),
        entry_keys_disjoint(common_entries(o), qwen3_tts_options_entries(x)),
{
    reveal_strlit("audio_chunk_duration_sec");
    reveal_strlit("audio_chunk_mode");
    reveal_strlit("audio_chunk_threshold_sec");
    reveal_strlit("cross_fade_duration_sec");
    reveal_strlit("do_sample");
    reveal_strlit("duration_scale");
    reveal_strlit("duration_sec");
    reveal_strlit("guidance_rescale");
    reveal_strlit("guidance_scale");
    reveal_strlit("instruct");
    reveal_strlit("language");
    reveal_strlit("length_penalty");
    reveal_strlit("lyrics");
    reveal_strlit("max_new_tokens");
    reveal_strlit("max_tokens");
    reveal_strlit("min_p");
    reveal_strlit("negative_prompt");
    reveal_strlit("num_beams");
    reveal_strlit("num_inference_steps");
    reveal_strlit("reference_duration_sec");
    reveal_strlit("reference_language");
    reveal_strlit("reference_text");
    reveal_strlit("repetition_penalty");
    reveal_strlit("return_timestamps");
    reveal_strlit("route");
    reveal_strlit("sampler");
    reveal_strlit("seed");
    reveal_strlit("source_audio");
    reveal_strlit("spatio_temporal_guidance_scale");
    reveal_strlit("speaker");
    reveal_strlit("subtalker_do_sample");
    reveal_strlit("subtalker_temperature");
    reveal_strlit("subtalker_top_k");
    reveal_strlit("subtalker_top_p");
    reveal_strlit("target_voice");
    reveal_strlit("temperature");
    reveal_strlit("text_chunk_mode");
    reveal_strlit("text_chunk_size");
    reveal_strlit("top_k");
    reveal_strlit("top_p");
    reveal_strlit("x_vector_only_mode");
    assert("audio_chunk_duration_sec"@.len() == 24);
    assert("audio_chunk_mode"@.len() == 16);
    assert("audio_chunk_threshold_sec"@.len() == 25);
    assert("cross_fade_duration_sec"@.len() == 23);
    assert("do_sample"@.len() == 9);
    assert("duration_scale"@.len() == 14);
    assert("duration_sec"@.len() == 12);
    assert("guidance_rescale"@.len() == 16);
    assert("guidance_scale"@.len() == 14);
    assert("instruct"@.len() == 8);
    assert("language"@.len() == 8);
    assert("length_penalty"@.len() == 14);
    assert("lyrics"@.len() == 6);
    assert("max_new_tokens"@.len() == 14);
    assert("max_tokens"@.len() == 10);
    assert("min_p"@.len() == 5);
    assert("negative_prompt"@.len() == 15);
    assert("num_beams"@.len() == 9);
    assert("num_inference_steps"@.len() == 19);
    assert("reference_duration_sec"@.len() == 22);
    assert("reference_language"@.len() == 18);
    assert("reference_text"@.len() == 14);
    assert("repetition_penalty"@.len() == 18);
    assert("return_timestamps"@.len() == 17);
    assert("route"@.len() == 5);
    assert("sampler"@.len() == 7);
    assert("seed"@.len() == 4);
    assert("source_audio"@.len() == 12);
    assert("spatio_temporal_guidance_scale"@.len() == 30);
    assert("speaker"@.len() == 7);
    assert("subtalker_do_sample"@.len() == 19);
    assert("subtalker_temperature"@.len() == 21);
    assert("subtalker_top_k"@.len() == 15);
    assert("subtalker_top_p"@.len() == 15);
    assert("target_voice"@.len() == 12);
    assert("temperature"@.len() == 11);
    assert("text_chunk_mode"@.len() == 15);
    assert("text_chunk_size"@.len() == 15);
    assert("top_k"@.len() == 5);
    assert("top_p"@.len() == 5);
    assert("x_vector_only_mode"@.len() == 18);
    assert("instruct"@[0] == 'i');
    assert("language"@[0] == 'l');
    assert("negative_prompt"@[0] == 'n');
    assert("num_inference_steps"@[0] == 'n');
    assert("reference_language"@[0] == 'r');
    assert("repetition_penalty"@[0] == 'r');
    assert("sampler"@[1] == 'a');
    assert("speaker"@[1] == 'p');
    assert("subtalker_do_sample"@[0] == 's');
    assert("subtalker_top_k"@[0] == 's');
    assert("subtalker_top_k"@[14] == 'k');
    assert("subtalker_top_p"@[0] == 's');
    assert("subtalker_top_p"@[14] == 'p');
    assert("text_chunk_mode"@[0] == 't');
    assert("text_chunk_size"@[0] == 't');
    assert("x_vector_only_mode"@[0] == 'x');
}

/// The extra keys of [`SileroVadOptions`] differ from each other and from every shared key.
proof fn lemma_silero_vad_keys(o: TaskOptions, x: SileroVadOptions)
    ensures
        entry_keys_distinct(silero_vad_options_entries(x)),
        entry_keys_disjoint(common_entries(o), silero_vad_options_entries(x)),
{
    reveal_strlit("audio_chunk_duration_sec");
    reveal_strlit("audio_chunk_mode");
    reveal_strlit("audio_chunk_threshold_sec");
    reveal_strlit("cross_fade_duration_sec");
    reveal_strlit("do_sample");
    reveal_strlit("duration_scale");
    reveal_strlit("duration_sec");
    reveal_strlit("guidance_rescale");
    reveal_strlit("guidance_scale");
    reveal_strlit("language");
    reveal_strlit("length_penalty");
    reveal_strlit("lyrics");
    reveal_strlit("max_new_tokens");
    reveal_strlit("max_speech_duration_s");
    reveal_strlit("max_tokens");
    reveal_strlit("min_p");
    reveal_strlit("min_silence_at_max_speech_ms");
    reveal_strlit("min_silence_duration_ms");
    reveal_strlit("min_speech_duration_ms");
    reveal_strlit("neg_threshold");
    reveal_strlit("negative_prompt");
    reveal_strlit("num_beams");
    reveal_strlit("num_inference_steps");
    reveal_strlit("reference_duration_sec");
    reveal_strlit("reference_language");
    reveal_strlit("reference_text");
    reveal_strlit("repetition_penalty");
    reveal_strlit("return_timestamps");
    reveal_strlit("route");
    reveal_strlit("sampler");
    reveal_strlit("seed");
    reveal_strlit("source_audio");
    reveal_strlit("spatio_temporal_guidance_scale");
    reveal_strlit("speech_pad_ms");
    reveal_strlit("target_voice");
    reveal_strlit("temperature");
    reveal_strlit("text_chunk_mode");
    reveal_strlit("text_chunk_size");
    reveal_strlit("threshold");
    reveal_strlit("top_k");
    reveal_strlit("top_p");
    reveal_strlit("use_max_poss_sil_at_max_speech");
    assert("audio_chunk_duration_sec"@.len() == 24);
    assert("audio_chunk_mode"@.len() == 16);
    assert("audio_chunk_threshold_sec"@.len() == 25);
    assert("cross_fade_duration_sec"@.len() == 23);
    assert("do_sample"@.len() == 9);
    assert("duration_scale"@.len() == 14);
    assert("duration_sec"@.len() == 12);
    assert("guidance_rescale"@.len() == 16);
    assert("guidance_scale"@.len() == 14);
    assert("language"@.len() == 8);
    assert("length_penalty"@.len() == 14);
    assert("lyrics"@.len() == 6);
    assert("max_new_tokens"@.len() == 14);
    assert("max_speech_duration_s"@.len() == 21);
    assert("max_tokens"@.len() == 10);
    assert("min_p"@.len() == 5);
    assert("min_silence_at_max_speech_ms"@.len() == 28);
    assert("min_silence_duration_ms"@.len() == 23);
    assert("min_speech_duration_ms"@.len() == 22);
    assert("neg_threshold"@.len() == 13);
    assert("negative_prompt"@.len() == 15);
    assert("num_beams"@.len() == 9);
    assert("num_inference_steps"@.len() == 19);
    assert("reference_duration_sec"@.len() == 22);
    assert("reference_language"@.len() == 18);
    assert("reference_text"@.len() == 14);
    assert("repetition_penalty"@.len() == 18);
    assert("return_timestamps"@.len() == 17);
    assert("route"@.len() == 5);
    assert("sampler"@.len() == 7);
    assert("seed"@.len() == 4);
    assert("source_audio"@.len() == 12);
    assert("spatio_temporal_guidance_scale"@.len() == 30);
    assert("speech_pad_ms"@.len() == 13);
    assert("target_voice"@.len() == 12);
    assert("temperature"@.len() == 11);
    assert("text_chunk_mode"@.len() == 15);
    assert("text_chunk_size"@.len() == 15);
    assert("threshold"@.len() == 9);
    assert("top_k"@.len() == 5);
    assert("top_p"@.len() == 5);
    assert("use_max_poss_sil_at_max_speech"@.len() == 30);
    assert("cross_fade_duration_sec"@[0] == 'c');
    assert("do_sample"@[0] == 'd');
    assert("min_silence_duration_ms"@[0] == 'm');
    assert("min_speech_duration_ms"@[0] == 'm');
    assert("neg_threshold"@[0] == 'n');
    assert("num_beams"@[0] == 'n');
    assert("reference_duration_sec"@[0] == 'r');
    assert("spatio_temporal_guidance_scale"@[0] == 's');
    assert("speech_pad_ms"@[0] == 's');
    assert("threshold"@[0] == 't');
    assert("use_max_poss_sil_at_max_speech"@[0] == 'u');
}

/// The extra keys of [`DramaBoxOptions`] differ from each other and from every shared key.
proof fn lemma_drama_box_keys(o: TaskOptions, x: DramaBoxOptions)
    ensures
        entry_keys_distinct(drama_box_options_entries(x)),
        entry_keys_disjoint(common_entries(o), drama_box_options_entries(x)),
{
}

/// The extra keys of [`ChatterboxOptions`] differ from each other and from every shared key.
proof fn lemma_chatterbox_keys(o: TaskOptions, x: ChatterboxOptions)
    ensures
        entry_keys_distinct(chatterbox_options_entries(x)),
        entry_keys_disjoint(common_entries(o), chatterbox_options_entries(x)),
{
    reveal_strlit("audio_chunk_duration_sec");
    reveal_strlit("audio_chunk_mode");
    reveal_strlit("audio_chunk_threshold_sec");
    reveal_strlit("cross_fade_duration_sec");
    reveal_strlit("do_sample");
    reveal_strlit("duration_scale");
    reveal_strlit("duration_sec");
    reveal_strlit("exaggeration");
    reveal_strlit("greedy");
    reveal_strlit("guidance_rescale");
    reveal_strlit("guidance_scale");
    reveal_strlit("language");
    reveal_strlit("length_penalty");
    reveal_strlit("lyrics");
    reveal_strlit("max_new_tokens");
    reveal_strlit("max_tokens");
    reveal_strlit("min_p");
    reveal_strlit("negative_prompt");
    reveal_strlit("num_beams");
    reveal_strlit("num_inference_steps");
    reveal_strlit("reference_duration_sec");
    reveal_strlit("reference_language");
    reveal_strlit("reference_text");
    reveal_strlit("repetition_penalty");
    reveal_strlit("return_timestamps");
    reveal_strlit("route");
    reveal_strlit("s3gen_cfg_rate");
    reveal_strlit("sampler");
    reveal_strlit("seed");
    reveal_strlit("source_audio");
    reveal_strlit("spatio_temporal_guidance_scale");
    reveal_strlit("stop_on_eos");
    reveal_strlit("target_voice");
    reveal_strlit("temperature");
    reveal_strlit("text_chunk_mode");
    reveal_strlit("text_chunk_size");
    reveal_strlit("top_k");
    reveal_strlit("top_p");
    assert("audio_chunk_duration_sec"@.len() == 24);
    assert("audio_chunk_mode"@.len() == 16);
    assert("audio_chunk_threshold_sec"@.len() == 25);
    assert("cross_fade_duration_sec"@.len() == 23);
    assert("do_sample"@.len() == 9);
    assert("duration_scale"@.len() == 14);
    assert("duration_sec"@.len() == 12);
    assert("exaggeration"@.len() == 12);
    assert("greedy"@.len() == 6);
    assert("guidance_rescale"@.len() == 16);
    assert("guidance_scale"@.len() == 14);
    assert("language"@.len() == 8);
    assert("length_penalty"@.len() == 14);
    assert("lyrics"@.len() == 6);
    assert("max_new_tokens"@.len() == 14);
    assert("max_tokens"@.len() == 10);
    assert("min_p"@.len() == 5);
    assert("negative_prompt"@.len() == 15);
    assert("num_beams"@.len() == 9);
    assert("num_inference_steps"@.len() == 19);
    assert("reference_duration_sec"@.len() == 22);
    assert("reference_language"@.len() == 18);
    assert("reference_text"@.len() == 14);
    assert("repetition_penalty"@.len() == 18);
    assert("return_timestamps"@.len() == 17);
    assert("route"@.len() == 5);
    assert("s3gen_cfg_rate"@.len() == 14);
    assert("sampler"@.len() == 7);
    assert("seed"@.len() == 4);
    assert("source_audio"@.len() == 12);
    assert("spatio_temporal_guidance_scale"@.len() == 30);
    assert("stop_on_eos"@.len() == 11);
    assert("target_voice"@.len() == 12);
    assert("temperature"@.len() == 11);
    assert("text_chunk_mode"@.len() == 15);
    assert("text_chunk_size"@.len() == 15);
    assert("top_k"@.len() == 5);
    assert("top_p"@.len() == 5);
    assert("duration_scale"@[0] == 'd');
    assert("duration_sec"@[0] == 'd');
    assert("exaggeration"@[0] == 'e');
    assert("greedy"@[0] == 'g');
    assert("guidance_scale"@[0] == 'g');
    assert("length_penalty"@[0] == 'l');
    assert("lyrics"@[0] == 'l');
    assert("max_new_tokens"@[0] == 'm');
    assert("reference_text"@[0] == 'r');
    assert("s3gen_cfg_rate"@[0] == 's');
    assert("source_audio"@[0] == 's');
    assert("stop_on_eos"@[0] == 's');
    assert("target_voice"@[0] == 't');
    assert("temperature"@[0] == 't');
}

/// The extra keys of [`PocketTtsOptions`] differ from each other and from every shared key.
proof fn lemma_pocket_tts_keys(o: TaskOptions, x: PocketTtsOptions)
    ensures
        entry_keys_distinct(pocket_tts_options_entries(x)),
        entry_keys_disjoint(common_entries(o), pocket_tts_options_entries(x)),
{
    reveal_strlit("audio_chunk_duration_sec");
    reveal_strlit("audio_chunk_mode");
    reveal_strlit("audio_chunk_threshold_sec");
    reveal_strlit("cross_fade_duration_sec");
    reveal_strlit("do_sample");
    reveal_strlit("duration_scale");
    reveal_strlit("duration_sec");
    reveal_strlit("eos_threshold");
    reveal_strlit("frames_after_eos");
    reveal_strlit("guidance_rescale");
    reveal_strlit("guidance_scale");
    reveal_strlit("language");
    reveal_strlit("length_penalty");
    reveal_strlit("lyrics");
    reveal_strlit("max_new_tokens");
    reveal_strlit("max_steps");
    reveal_strlit("max_tokens");
    reveal_strlit("min_p");
    reveal_strlit("negative_prompt");
    reveal_strlit("noise_clamp");
    reveal_strlit("noise_file");
    reveal_strlit("num_beams");
    reveal_strlit("num_inference_steps");
    reveal_strlit("reference_duration_sec");
    reveal_strlit("reference_language");
    reveal_strlit("reference_text");
    reveal_strlit("repetition_penalty");
    reveal_strlit("return_timestamps");
    reveal_strlit("route");
    reveal_strlit("sampler");
    reveal_strlit("seed");
    reveal_strlit("source_audio");
    reveal_strlit("spatio_temporal_guidance_scale");
    reveal_strlit("target_voice");
    reveal_strlit("temperature");
    reveal_strlit("text_chunk_mode");
    reveal_strlit("text_chunk_size");
    reveal_strlit("top_k");
    reveal_strlit("top_p");
    reveal_strlit("truncate_clone_audio");
    reveal_strlit("voice_clone_text");
    reveal_strlit("voice_embedding_path");
    assert("audio_chunk_duration_sec"@.len() == 24);
    assert("audio_chunk_mode"@.len() == 16);
    assert("audio_chunk_threshold_sec"@.len() == 25);
    assert("cross_fade_duration_sec"@.len() == 23);
    assert("do_sample"@.len() == 9);
    assert("duration_scale"@.len() == 14);
    assert("duration_sec"@.len() == 12);
    assert("eos_threshold"@.len() == 13);
    assert("frames_after_eos"@.len() == 16);
    assert("guidance_rescale"@.len() == 16);
    assert("guidance_scale"@.len() == 14);
    assert("language"@.len() == 8);
    assert("length_penalty"@.len() == 14);
    assert("lyrics"@.len() == 6);
    assert("max_new_tokens"@.len() == 14);
    assert("max_steps"@.len() == 9);
    assert("max_tokens"@.len() == 10);
    assert("min_p"@.len() == 5);
    assert("negative_prompt"@.len() == 15);
    assert("noise_clamp"@.len() == 11);
    assert("noise_file"@.len() == 10);
    assert("num_beams"@.len() == 9);
    assert("num_inference_steps"@.len() == 19);
    assert("reference_duration_sec"@.len() == 22);
    assert("reference_language"@.len() == 18);
    assert("reference_text"@.len() == 14);
    assert("repetition_penalty"@.len() == 18);
    assert("return_timestamps"@.len() == 17);
    assert("route"@.len() == 5);
    assert("sampler"@.len() == 7);
    assert("seed"@.len() == 4);
    assert("source_audio"@.len() == 12);
    assert("spatio_temporal_guidance_scale"@.len() == 30);
    assert("target_voice"@.len() == 12);
    assert("temperature"@.len() == 11);
    assert("text_chunk_mode"@.len() == 15);
    assert("text_chunk_size"@.len() == 15);
    assert("top_k"@.len() == 5);
    assert("top_p"@.len() == 5);
    assert("truncate_clone_audio"@.len() == 20);
    assert("voice_clone_text"@.len() == 16);
    assert("voice_embedding_path"@.len() == 20);
    assert("audio_chunk_mode"@[0] == 'a');
    assert("do_sample"@[0] == 'd');
    assert("frames_after_eos"@[0] == 'f');
    assert("guidance_rescale"@[0] == 'g');
    assert("max_steps"@[0] == 'm');
    assert("max_tokens"@[0] == 'm');
    assert("noise_clamp"@[0] == 'n');
    assert("noise_file"@[0] == 'n');
    assert("num_beams"@[0] == 'n');
    assert("temperature"@[0] == 't');
    assert("truncate_clone_audio"@[0] == 't');
    assert("voice_clone_text"@[0] == 'v');
    assert("voice_embedding_path"@[0] == 'v');
}

/// The extra keys of [`NemotronAsrOptions`] differ from each other and from every shared key.
proof fn lemma_nemotron_asr_keys(o: TaskOptions, x: NemotronAsrOptions)
    ensures
        entry_keys_distinct(nemotron_asr_options_entries(x)),
        entry_keys_disjoint(common_entries(o), nemotron_asr_options_entries(x)),
{
    reveal_strlit("audio_chunk_duration_sec");
    reveal_strlit("audio_chunk_mode");
    reveal_strlit("audio_chunk_threshold_sec");
    reveal_strlit("cross_fade_duration_sec");
    reveal_strlit("do_sample");
    reveal_strlit("duration_scale");
    reveal_strlit("duration_sec");
    reveal_strlit("guidance_rescale");
    reveal_strlit("guidance_scale");
    reveal_strlit("keep_language_tags");
    reveal_strlit("language");
    reveal_strlit("length_penalty");
    reveal_strlit("lookahead_tokens");
    reveal_strlit("lyrics");
    reveal_strlit("max_new_tokens");
    reveal_strlit("max_tokens");
    reveal_strlit("min_p");
    reveal_strlit("negative_prompt");
    reveal_strlit("num_beams");
    reveal_strlit("num_inference_steps");
    reveal_strlit("reference_duration_sec");
    reveal_strlit("reference_language");
    reveal_strlit("reference_text");
    reveal_strlit("repetition_penalty");
    reveal_strlit("return_timestamps");
    reveal_strlit("route");
    reveal_strlit("sampler");
    reveal_strlit("seed");
    reveal_strlit("source_audio");
    reveal_strlit("spatio_temporal_guidance_scale");
    reveal_strlit("streaming");
    reveal_strlit("target_voice");
    reveal_strlit("temperature");
    reveal_strlit("text_chunk_mode");
    reveal_strlit("text_chunk_size");
    reveal_strlit("top_k");
    reveal_strlit("top_p");
    assert("audio_chunk_duration_sec"@.len() == 24);
    assert("audio_chunk_mode"@.len() == 16);
    assert("audio_chunk_threshold_sec"@.len() == 25);
    assert("cross_fade_duration_sec"@.len() == 23);
    assert("do_sample"@.len() == 9);
    assert("duration_scale"@.len() == 14);
    assert("duration_sec"@.len() == 12);
    assert("guidance_rescale"@.len() == 16);
    assert("guidance_scale"@.len() == 14);
    assert("keep_language_tags"@.len() == 18);
    assert("language"@.len() == 8);
    assert("length_penalty"@.len() == 14);
    assert("lookahead_tokens"@.len() == 16);
    assert("lyrics"@.len() == 6);
    assert("max_new_tokens"@.len() == 14);
    assert("max_tokens"@.len() == 10);
    assert("min_p"@.len() == 5);
    assert("negative_prompt"@.len() == 15);
    assert("num_beams"@.len() == 9);
    assert("num_inference_steps"@.len() == 19);
    assert("reference_duration_sec"@.len() == 22);
    assert("reference_language"@.len() == 18);
    assert("reference_text"@.len() == 14);
    assert("repetition_penalty"@.len() == 18);
    assert("return_timestamps"@.len() == 17);
    assert("route"@.len() == 5);
    assert("sampler"@.len() == 7);
    assert("seed"@.len() == 4);
    assert("source_audio"@.len() == 12);
    assert("spatio_temporal_guidance_scale"@.len() == 30);
    assert("streaming"@.len() == 9);
    assert("target_voice"@.len() == 12);
    assert("temperature"@.len() == 11);
    assert("text_chunk_mode"@.len() == 15);
    assert("text_chunk_size"@.len() == 15);
    assert("top_k"@.len() == 5);
    assert("top_p"@.len() == 5);
    assert("audio_chunk_mode"@[0] == 'a');
    assert("do_sample"@[0] == 'd');
    assert("guidance_rescale"@[0] == 'g');
    assert("keep_language_tags"@[0] == 'k');
    assert("lookahead_tokens"@[0] == 'l');
    assert("num_beams"@[0] == 'n');
    assert("reference_language"@[0] == 'r');
    assert("repetition_penalty"@[0] == 'r');
    assert("streaming"@[0] == 's');
}

/// The extra keys of [`IndexTts2Options`] differ from each other and from every shared key.
proof fn lemma_index_tts2_keys(o: TaskOptions, x: IndexTts2Options)
    ensures
        entry_keys_distinct(index_tts2_options_entries(x)),
        entry_keys_disjoint(common_entries(o), index_tts2_options_entries(x)),
{
    reveal_strlit("audio_chunk_duration_sec");
    reveal_strlit("audio_chunk_mode");
    reveal_strlit("audio_chunk_threshold_sec");
    reveal_strlit("cross_fade_duration_sec");
    reveal_strlit("do_sample");
    reveal_strlit("duration_factor");
    reveal_strlit("duration_scale");
    reveal_strlit("duration_sec");
    reveal_strlit("emotion_alpha");
    reveal_strlit("emotion_text");
    reveal_strlit("emotion_vector");
    reveal_strlit("guidance_rescale");
    reveal_strlit("guidance_scale");
    reveal_strlit("interval_silence_ms");
    reveal_strlit("language");
    reveal_strlit("length_penalty");
    reveal_strlit("lyrics");
    reveal_strlit("max_new_tokens");
    reveal_strlit("max_tokens");
    reveal_strlit("min_p");
    reveal_strlit("negative_prompt");
    reveal_strlit("num_beams");
    reveal_strlit("num_inference_steps");
    reveal_strlit("reference_duration_sec");
    reveal_strlit("reference_language");
    reveal_strlit("reference_text");
    reveal_strlit("repetition_penalty");
    reveal_strlit("return_timestamps");
    reveal_strlit("route");
    reveal_strlit("sampler");
    reveal_strlit("seed");
    reveal_strlit("source_audio");
    reveal_strlit("spatio_temporal_guidance_scale");
    reveal_strlit("target_voice");
    reveal_strlit("temperature");
    reveal_strlit("text_chunk_mode");
    reveal_strlit("text_chunk_size");
    reveal_strlit("top_k");
    reveal_strlit("top_p");
    reveal_strlit("use_emotion_text");
    reveal_strlit("use_random_emotion");
    assert("audio_chunk_duration_sec"@.len() == 24);
    assert("audio_chunk_mode"@.len() == 16);
    assert("audio_chunk_threshold_sec"@.len() == 25);
    assert("cross_fade_duration_sec"@.len() == 23);
    assert("do_sample"@.len() == 9);
    assert("duration_factor"@.len() == 15);
    assert("duration_scale"@.len() == 14);
    assert("duration_sec"@.len() == 12);
    assert("emotion_alpha"@.len() == 13);
    assert("emotion_text"@.len() == 12);
    assert("emotion_vector"@.len() == 14);
    assert("guidance_rescale"@.len() == 16);
    assert("guidance_scale"@.len() == 14);
    assert("interval_silence_ms"@.len() == 19);
    assert("language"@.len() == 8);
    assert("length_penalty"@.len() == 14);
    assert("lyrics"@.len() == 6);
    assert("max_new_tokens"@.len() == 14);
    assert("max_tokens"@.len() == 10);
    assert("min_p"@.len() == 5);
    assert("negative_prompt"@.len() == 15);
    assert("num_beams"@.len() == 9);
    assert("num_inference_steps"@.len() == 19);
    assert("reference_duration_sec"@.len() == 22);
    assert("reference_language"@.len() == 18);
    assert("reference_text"@.len() == 14);
    assert("repetition_penalty"@.len() == 18);
    assert("return_timestamps"@.len() == 17);
    assert("route"@.len() == 5);
    assert("sampler"@.len() == 7);
    assert("seed"@.len() == 4);
    assert("source_audio"@.len() == 12);
    assert("spatio_temporal_guidance_scale"@.len() == 30);
    assert("target_voice"@.len() == 12);
    assert("temperature"@.len() == 11);
    assert("text_chunk_mode"@.len() == 15);
    assert("text_chunk_size"@.len() == 15);
    assert("top_k"@.len() == 5);
    assert("top_p"@.len() == 5);
    assert("use_emotion_text"@.len() == 16);
    assert("use_random_emotion"@.len() == 18);
    assert("audio_chunk_mode"@[0] == 'a');
    assert("duration_factor"@[0] == 'd');
    assert("duration_scale"@[0] == 'd');
    assert("duration_sec"@[0] == 'd');
    assert("emotion_text"@[0] == 'e');
    assert("emotion_vector"@[0] == 'e');
    assert("guidance_rescale"@[0] == 'g');
    assert("guidance_scale"@[0] == 'g');
    assert("interval_silence_ms"@[0] == 'i');
    assert("length_penalty"@[0] == 'l');
    assert("max_new_tokens"@[0] == 'm');
    assert("negative_prompt"@[0] == 'n');
    assert("num_inference_steps"@[0] == 'n');
    assert("reference_language"@[0] == 'r');
    assert("reference_text"@[0] == 'r');
    assert("repetition_penalty"@[0] == 'r');
    assert("source_audio"@[0] == 's');
    assert("target_voice"@[0] == 't');
    assert("text_chunk_mode"@[0] == 't');
    assert("text_chunk_size"@[0] == 't');
    assert("use_emotion_text"@[0] == 'u');
    assert("use_random_emotion"@[0] == 'u');
}

/// The extra keys of [`AceStepOptions`] differ from each other and from every shared key.
proof fn lemma_ace_step_keys(o: TaskOptions, x: AceStepOptions)
    ensures
        entry_keys_distinct(ace_step_options_entries(x)),
        entry_keys_disjoint(common_entries(o), ace_step_options_entries(x)),
{
    reveal_strlit("audio_chunk_duration_sec");
    reveal_strlit("audio_chunk_mode");
    reveal_strlit("audio_chunk_threshold_sec");
    reveal_strlit("audio_code_string");
    reveal_strlit("audio_codes");
    reveal_strlit("audio_cover_strength");
    reveal_strlit("bpm");
    reveal_strlit("cfg_interval_end");
    reveal_strlit("cfg_interval_start");
    reveal_strlit("chunk_mask_mode");
    reveal_strlit("cover_noise_strength");
    reveal_strlit("cross_fade_duration_sec");
    reveal_strlit("dcw_enabled");
    reveal_strlit("dcw_high_scaler");
    reveal_strlit("dcw_mode");
    reveal_strlit("dcw_scaler");
    reveal_strlit("dcw_wavelet");
    reveal_strlit("do_sample");
    reveal_strlit("duration_scale");
    reveal_strlit("duration_sec");
    reveal_strlit("duration_seconds");
    reveal_strlit("guidance_rescale");
    reveal_strlit("guidance_scale");
    reveal_strlit("infer_method");
    reveal_strlit("instruction");
    reveal_strlit("keyscale");
    reveal_strlit("language");
    reveal_strlit("length_penalty");
    reveal_strlit("lm_cfg_scale");
    reveal_strlit("lm_repetition_penalty");
    reveal_strlit("lm_temperature");
    reveal_strlit("lm_top_k");
    reveal_strlit("lm_top_p");
    reveal_strlit("lyrics");
    reveal_strlit("max_new_tokens");
    reveal_strlit("max_tokens");
    reveal_strlit("min_p");
    reveal_strlit("negative_prompt");
    reveal_strlit("num_beams");
    reveal_strlit("num_inference_steps");
    reveal_strlit("reference_duration_sec");
    reveal_strlit("reference_language");
    reveal_strlit("reference_text");
    reveal_strlit("repaint_crossfade_frames");
    reveal_strlit("repaint_injection_ratio");
    reveal_strlit("repaint_mode");
    reveal_strlit("repaint_strength");
    reveal_strlit("repainting_end");
    reveal_strlit("repainting_start");
    reveal_strlit("repetition_penalty");
    reveal_strlit("retake_seed");
    reveal_strlit("retake_variance");
    reveal_strlit("return_timestamps");
    reveal_strlit("route");
    reveal_strlit("sampler");
    reveal_strlit("sampler_mode");
    reveal_strlit("seed");
    reveal_strlit("shift");
    reveal_strlit("source_audio");
    reveal_strlit("spatio_temporal_guidance_scale");
    reveal_strlit("target_voice");
    reveal_strlit("temperature");
    reveal_strlit("text_chunk_mode");
    reveal_strlit("text_chunk_size");
    reveal_strlit("thinking");
    reveal_strlit("timesignature");
    reveal_strlit("top_k");
    reveal_strlit("top_p");
    reveal_strlit("track_name");
    reveal_strlit("use_adg");
    reveal_strlit("use_cot_caption");
    reveal_strlit("use_cot_language");
    reveal_strlit("use_cot_metas");
    reveal_strlit("velocity_ema_factor");
    reveal_strlit("velocity_norm_threshold");
    assert("audio_chunk_duration_sec"@.len() == 24);
    assert("audio_chunk_mode"@.len() == 16);
    assert("audio_chunk_threshold_sec"@.len() == 25);
    assert("audio_code_string"@.len() == 17);
    assert("audio_codes"@.len() == 11);
    assert("audio_cover_strength"@.len() == 20);
    assert("bpm"@.len() == 3);
    assert("cfg_interval_end"@.len() == 16);
    assert("cfg_interval_start"@.len() == 18);
    assert("chunk_mask_mode"@.len() == 15);
    assert("cover_noise_strength"@.len() == 20);
    assert("cross_fade_duration_sec"@.len() == 23);
    assert("dcw_enabled"@.len() == 11);
    assert("dcw_high_scaler"@.len() == 15);
    assert("dcw_mode"@.len() == 8);
    assert("dcw_scaler"@.len() == 10);
    assert("dcw_wavelet"@.len() == 11);
    assert("do_sample"@.len() == 9);
    assert("duration_scale"@.len() == 14);
    assert("duration_sec"@.len() == 12);
    assert("duration_seconds"@.len() == 16);
    assert("guidance_rescale"@.len() == 16);
    assert("guidance_scale"@.len() == 14);
    assert("infer_method"@.len() == 12);
    assert("instruction"@.len() == 11);
    assert("keyscale"@.len() == 8);
    assert("language"@.len() == 8);
    assert("length_penalty"@.len() == 14);
    assert("lm_cfg_scale"@.len() == 12);
    assert("lm_repetition_penalty"@.len() == 21);
    assert("lm_temperature"@.len() == 14);
    assert("lm_top_k"@.len() == 8);
    assert("lm_top_p"@.len() == 8);
    assert("lyrics"@.len() == 6);
    assert("max_new_tokens"@.len() == 14);
    assert("max_tokens"@.len() == 10);
    assert("min_p"@.len() == 5);
    assert("negative_prompt"@.len() == 15);
    assert("num_beams"@.len() == 9);
    assert("num_inference_steps"@.len() == 19);
    assert("reference_duration_sec"@.len() == 22);
    assert("reference_language"@.len() == 18);
    assert("reference_text"@.len() == 14);
    assert("repaint_crossfade_frames"@.len() == 24);
    assert("repaint_injection_ratio"@.len() == 23);
    assert("repaint_mode"@.len() == 12);
    assert("repaint_strength"@.len() == 16);
    assert("repainting_end"@.len() == 14);
    assert("repainting_start"@.len() == 16);
    assert("repetition_penalty"@.len() == 18);
    assert("retake_seed"@.len() == 11);
    assert("retake_variance"@.len() == 15);
    assert("return_timestamps"@.len() == 17);
    assert("route"@.len() == 5);
    assert("sampler"@.len() == 7);
    assert("sampler_mode"@.len() == 12);
    assert("seed"@.len() == 4);
    assert("shift"@.len() == 5);
    assert("source_audio"@.len() == 12);
    assert("spatio_temporal_guidance_scale"@.len() == 30);
    assert("target_voice"@.len() == 12);
    assert("temperature"@.len() == 11);
    assert("text_chunk_mode"@.len() == 15);
    assert("text_chunk_size"@.len() == 15);
    assert("thinking"@.len() == 8);
    assert("timesignature"@.len() == 13);
    assert("top_k"@.len() == 5);
    assert("top_p"@.len() == 5);
    assert("track_name"@.len() == 10);
    assert("use_adg"@.len() == 7);
    assert("use_cot_caption"@.len() == 15);
    assert("use_cot_language"@.len() == 16);
    assert("use_cot_metas"@.len() == 13);
    assert("velocity_ema_factor"@.len() == 19);
    assert("velocity_norm_threshold"@.len() == 23);
    assert("audio_chunk_duration_sec"@[0] == 'a');
    assert("audio_chunk_mode"@[0] == 'a');
    assert("audio_code_string"@[0] == 'a');
    assert("audio_codes"@[0] == 'a');
    assert("audio_cover_strength"@[0] == 'a');
    assert("cfg_interval_end"@[0] == 'c');
    assert("cfg_interval_start"@[0] == 'c');
    assert("chunk_mask_mode"@[0] == 'c');
    assert("cover_noise_strength"@[0] == 'c');
    assert("cross_fade_duration_sec"@[0] == 'c');
    assert("dcw_enabled"@[0] == 'd');
    assert("dcw_enabled"@[4] == 'e');
    assert("dcw_high_scaler"@[0] == 'd');
    assert("dcw_mode"@[0] == 'd');
    assert("dcw_scaler"@[0] == 'd');
    assert("dcw_wavelet"@[0] == 'd');
    assert("dcw_wavelet"@[4] == 'w');
    assert("duration_scale"@[0] == 'd');
    assert("duration_sec"@[0] == 'd');
    assert("duration_seconds"@[0] == 'd');
    assert("guidance_rescale"@[0] == 'g');
    assert("guidance_scale"@[0] == 'g');
    assert("infer_method"@[0] == 'i');
    assert("instruction"@[0] == 'i');
    assert("keyscale"@[0] == 'k');
    assert("language"@[0] == 'l');
    assert("language"@[1] == 'a');
    assert("length_penalty"@[0] == 'l');
    assert("length_penalty"@[1] == 'e');
    assert("lm_cfg_scale"@[0] == 'l');
    assert("lm_temperature"@[0] == 'l');
    assert("lm_temperature"@[1] == 'm');
    assert("lm_top_k"@[0] == 'l');
    assert("lm_top_k"@[1] == 'm');
    assert("lm_top_k"@[7] == 'k');
    assert("lm_top_p"@[0] == 'l');
    assert("lm_top_p"@[1] == 'm');
    assert("lm_top_p"@[7] == 'p');
    assert("max_new_tokens"@[0] == 'm');
    assert("max_tokens"@[0] == 'm');
    assert("min_p"@[0] == 'm');
    assert("negative_prompt"@[0] == 'n');
    assert("num_inference_steps"@[0] == 'n');
    assert("reference_language"@[0] == 'r');
    assert("reference_text"@[0] == 'r');
    assert("reference_text"@[2] == 'f');
    assert("repaint_crossfade_frames"@[0] == 'r');
    assert("repaint_injection_ratio"@[0] == 'r');
    assert("repaint_mode"@[0] == 'r');
    assert("repaint_strength"@[0] == 'r');
    assert("repaint_strength"@[7] == '_');
    assert("repainting_end"@[0] == 'r');
    assert("repainting_end"@[2] == 'p');
    assert("repainting_start"@[0] == 'r');
    assert("repainting_start"@[7] == 'i');
    assert("repetition_penalty"@[0] == 'r');
    assert("retake_seed"@[0] == 'r');
    assert("retake_variance"@[0] == 'r');
    assert("return_timestamps"@[0] == 'r');
    assert("route"@[0] == 'r');
    assert("sampler"@[0] == 's');
    assert("sampler_mode"@[0] == 's');
    assert("sampler_mode"@[1] == 'a');
    assert("shift"@[0] == 's');
    assert("source_audio"@[0] == 's');
    assert("source_audio"@[1] == 'o');
    assert("target_voice"@[0] == 't');
    assert("temperature"@[0] == 't');
    assert("text_chunk_mode"@[0] == 't');
    assert("text_chunk_size"@[0] == 't');
    assert("thinking"@[0] == 't');
    assert("timesignature"@[0] == 't');
    assert("top_k"@[0] == 't');
    assert("top_p"@[0] == 't');
    assert("track_name"@[0] == 't');
    assert("use_adg"@[0] == 'u');
    assert("use_cot_caption"@[0] == 'u');
    assert("use_cot_language"@[0] == 'u');
    assert("use_cot_metas"@[0] == 'u');
    assert("velocity_ema_factor"@[0] == 'v');
    assert("velocity_norm_threshold"@[0] == 'v');
}

/// The extra keys of [`OmnivoiceOptions`] differ from each other and from every shared key.
proof fn lemma_omnivoice_keys(o: TaskOptions, x: OmnivoiceOptions)
    ensures
        entry_keys_distinct(omnivoice_options_entries(x)),
        entry_keys_disjoint(common_entries(o), omnivoice_options_entries(x)),
{
    reveal_strlit("audio_chunk_duration");
    reveal_strlit("audio_chunk_duration_sec");
    reveal_strlit("audio_chunk_mode");
    reveal_strlit("audio_chunk_threshold");
    reveal_strlit("audio_chunk_threshold_sec");
    reveal_strlit("class_temperature");
    reveal_strlit("cross_fade_duration_sec");
    reveal_strlit("denoise");
    reveal_strlit("do_sample");
    reveal_strlit("duration");
    reveal_strlit("duration_scale");
    reveal_strlit("duration_sec");
    reveal_strlit("guidance_rescale");
    reveal_strlit("guidance_scale");
    reveal_strlit("language");
    reveal_strlit("layer_penalty_factor");
    reveal_strlit("length_penalty");
    reveal_strlit("lyrics");
    reveal_strlit("max_new_tokens");
    reveal_strlit("max_tokens");
    reveal_strlit("min_p");
    reveal_strlit("negative_prompt");
    reveal_strlit("num_beams");
    reveal_strlit("num_inference_steps");
    reveal_strlit("position_temperature");
    reveal_strlit("postprocess_output");
    reveal_strlit("preprocess_prompt");
    reveal_strlit("reference_duration_sec");
    reveal_strlit("reference_language");
    reveal_strlit("reference_text");
    reveal_strlit("repetition_penalty");
    reveal_strlit("return_timestamps");
    reveal_strlit("route");
    reveal_strlit("sampler");
    reveal_strlit("seed");
    reveal_strlit("source_audio");
    reveal_strlit("spatio_temporal_guidance_scale");
    reveal_strlit("speed");
    reveal_strlit("t_shift");
    reveal_strlit("target_voice");
    reveal_strlit("temperature");
    reveal_strlit("text_chunk_mode");
    reveal_strlit("text_chunk_size");
    reveal_strlit("top_k");
    reveal_strlit("top_p");
    assert("audio_chunk_duration"@.len() == 20);
    assert("audio_chunk_duration_sec"@.len() == 24);
    assert("audio_chunk_mode"@.len() == 16);
    assert("audio_chunk_threshold"@.len() == 21);
    assert("audio_chunk_threshold_sec"@.len() == 25);
    assert("class_temperature"@.len() == 17);
    assert("cross_fade_duration_sec"@.len() == 23);
    assert("denoise"@.len() == 7);
    assert("do_sample"@.len() == 9);
    assert("duration"@.len() == 8);
    assert("duration_scale"@.len() == 14);
    assert("duration_sec"@.len() == 12);
    assert("guidance_rescale"@.len() == 16);
    assert("guidance_scale"@.len() == 14);
    assert("language"@.len() == 8);
    assert("layer_penalty_factor"@.len() == 20);
    assert("length_penalty"@.len() == 14);
    assert("lyrics"@.len() == 6);
    assert("max_new_tokens"@.len() == 14);
    assert("max_tokens"@.len() == 10);
    assert("min_p"@.len() == 5);
    assert("negative_prompt"@.len() == 15);
    assert("num_beams"@.len() == 9);
    assert("num_inference_steps"@.len() == 19);
    assert("position_temperature"@.len() == 20);
    assert("postprocess_output"@.len() == 18);
    assert("preprocess_prompt"@.len() == 17);
    assert("reference_duration_sec"@.len() == 22);
    assert("reference_language"@.len() == 18);
    assert("reference_text"@.len() == 14);
    assert("repetition_penalty"@.len() == 18);
    assert("return_timestamps"@.len() == 17);
    assert("route"@.len() == 5);
    assert("sampler"@.len() == 7);
    assert("seed"@.len() == 4);
    assert("source_audio"@.len() == 12);
    assert("spatio_temporal_guidance_scale"@.len() == 30);
    assert("speed"@.len() == 5);
    assert("t_shift"@.len() == 7);
    assert("target_voice"@.len() == 12);
    assert("temperature"@.len() == 11);
    assert("text_chunk_mode"@.len() == 15);
    assert("text_chunk_size"@.len() == 15);
    assert("top_k"@.len() == 5);
    assert("top_p"@.len() == 5);
    assert("audio_chunk_duration"@[0] == 'a');
    assert("class_temperature"@[0] == 'c');
    assert("denoise"@[0] == 'd');
    assert("duration"@[0] == 'd');
    assert("language"@[0] == 'l');
    assert("layer_penalty_factor"@[0] == 'l');
    assert("min_p"@[0] == 'm');
    assert("position_temperature"@[0] == 'p');
    assert("postprocess_output"@[0] == 'p');
    assert("preprocess_prompt"@[0] == 'p');
    assert("reference_language"@[0] == 'r');
    assert("repetition_penalty"@[0] == 'r');
    assert("return_timestamps"@[0] == 'r');
    assert("route"@[0] == 'r');
    assert("sampler"@[0] == 's');
    assert("speed"@[0] == 's');
    assert("t_shift"@[0] == 't');
    assert("top_k"@[0] == 't');
    assert("top_p"@[0] == 't');
}

/// The extra keys of [`StableAudioOptions`] differ from each other and from every shared key.
proof fn lemma_stable_audio_keys(o: TaskOptions, x: StableAudioOptions)
    ensures
        entry_keys_distinct(stable_audio_options_entries(x)),
        entry_keys_disjoint(common_entries(o), stable_audio_options_entries(x)),
{
    reveal_strlit("apg_scale");
    reveal_strlit("audio_chunk_duration_sec");
    reveal_strlit("audio_chunk_mode");
    reveal_strlit("audio_chunk_threshold_sec");
    reveal_strlit("audio_input_kind");
    reveal_strlit("batch_size");
    reveal_strlit("chunked_decode");
    reveal_strlit("cross_fade_duration_sec");
    reveal_strlit("do_sample");
    reveal_strlit("duration_padding_seconds");
    reveal_strlit("duration_scale");
    reveal_strlit("duration_sec");
    reveal_strlit("duration_seconds");
    reveal_strlit("guidance_rescale");
    reveal_strlit("guidance_scale");
    reveal_strlit("init_noise_level");
    reveal_strlit("inpaint_mask_end_seconds");
    reveal_strlit("inpaint_mask_start_seconds");
    reveal_strlit("language");
    reveal_strlit("length_penalty");
    reveal_strlit("lyrics");
    reveal_strlit("max_new_tokens");
    reveal_strlit("max_tokens");
    reveal_strlit("min_p");
    reveal_strlit("negative_prompt");
    reveal_strlit("num_beams");
    reveal_strlit("num_inference_steps");
    reveal_strlit("prompt");
    reveal_strlit("reference_duration_sec");
    reveal_strlit("reference_language");
    reveal_strlit("reference_text");
    reveal_strlit("repetition_penalty");
    reveal_strlit("return_timestamps");
    reveal_strlit("rho");
    reveal_strlit("route");
    reveal_strlit("sampler");
    reveal_strlit("seed");
    reveal_strlit("sigma_max");
    reveal_strlit("sigma_min");
    reveal_strlit("source_audio");
    reveal_strlit("spatio_temporal_guidance_scale");
    reveal_strlit("target_voice");
    reveal_strlit("temperature");
    reveal_strlit("text_chunk_mode");
    reveal_strlit("text_chunk_size");
    reveal_strlit("top_k");
    reveal_strlit("top_p");
    reveal_strlit("truncate_output_to_duration");
    assert("apg_scale"@.len() == 9);
    assert("audio_chunk_duration_sec"@.len() == 24);
    assert("audio_chunk_mode"@.len() == 16);
    assert("audio_chunk_threshold_sec"@.len() == 25);
    assert("audio_input_kind"@.len() == 16);
    assert("batch_size"@.len() == 10);
    assert("chunked_decode"@.len() == 14);
    assert("cross_fade_duration_sec"@.len() == 23);
    assert("do_sample"@.len() == 9);
    assert("duration_padding_seconds"@.len() == 24);
    assert("duration_scale"@.len() == 14);
    assert("duration_sec"@.len() == 12);
    assert("duration_seconds"@.len() == 16);
    assert("guidance_rescale"@.len() == 16);
    assert("guidance_scale"@.len() == 14);
    assert("init_noise_level"@.len() == 16);
    assert("inpaint_mask_end_seconds"@.len() == 24);
    assert("inpaint_mask_start_seconds"@.len() == 26);
    assert("language"@.len() == 8);
    assert("length_penalty"@.len() == 14);
    assert("lyrics"@.len() == 6);
    assert("max_new_tokens"@.len() == 14);
    assert("max_tokens"@.len() == 10);
    assert("min_p"@.len() == 5);
    assert("negative_prompt"@.len() == 15);
    assert("num_beams"@.len() == 9);
    assert("num_inference_steps"@.len() == 19);
    assert("prompt"@.len() == 6);
    assert("reference_duration_sec"@.len() == 22);
    assert("reference_language"@.len() == 18);
    assert("reference_text"@.len() == 14);
    assert("repetition_penalty"@.len() == 18);
    assert("return_timestamps"@.len() == 17);
    assert("rho"@.len() == 3);
    assert("route"@.len() == 5);
    assert("sampler"@.len() == 7);
    assert("seed"@.len() == 4);
    assert("sigma_max"@.len() == 9);
    assert("sigma_min"@.len() == 9);
    assert("source_audio"@.len() == 12);
    assert("spatio_temporal_guidance_scale"@.len() == 30);
    assert("target_voice"@.len() == 12);
    assert("temperature"@.len() == 11);
    assert("text_chunk_mode"@.len() == 15);
    assert("text_chunk_size"@.len() == 15);
    assert("top_k"@.len() == 5);
    assert("top_p"@.len() == 5);
    assert("truncate_output_to_duration"@.len() == 27);
    assert("apg_scale"@[0] == 'a');
    assert("audio_chunk_duration_sec"@[0] == 'a');
    assert("audio_chunk_mode"@[0] == 'a');
    assert("audio_chunk_mode"@[6] == 'c');
    assert("audio_input_kind"@[0] == 'a');
    assert("audio_input_kind"@[6] == 'i');
    assert("batch_size"@[0] == 'b');
    assert("chunked_decode"@[0] == 'c');
    assert("do_sample"@[0] == 'd');
    assert("duration_padding_seconds"@[0] == 'd');
    assert("duration_scale"@[0] == 'd');
    assert("duration_seconds"@[0] == 'd');
    assert("guidance_rescale"@[0] == 'g');
    assert("guidance_scale"@[0] == 'g');
    assert("init_noise_level"@[0] == 'i');
    assert("inpaint_mask_end_seconds"@[0] == 'i');
    assert("length_penalty"@[0] == 'l');
    assert("lyrics"@[0] == 'l');
    assert("max_new_tokens"@[0] == 'm');
    assert("max_tokens"@[0] == 'm');
    assert("num_beams"@[0] == 'n');
    assert("prompt"@[0] == 'p');
    assert("reference_text"@[0] == 'r');
    assert("sigma_max"@[0] == 's');
    assert("sigma_max"@[7] == 'a');
    assert("sigma_min"@[0] == 's');
    assert("sigma_min"@[7] == 'i');
}

/// The extra keys of a family differ from each other and from every shared key.
pub proof fn lemma_family_keys(o: TaskOptions, f: FamilyOptions)
    ensures
        entry_keys_distinct(family_entries(f)),
        entry_keys_disjoint(common_entries(o), family_entries(f)),
{
    match f {
        FamilyOptions::VoxCpm2(x) => lemma_vox_cpm2_keys(o, x),
        FamilyOptions::Qwen3Tts(x) => lemma_qwen3_tts_keys(o, x),
        FamilyOptions::SileroVad(x) => lemma_silero_vad_keys(o, x),
        FamilyOptions::DramaBox(x) => lemma_drama_box_keys(o, x),
        FamilyOptions::Chatterbox(x) => lemma_chatterbox_keys(o, x),
        FamilyOptions::PocketTts(x) => lemma_pocket_tts_keys(o, x),
        FamilyOptions::NemotronAsr(x) => lemma_nemotron_asr_keys(o, x),
        FamilyOptions::IndexTts2(x) => lemma_index_tts2_keys(o, x),
        FamilyOptions::AceStep(x) => lemma_ace_step_keys(o, *x),
        FamilyOptions::Omnivoice(x) => lemma_omnivoice_keys(o, x),
        FamilyOptions::StableAudio(x) => lemma_stable_audio_keys(o, x),
    }
}

/// The candidate entries of any options have different keys.
pub proof fn lemma_option_keys_distinct(o: TaskOptions)
    ensures
        entry_keys_distinct(option_entries(o)),
{
    lemma_shared_keys_distinct(o);
    match o.family {
        Some(f) => {
            lemma_family_keys(o, f);
            lemma_distinct_concat(common_entries(o), family_entries(f));
        },
        None => {},
    }
}

/// Options with family extras encode to the map of their shared fields
/// joined with the map of the extras, and the two have no key in common, so
/// no extra ever replaces a shared field.
pub proof fn law_family_extras_join_the_shared_map(o: TaskOptions)
    requires
        o.family is Some,
    ensures
        encoded_options(o) == encoded_options(without_family(o)).union_prefer_right(
            entries_map(family_entries(o.family->0)),
        ),
        encoded_options(without_family(o)).dom().disjoint(entries_map(family_entries(o.family->0)).dom()),
{
    let f = o.family->0;
    let c = common_entries(o);
    let e = family_entries(f);
    assert(common_entries(without_family(o)) == c);
    assert(option_entries(without_family(o)) == c);
    lemma_entries_map_concat(c, e);
    lemma_family_keys(o, f);
    assert forall|k: Seq<char>| #[trigger] entries_map(c).contains_key(k) implies !entries_map(e).contains_key(k) by {
        lemma_entries_map_keys(c, k);
        lemma_entries_map_keys(e, k);
        if entries_map(e).contains_key(k) {
            let i = choose|i: int| 0 <= i < c.len() && (#[trigger] c[i]).0 == k && c[i].1 is Some;
            let j = choose|j: int| 0 <= j < e.len() && (#[trigger] e[j]).0 == k && e[j].1 is Some;
            assert(c[i].0 != e[j].0);
        }
    }
}

/// Every field of [`VoxCpm2Options`] under the key it is sent as, with its
/// text when it is set.
pub open spec fn vox_cpm2_options_fields(x: VoxCpm2Options) -> Entries {
    seq![
        ("seed"@, u32_value(x.seed)),
        ("max_tokens"@, i32_value(x.max_tokens)),
        ("guidance_scale"@, text_value(x.guidance_scale)),
        ("num_inference_steps"@, i32_value(x.num_inference_steps)),
        ("text_chunk_mode"@, text_chunk_value(x.text_chunk_mode)),
        ("text_chunk_size"@, i32_value(x.text_chunk_size)),
        ("min_tokens"@, i32_value(x.min_tokens)),
        ("retry_badcase"@, bool_value(x.retry_badcase)),
        ("retry_badcase_max_times"@, i32_value(x.retry_badcase_max_times)),
        ("retry_badcase_ratio_threshold"@, text_value(x.retry_badcase_ratio_threshold)),
        ("cfm_noise_file"@, text_value(x.cfm_noise_file)),
        ("prompt_text"@, text_value(x.prompt_text)),
    ]
}

/// Converting a [`VoxCpm2Options`] into [`TaskOptions`] and encoding it sends
/// exactly its set fields, each under its key with its text.
pub proof fn law_vox_cpm2_options_send_their_set_fields(x: VoxCpm2Options)
    ensures
        forall|k: Seq<char>| #[trigger] encoded_options(options_from_vox_cpm2_options(x)).contains_key(k)
            <==> exists|i: int| 0 <= i < vox_cpm2_options_fields(x).len()
                && (#[trigger] vox_cpm2_options_fields(x)[i]).0 == k && vox_cpm2_options_fields(x)[i].1 is Some,
        forall|i: int| 0 <= i < vox_cpm2_options_fields(x).len() && (#[trigger] vox_cpm2_options_fields(x)[i]).1 is Some
            ==> encoded_options(options_from_vox_cpm2_options(x))[vox_cpm2_options_fields(x)[i].0]
                == vox_cpm2_options_fields(x)[i].1->0,
{
    let o = options_from_vox_cpm2_options(x);
    let s = option_entries(o);
    let fl = vox_cpm2_options_fields(x);
    let pos: Seq<int> = seq![0, 8, 12, 13, 23, 24, 34, 35, 36, 37, 38, 39];
    let inv: Seq<int> = seq![0, -1, -1, -1, -1, -1, -1, -1, 1, -1, -1, -1, 2, 3, -1, -1, -1, -1, -1, -1, -1, -1, -1, 4, 5, -1, -1, -1, -1, -1, -1, -1, -1, -1, 6, 7, 8, 9, 10, 11];
    assert(s == common_entries(o) + vox_cpm2_options_entries(x));
    lemma_option_keys_distinct(o);
    assert forall|i: int| 0 <= i < fl.len() implies 0 <= #[trigger] pos[i] < s.len() && s[pos[i]] == fl[i] by {}
    assert forall|q: int| 0 <= q < s.len() && (#[trigger] s[q]).1 is Some implies 0 <= inv[q] < fl.len() && fl[inv[q]] == s[q] by {}
    assert forall|i: int| 0 <= i < fl.len() && (#[trigger] fl[i]).1 is Some implies encoded_options(o).contains_key(fl[i].0)
        && encoded_options(o)[fl[i].0] == fl[i].1->0 by {
        lemma_distinct_entry_value(s, pos[i]);
    }
    assert forall|k: Seq<char>| #[trigger] encoded_options(o).contains_key(k) implies exists|i: int|
        0 <= i < fl.len() && (#[trigger] fl[i]).0 == k && fl[i].1 is Some by {
        lemma_entries_map_keys(s, k);
        let q = choose|q: int| 0 <= q < s.len() && (#[trigger] s[q]).0 == k && s[q].1 is Some;
        assert(fl[inv[q]] == s[q]);
    }
}

/// Every field of [`Qwen3TtsOptions`] under the key it is sent as, with its
/// text when it is set.
pub open spec fn qwen3_tts_options_fields(x: Qwen3TtsOptions) -> Entries {
    seq![
        ("seed"@, u32_value(x.seed)),
        ("max_tokens"@, i32_value(x.max_tokens)),
        ("do_sample"@, bool_value(x.do_sample)),
        ("temperature"@, text_value(x.temperature)),
        ("top_k"@, i32_value(x.top_k)),
        ("top_p"@, text_value(x.top_p)),
        ("repetition_penalty"@, text_value(x.repetition_penalty)),
        ("reference_text"@, text_value(x.reference_text)),
        ("subtalker_do_sample"@, bool_value(x.subtalker_do_sample)),
        ("subtalker_temperature"@, text_value(x.subtalker_temperature)),
        ("subtalker_top_k"@, i32_value(x.subtalker_top_k)),
        ("subtalker_top_p"@, text_value(x.subtalker_top_p)),
        ("instruct"@, text_value(x.instruct)),
        ("speaker"@, text_value(x.speaker)),
        ("x_vector_only_mode"@, bool_value(x.x_vector_only_mode)),
    ]
}

/// Converting a [`Qwen3TtsOptions`] into [`TaskOptions`] and encoding it sends
/// exactly its set fields, each under its key with its text.
pub proof fn law_qwen3_tts_options_send_their_set_fields(x: Qwen3TtsOptions)
    ensures
        forall|k: Seq<char>| #[trigger] encoded_options(options_from_qwen3_tts_options(x)).contains_key(k)
            <==> exists|i: int| 0 <= i < qwen3_tts_options_fields(x).len()
                && (#[trigger] qwen3_tts_options_fields(x)[i]).0 == k && qwen3_tts_options_fields(x)[i].1 is Some,
        forall|i: int| 0 <= i < qwen3_tts_options_fields(x).len() && (#[trigger] qwen3_tts_options_fields(x)[i]).1 is Some
            ==> encoded_options(options_from_qwen3_tts_options(x))[qwen3_tts_options_fields(x)[i].0]
                == qwen3_tts_options_fields(x)[i].1->0,
{
    let o = options_from_qwen3_tts_options(x);
    let s = option_entries(o);
    let fl = qwen3_tts_options_fields(x);
    let pos: Seq<int> = seq![0, 8, 5, 1, 2, 3, 10, 20, 34, 35, 36, 37, 38, 39, 40];
    let inv: Seq<int> = seq![0, 3, 4, 5, -1, 2, -1, -1, 1, -1, 6, -1, -1, -1, -1, -1, -1, -1, -1, -1, 7, -1, -1, -1, -1, -1, -1, -1, -1, -1, -1, -1, -1, -1, 8, 9, 10, 11, 12, 13, 14];
    assert(s == common_entries(o) + qwen3_tts_options_entries(x));
    lemma_option_keys_distinct(o);
    assert forall|i: int| 0 <= i < fl.len() implies 0 <= #[trigger] pos[i] < s.len() && s[pos[i]] == fl[i] by {}
    assert forall|q: int| 0 <= q < s.len() && (#[trigger] s[q]).1 is Some implies 0 <= inv[q] < fl.len() && fl[inv[q]] == s[q] by {}
    assert forall|i: int| 0 <= i < fl.len() && (#[trigger] fl[i]).1 is Some implies encoded_options(o).contains_key(fl[i].0)
        && encoded_options(o)[fl[i].0] == fl[i].1->0 by {
        lemma_distinct_entry_value(s, pos[i]);
    }
    assert forall|k: Seq<char>| #[trigger] encoded_options(o).contains_key(k) implies exists|i: int|
        0 <= i < fl.len() && (#[trigger] fl[i]).0 == k && fl[i].1 is Some by {
        lemma_entries_map_keys(s, k);
        let q = choose|q: int| 0 <= q < s.len() && (#[trigger] s[q]).0 == k && s[q].1 is Some;
        assert(fl[inv[q]] == s[q]);
    }
}

/// Every field of [`SileroVadOptions`] under the key it is sent as, with its
/// text when it is set.
pub open spec fn silero_vad_options_fields(x: SileroVadOptions) -> Entries {
    seq![
        ("threshold"@, text_value(x.threshold)),
        ("min_speech_duration_ms"@, i32_value(x.min_speech_duration_ms)),
        ("min_silence_duration_ms"@, i32_value(x.min_silence_duration_ms)),
        ("speech_pad_ms"@, i32_value(x.speech_pad_ms)),
        ("max_speech_duration_s"@, text_value(x.max_speech_duration_s)),
        ("neg_threshold"@, text_value(x.neg_threshold)),
        ("min_silence_at_max_speech_ms"@, i32_value(x.min_silence_at_max_speech_ms)),
        ("use_max_poss_sil_at_max_speech"@, bool_value(x.use_max_poss_sil_at_max_speech)),
    ]
}

/// Converting a [`SileroVadOptions`] into [`TaskOptions`] and encoding it sends
/// exactly its set fields, each under its key with its text.
pub proof fn law_silero_vad_options_send_their_set_fields(x: SileroVadOptions)
    ensures
        forall|k: Seq<char>| #[trigger] encoded_options(options_from_silero_vad_options(x)).contains_key(k)
            <==> exists|i: int| 0 <= i < silero_vad_options_fields(x).len()
                && (#[trigger] silero_vad_options_fields(x)[i]).0 == k && silero_vad_options_fields(x)[i].1 is Some,
        forall|i: int| 0 <= i < silero_vad_options_fields(x).len() && (#[trigger] silero_vad_options_fields(x)[i]).1 is Some
            ==> encoded_options(options_from_silero_vad_options(x))[silero_vad_options_fields(x)[i].0]
                == silero_vad_options_fields(x)[i].1->0,
{
    let o = options_from_silero_vad_options(x);
    let s = option_entries(o);
    let fl = silero_vad_options_fields(x);
    let pos: Seq<int> = seq![34, 35, 36, 37, 38, 39, 40, 41];
    let inv: Seq<int> = seq![-1, -1, -1, -1, -1, -1, -1, -1, -1, -1, -1, -1, -1, -1, -1, -1, -1, -1, -1, -1, -1, -1, -1, -1, -1, -1, -1, -1, -1, -1, -1, -1, -1, -1, 0, 1, 2, 3, 4, 5, 6, 7];
    assert(s == common_entries(o) + silero_vad_options_entries(x));
    lemma_option_keys_distinct(o);
    assert forall|i: int| 0 <= i < fl.len() implies 0 <= #[trigger] pos[i] < s.len() && s[pos[i]] == fl[i] by {}
    assert forall|q: int| 0 <= q < s.len() && (#[trigger] s[q]).1 is Some implies 0 <= inv[q] < fl.len() && fl[inv[q]] == s[q] by {}
    assert forall|i: int| 0 <= i < fl.len() && (#[trigger] fl[i]).1 is Some implies encoded_options(o).contains_key(fl[i].0)
        && encoded_options(o)[fl[i].0] == fl[i].1->0 by {
        lemma_distinct_entry_value(s, pos[i]);
    }
    assert forall|k: Seq<char>| #[trigger] encoded_options(o).contains_key(k) implies exists|i: int|
        0 <= i < fl.len() && (#[trigger] fl[i]).0 == k && fl[i].1 is Some by {
        lemma_entries_map_keys(s, k);
        let q = choose|q: int| 0 <= q < s.len() && (#[trigger] s[q]).0 == k && s[q].1 is Some;
        assert(fl[inv[q]] == s[q]);
    }
}

/// Every field of [`DramaBoxOptions`] under the key it is sent as, with its
/// text when it is set.
pub open spec fn drama_box_options_fields(x: DramaBoxOptions) -> Entries {
    seq![
        ("seed"@, u32_value(x.seed)),
        ("num_inference_steps"@, i32_value(x.num_inference_steps)),
        ("guidance_scale"@, text_value(x.guidance_scale)),
        ("spatio_temporal_guidance_scale"@, text_value(x.spatio_temporal_guidance_scale)),
        ("duration_scale"@, text_value(x.duration_scale)),
        ("duration_sec"@, text_value(x.duration_sec)),
        ("reference_duration_sec"@, text_value(x.reference_duration_sec)),
        ("audio_chunk_threshold_sec"@, text_value(x.audio_chunk_threshold_sec)),
        ("audio_chunk_duration_sec"@, text_value(x.audio_chunk_duration_sec)),
        ("cross_fade_duration_sec"@, text_value(x.cross_fade_duration_sec)),
        ("negative_prompt"@, text_value(x.negative_prompt)),
        ("guidance_rescale"@, text_value(x.guidance_rescale)),
        ("target_voice"@, text_value(x.target_voice)),
    ]
}

/// Converting a [`DramaBoxOptions`] into [`TaskOptions`] and encoding it sends
/// exactly its set fields, each under its key with its text.
pub proof fn law_drama_box_options_send_their_set_fields(x: DramaBoxOptions)
    ensures
        forall|k: Seq<char>| #[trigger] encoded_options(options_from_drama_box_options(x)).contains_key(k)
            <==> exists|i: int| 0 <= i < drama_box_options_fields(x).len()
                && (#[trigger] drama_box_options_fields(x)[i]).0 == k && drama_box_options_fields(x)[i].1 is Some,
        forall|i: int| 0 <= i < drama_box_options_fields(x).len() && (#[trigger] drama_box_options_fields(x)[i]).1 is Some
            ==> encoded_options(options_from_drama_box_options(x))[drama_box_options_fields(x)[i].0]
                == drama_box_options_fields(x)[i].1->0,
{
    let o = options_from_drama_box_options(x);
    let s = option_entries(o);
    let fl = drama_box_options_fields(x);
    let pos: Seq<int> = seq![0, 13, 12, 17, 16, 15, 22, 27, 26, 28, 14, 18, 30];
    let inv: Seq<int> = seq![0, -1, -1, -1, -1, -1, -1, -1, -1, -1, -1, -1, 2, 1, 10, 5, 4, 3, 11, -1, -1, -1, 6, -1, -1, -1, 8, 7, 9, -1, 12, -1, -1, -1];
    assert(s == common_entries(o) + drama_box_options_entries(x));
    lemma_option_keys_distinct(o);
    assert forall|i: int| 0 <= i < fl.len() implies 0 <= #[trigger] pos[i] < s.len() && s[pos[i]] == fl[i] by {}
    assert forall|q: int| 0 <= q < s.len() && (#[trigger] s[q]).1 is Some implies 0 <= inv[q] < fl.len() && fl[inv[q]] == s[q] by {}
    assert forall|i: int| 0 <= i < fl.len() && (#[trigger] fl[i]).1 is Some implies encoded_options(o).contains_key(fl[i].0)
        && encoded_options(o)[fl[i].0] == fl[i].1->0 by {
        lemma_distinct_entry_value(s, pos[i]);
    }
    assert forall|k: Seq<char>| #[trigger] encoded_options(o).contains_key(k) implies exists|i: int|
        0 <= i < fl.len() && (#[trigger] fl[i]).0 == k && fl[i].1 is Some by {
        lemma_entries_map_keys(s, k);
        let q = choose|q: int| 0 <= q < s.len() && (#[trigger] s[q]).0 == k && s[q].1 is Some;
        assert(fl[inv[q]] == s[q]);
    }
}

/// Every field of [`ChatterboxOptions`] under the key it is sent as, with its
/// text when it is set.
pub open spec fn chatterbox_options_fields(x: ChatterboxOptions) -> Entries {
    seq![
        ("seed"@, u32_value(x.seed)),
        ("temperature"@, text_value(x.temperature)),
        ("top_p"@, text_value(x.top_p)),
        ("min_p"@, text_value(x.min_p)),
        ("do_sample"@, bool_value(x.do_sample)),
        ("max_tokens"@, i32_value(x.max_tokens)),
        ("repetition_penalty"@, text_value(x.repetition_penalty)),
        ("guidance_scale"@, text_value(x.guidance_scale)),
        ("target_voice"@, text_value(x.target_voice)),
        ("source_audio"@, text_value(x.source_audio)),
        ("exaggeration"@, text_value(x.exaggeration)),
        ("s3gen_cfg_rate"@, text_value(x.s3gen_cfg_rate)),
        ("stop_on_eos"@, bool_value(x.stop_on_eos)),
        ("greedy"@, bool_value(x.greedy)),
    ]
}

/// Converting a [`ChatterboxOptions`] into [`TaskOptions`] and encoding it sends
/// exactly its set fields, each under its key with its text.
pub proof fn law_chatterbox_options_send_their_set_fields(x: ChatterboxOptions)
    ensures
        forall|k: Seq<char>| #[trigger] encoded_options(options_from_chatterbox_options(x)).contains_key(k)
            <==> exists|i: int| 0 <= i < chatterbox_options_fields(x).len()
                && (#[trigger] chatterbox_options_fields(x)[i]).0 == k && chatterbox_options_fields(x)[i].1 is Some,
        forall|i: int| 0 <= i < chatterbox_options_fields(x).len() && (#[trigger] chatterbox_options_fields(x)[i]).1 is Some
            ==> encoded_options(options_from_chatterbox_options(x))[chatterbox_options_fields(x)[i].0]
                == chatterbox_options_fields(x)[i].1->0,
{
    let o = options_from_chatterbox_options(x);
    let s = option_entries(o);
    let fl = chatterbox_options_fields(x);
    let pos: Seq<int> = seq![0, 1, 3, 4, 5, 8, 10, 12, 30, 31, 34, 35, 36, 37];
    let inv: Seq<int> = seq![0, 1, -1, 2, 3, 4, -1, -1, 5, -1, 6, -1, 7, -1, -1, -1, -1, -1, -1, -1, -1, -1, -1, -1, -1, -1, -1, -1, -1, -1, 8, 9, -1, -1, 10, 11, 12, 13];
    assert(s == common_entries(o) + chatterbox_options_entries(x));
    lemma_option_keys_distinct(o);
    assert forall|i: int| 0 <= i < fl.len() implies 0 <= #[trigger] pos[i] < s.len() && s[pos[i]] == fl[i] by {}
    assert forall|q: int| 0 <= q < s.len() && (#[trigger] s[q]).1 is Some implies 0 <= inv[q] < fl.len() && fl[inv[q]] == s[q] by {}
    assert forall|i: int| 0 <= i < fl.len() && (#[trigger] fl[i]).1 is Some implies encoded_options(o).contains_key(fl[i].0)
        && encoded_options(o)[fl[i].0] == fl[i].1->0 by {
        lemma_distinct_entry_value(s, pos[i]);
    }
    assert forall|k: Seq<char>| #[trigger] encoded_options(o).contains_key(k) implies exists|i: int|
        0 <= i < fl.len() && (#[trigger] fl[i]).0 == k && fl[i].1 is Some by {
        lemma_entries_map_keys(s, k);
        let q = choose|q: int| 0 <= q < s.len() && (#[trigger] s[q]).0 == k && s[q].1 is Some;
        assert(fl[inv[q]] == s[q]);
    }
}

/// Every field of [`PocketTtsOptions`] under the key it is sent as, with its
/// text when it is set.
pub open spec fn pocket_tts_options_fields(x: PocketTtsOptions) -> Entries {
    seq![
        ("seed"@, u32_value(x.seed)),
        ("temperature"@, text_value(x.temperature)),
        ("max_tokens"@, i32_value(x.max_tokens)),
        ("language"@, text_value(x.language)),
        ("max_steps"@, i32_value(x.max_steps)),
        ("noise_clamp"@, text_value(x.noise_clamp)),
        ("eos_threshold"@, text_value(x.eos_threshold)),
        ("noise_file"@, text_value(x.noise_file)),
        ("frames_after_eos"@, i32_value(x.frames_after_eos)),
        ("voice_embedding_path"@, text_value(x.voice_embedding_path)),
        ("voice_clone_text"@, text_value(x.voice_clone_text)),
        ("truncate_clone_audio"@, bool_value(x.truncate_clone_audio)),
    ]
}

/// Converting a [`PocketTtsOptions`] into [`TaskOptions`] and encoding it sends
/// exactly its set fields, each under its key with its text.
pub proof fn law_pocket_tts_options_send_their_set_fields(x: PocketTtsOptions)
    ensures
        forall|k: Seq<char>| #[trigger] encoded_options(options_from_pocket_tts_options(x)).contains_key(k)
            <==> exists|i: int| 0 <= i < pocket_tts_options_fields(x).len()
                && (#[trigger] pocket_tts_options_fields(x)[i]).0 == k && pocket_tts_options_fields(x)[i].1 is Some,
        forall|i: int| 0 <= i < pocket_tts_options_fields(x).len() && (#[trigger] pocket_tts_options_fields(x)[i]).1 is Some
            ==> encoded_options(options_from_pocket_tts_options(x))[pocket_tts_options_fields(x)[i].0]
                == pocket_tts_options_fields(x)[i].1->0,
{
    let o = options_from_pocket_tts_options(x);
    let s = option_entries(o);
    let fl = pocket_tts_options_fields(x);
    let pos: Seq<int> = seq![0, 1, 8, 19, 34, 35, 36, 37, 38, 39, 40, 41];
    let inv: Seq<int> = seq![0, 1, -1, -1, -1, -1, -1, -1, 2, -1, -1, -1, -1, -1, -1, -1, -1, -1, -1, 3, -1, -1, -1, -1, -1, -1, -1, -1, -1, -1, -1, -1, -1, -1, 4, 5, 6, 7, 8, 9, 10, 11];
    assert(s == common_entries(o) + pocket_tts_options_entries(x));
    lemma_option_keys_distinct(o);
    assert forall|i: int| 0 <= i < fl.len() implies 0 <= #[trigger] pos[i] < s.len() && s[pos[i]] == fl[i] by {}
    assert forall|q: int| 0 <= q < s.len() && (#[trigger] s[q]).1 is Some implies 0 <= inv[q] < fl.len() && fl[inv[q]] == s[q] by {}
    assert forall|i: int| 0 <= i < fl.len() && (#[trigger] fl[i]).1 is Some implies encoded_options(o).contains_key(fl[i].0)
        && encoded_options(o)[fl[i].0] == fl[i].1->0 by {
        lemma_distinct_entry_value(s, pos[i]);
    }
    assert forall|k: Seq<char>| #[trigger] encoded_options(o).contains_key(k) implies exists|i: int|
        0 <= i < fl.len() && (#[trigger] fl[i]).0 == k && fl[i].1 is Some by {
        lemma_entries_map_keys(s, k);
        let q = choose|q: int| 0 <= q < s.len() && (#[trigger] s[q]).0 == k && s[q].1 is Some;
        assert(fl[inv[q]] == s[q]);
    }
}

/// Every field of [`NemotronAsrOptions`] under the key it is sent as, with its
/// text when it is set.
pub open spec fn nemotron_asr_options_fields(x: NemotronAsrOptions) -> Entries {
    seq![
        ("language"@, text_value(x.language)),
        ("max_tokens"@, i32_value(x.max_tokens)),
        ("lookahead_tokens"@, i32_value(x.lookahead_tokens)),
        ("keep_language_tags"@, bool_value(x.keep_language_tags)),
        ("streaming"@, bool_value(x.streaming)),
    ]
}

/// Converting a [`NemotronAsrOptions`] into [`TaskOptions`] and encoding it sends
/// exactly its set fields, each under its key with its text.
pub proof fn law_nemotron_asr_options_send_their_set_fields(x: NemotronAsrOptions)
    ensures
        forall|k: Seq<char>| #[trigger] encoded_options(options_from_nemotron_asr_options(x)).contains_key(k)
            <==> exists|i: int| 0 <= i < nemotron_asr_options_fields(x).len()
                && (#[trigger] nemotron_asr_options_fields(x)[i]).0 == k && nemotron_asr_options_fields(x)[i].1 is Some,
        forall|i: int| 0 <= i < nemotron_asr_options_fields(x).len() && (#[trigger] nemotron_asr_options_fields(x)[i]).1 is Some
            ==> encoded_options(options_from_nemotron_asr_options(x))[nemotron_asr_options_fields(x)[i].0]
                == nemotron_asr_options_fields(x)[i].1->0,
{
    let o = options_from_nemotron_asr_options(x);
    let s = option_entries(o);
    let fl = nemotron_asr_options_fields(x);
    let pos: Seq<int> = seq![19, 8, 34, 35, 36];
    let inv: Seq<int> = seq![-1, -1, -1, -1, -1, -1, -1, -1, 1, -1, -1, -1, -1, -1, -1, -1, -1, -1, -1, 0, -1, -1, -1, -1, -1, -1, -1, -1, -1, -1, -1, -1, -1, -1, 2, 3, 4];
    assert(s == common_entries(o) + nemotron_asr_options_entries(x));
    lemma_option_keys_distinct(o);
    assert forall|i: int| 0 <= i < fl.len() implies 0 <= #[trigger] pos[i] < s.len() && s[pos[i]] == fl[i] by {}
    assert forall|q: int| 0 <= q < s.len() && (#[trigger] s[q]).1 is Some implies 0 <= inv[q] < fl.len() && fl[inv[q]] == s[q] by {}
    assert forall|i: int| 0 <= i < fl.len() && (#[trigger] fl[i]).1 is Some implies encoded_options(o).contains_key(fl[i].0)
        && encoded_options(o)[fl[i].0] == fl[i].1->0 by {
        lemma_distinct_entry_value(s, pos[i]);
    }
    assert forall|k: Seq<char>| #[trigger] encoded_options(o).contains_key(k) implies exists|i: int|
        0 <= i < fl.len() && (#[trigger] fl[i]).0 == k && fl[i].1 is Some by {
        lemma_entries_map_keys(s, k);
        let q = choose|q: int| 0 <= q < s.len() && (#[trigger] s[q]).0 == k && s[q].1 is Some;
        assert(fl[inv[q]] == s[q]);
    }
}

/// Every field of [`IndexTts2Options`] under the key it is sent as, with its
/// text when it is set.
pub open spec fn index_tts2_options_fields(x: IndexTts2Options) -> Entries {
    seq![
        ("seed"@, u32_value(x.seed)),
        ("do_sample"@, bool_value(x.do_sample)),
        ("temperature"@, text_value(x.temperature)),
        ("top_k"@, i32_value(x.top_k)),
        ("top_p"@, text_value(x.top_p)),
        ("max_tokens"@, i32_value(x.max_tokens)),
        ("num_beams"@, i32_value(x.num_beams)),
        ("repetition_penalty"@, text_value(x.repetition_penalty)),
        ("length_penalty"@, text_value(x.length_penalty)),
        ("language"@, text_value(x.language)),
        ("duration_factor"@, text_value(x.duration_factor)),
        ("emotion_alpha"@, text_value(x.emotion_alpha)),
        ("emotion_vector"@, text_value(x.emotion_vector)),
        ("use_emotion_text"@, bool_value(x.use_emotion_text)),
        ("emotion_text"@, text_value(x.emotion_text)),
        ("use_random_emotion"@, bool_value(x.use_random_emotion)),
        ("interval_silence_ms"@, i32_value(x.interval_silence_ms)),
    ]
}

/// Converting a [`IndexTts2Options`] into [`TaskOptions`] and encoding it sends
/// exactly its set fields, each under its key with its text.
pub proof fn law_index_tts2_options_send_their_set_fields(x: IndexTts2Options)
    ensures
        forall|k: Seq<char>| #[trigger] encoded_options(options_from_index_tts2_options(x)).contains_key(k)
            <==> exists|i: int| 0 <= i < index_tts2_options_fields(x).len()
                && (#[trigger] index_tts2_options_fields(x)[i]).0 == k && index_tts2_options_fields(x)[i].1 is Some,
        forall|i: int| 0 <= i < index_tts2_options_fields(x).len() && (#[trigger] index_tts2_options_fields(x)[i]).1 is Some
            ==> encoded_options(options_from_index_tts2_options(x))[index_tts2_options_fields(x)[i].0]
                == index_tts2_options_fields(x)[i].1->0,
{
    let o = options_from_index_tts2_options(x);
    let s = option_entries(o);
    let fl = index_tts2_options_fields(x);
    let pos: Seq<int> = seq![0, 5, 1, 2, 3, 8, 6, 10, 11, 19, 34, 35, 36, 37, 38, 39, 40];
    let inv: Seq<int> = seq![0, 2, 3, 4, -1, 1, 6, -1, 5, -1, 7, 8, -1, -1, -1, -1, -1, -1, -1, 9, -1, -1, -1, -1, -1, -1, -1, -1, -1, -1, -1, -1, -1, -1, 10, 11, 12, 13, 14, 15, 16];
    assert(s == common_entries(o) + index_tts2_options_entries(x));
    lemma_option_keys_distinct(o);
    assert forall|i: int| 0 <= i < fl.len() implies 0 <= #[trigger] pos[i] < s.len() && s[pos[i]] == fl[i] by {}
    assert forall|q: int| 0 <= q < s.len() && (#[trigger] s[q]).1 is Some implies 0 <= inv[q] < fl.len() && fl[inv[q]] == s[q] by {}
    assert forall|i: int| 0 <= i < fl.len() && (#[trigger] fl[i]).1 is Some implies encoded_options(o).contains_key(fl[i].0)
        && encoded_options(o)[fl[i].0] == fl[i].1->0 by {
        lemma_distinct_entry_value(s, pos[i]);
    }
    assert forall|k: Seq<char>| #[trigger] encoded_options(o).contains_key(k) implies exists|i: int|
        0 <= i < fl.len() && (#[trigger] fl[i]).0 == k && fl[i].1 is Some by {
        lemma_entries_map_keys(s, k);
        let q = choose|q: int| 0 <= q < s.len() && (#[trigger] s[q]).0 == k && s[q].1 is Some;
        assert(fl[inv[q]] == s[q]);
    }
}

/// Every field of [`AceStepOptions`] under the key it is sent as, with its
/// text when it is set.
pub open spec fn ace_step_options_fields(x: AceStepOptions) -> Entries {
    seq![
        ("seed"@, u32_value(x.seed)),
        ("num_inference_steps"@, i32_value(x.num_inference_steps)),
        ("guidance_scale"@, text_value(x.guidance_scale)),
        ("duration_sec"@, text_value(x.duration_sec)),
        ("duration_seconds"@, text_value(x.duration_sec)),
        ("negative_prompt"@, text_value(x.negative_prompt)),
        ("lyrics"@, text_value(x.lyrics)),
        ("route"@, text_value(x.route)),
        ("sampler"@, text_value(x.sampler)),
        ("instruction"@, text_value(x.instruction)),
        ("audio_codes"@, text_value(x.audio_codes)),
        ("audio_code_string"@, text_value(x.audio_code_string)),
        ("track_name"@, text_value(x.track_name)),
        ("bpm"@, i32_value(x.bpm)),
        ("keyscale"@, text_value(x.keyscale)),
        ("timesignature"@, text_value(x.timesignature)),
        ("chunk_mask_mode"@, text_value(x.chunk_mask_mode)),
        ("repaint_mode"@, text_value(x.repaint_mode)),
        ("repaint_strength"@, text_value(x.repaint_strength)),
        ("repainting_start"@, text_value(x.repainting_start)),
        ("repainting_end"@, text_value(x.repainting_end)),
        ("thinking"@, bool_value(x.thinking)),
        ("use_cot_metas"@, bool_value(x.use_cot_metas)),
        ("use_cot_caption"@, bool_value(x.use_cot_caption)),
        ("use_cot_language"@, bool_value(x.use_cot_language)),
        ("use_adg"@, bool_value(x.use_adg)),
        ("cfg_interval_start"@, text_value(x.cfg_interval_start)),
        ("cfg_interval_end"@, text_value(x.cfg_interval_end)),
        ("lm_temperature"@, text_value(x.lm_temperature)),
        ("lm_cfg_scale"@, text_value(x.lm_cfg_scale)),
        ("lm_top_k"@, i32_value(x.lm_top_k)),
        ("lm_top_p"@, text_value(x.lm_top_p)),
        ("lm_repetition_penalty"@, text_value(x.lm_repetition_penalty)),
        ("shift"@, text_value(x.shift)),
        ("infer_method"@, text_value(x.infer_method)),
        ("audio_cover_strength"@, text_value(x.audio_cover_strength)),
        ("cover_noise_strength"@, text_value(x.cover_noise_strength)),
        ("retake_seed"@, i32_value(x.retake_seed)),
        ("retake_variance"@, text_value(x.retake_variance)),
        ("sampler_mode"@, text_value(x.sampler_mode)),
        ("velocity_norm_threshold"@, text_value(x.velocity_norm_threshold)),
        ("velocity_ema_factor"@, text_value(x.velocity_ema_factor)),
        ("dcw_enabled"@, bool_value(x.dcw_enabled)),
        ("dcw_mode"@, text_value(x.dcw_mode)),
        ("dcw_scaler"@, text_value(x.dcw_scaler)),
        ("dcw_high_scaler"@, text_value(x.dcw_high_scaler)),
        ("dcw_wavelet"@, text_value(x.dcw_wavelet)),
        ("repaint_crossfade_frames"@, i32_value(x.repaint_crossfade_frames)),
        ("repaint_injection_ratio"@, text_value(x.repaint_injection_ratio)),
    ]
}

/// Converting a [`AceStepOptions`] into [`TaskOptions`] and encoding it sends
/// exactly its set fields, each under its key with its text.
pub proof fn law_ace_step_options_send_their_set_fields(x: AceStepOptions)
    ensures
        forall|k: Seq<char>| #[trigger] encoded_options(options_from_ace_step_options(x)).contains_key(k)
            <==> exists|i: int| 0 <= i < ace_step_options_fields(x).len()
                && (#[trigger] ace_step_options_fields(x)[i]).0 == k && ace_step_options_fields(x)[i].1 is Some,
        forall|i: int| 0 <= i < ace_step_options_fields(x).len() && (#[trigger] ace_step_options_fields(x)[i]).1 is Some
            ==> encoded_options(options_from_ace_step_options(x))[ace_step_options_fields(x)[i].0]
                == ace_step_options_fields(x)[i].1->0,
{
    let o = options_from_ace_step_options(x);
    let s = option_entries(o);
    let fl = ace_step_options_fields(x);
    let pos: Seq<int> = seq![0, 13, 12, 15, 74, 14, 32, 33, 7, 34, 35, 36, 37, 38, 39, 40, 41, 42, 43, 44, 45, 46, 47, 48, 49, 50, 51, 52, 53, 54, 55, 56, 57, 58, 59, 60, 61, 62, 63, 64, 65, 66, 67, 68, 69, 70, 71, 72, 73];
    let inv: Seq<int> = seq![0, -1, -1, -1, -1, -1, -1, 8, -1, -1, -1, -1, 2, 1, 5, 3, -1, -1, -1, -1, -1, -1, -1, -1, -1, -1, -1, -1, -1, -1, -1, -1, 6, 7, 9, 10, 11, 12, 13, 14, 15, 16, 17, 18, 19, 20, 21, 22, 23, 24, 25, 26, 27, 28, 29, 30, 31, 32, 33, 34, 35, 36, 37, 38, 39, 40, 41, 42, 43, 44, 45, 46, 47, 48, 4];
    assert(s == common_entries(o) + ace_step_options_entries(x));
    lemma_option_keys_distinct(o);
    assert forall|i: int| 0 <= i < fl.len() implies 0 <= #[trigger] pos[i] < s.len() && s[pos[i]] == fl[i] by {}
    assert forall|q: int| 0 <= q < s.len() && (#[trigger] s[q]).1 is Some implies 0 <= inv[q] < fl.len() && fl[inv[q]] == s[q] by {}
    assert forall|i: int| 0 <= i < fl.len() && (#[trigger] fl[i]).1 is Some implies encoded_options(o).contains_key(fl[i].0)
        && encoded_options(o)[fl[i].0] == fl[i].1->0 by {
        lemma_distinct_entry_value(s, pos[i]);
    }
    assert forall|k: Seq<char>| #[trigger] encoded_options(o).contains_key(k) implies exists|i: int|
        0 <= i < fl.len() && (#[trigger] fl[i]).0 == k && fl[i].1 is Some by {
        lemma_entries_map_keys(s, k);
        let q = choose|q: int| 0 <= q < s.len() && (#[trigger] s[q]).0 == k && s[q].1 is Some;
        assert(fl[inv[q]] == s[q]);
    }
}

/// Every field of [`OmnivoiceOptions`] under the key it is sent as, with its
/// text when it is set.
pub open spec fn omnivoice_options_fields(x: OmnivoiceOptions) -> Entries {
    seq![
        ("seed"@, u32_value(x.seed)),
        ("num_inference_steps"@, i32_value(x.num_inference_steps)),
        ("guidance_scale"@, text_value(x.guidance_scale)),
        ("text_chunk_mode"@, text_chunk_value(x.text_chunk_mode)),
        ("text_chunk_size"@, i32_value(x.text_chunk_size)),
        ("speed"@, text_value(x.speed)),
        ("duration"@, text_value(x.duration)),
        ("t_shift"@, text_value(x.t_shift)),
        ("denoise"@, bool_value(x.denoise)),
        ("preprocess_prompt"@, bool_value(x.preprocess_prompt)),
        ("postprocess_output"@, bool_value(x.postprocess_output)),
        ("layer_penalty_factor"@, text_value(x.layer_penalty_factor)),
        ("position_temperature"@, text_value(x.position_temperature)),
        ("class_temperature"@, text_value(x.class_temperature)),
        ("audio_chunk_duration"@, text_value(x.audio_chunk_duration)),
        ("audio_chunk_threshold"@, text_value(x.audio_chunk_threshold)),
    ]
}

/// Converting a [`OmnivoiceOptions`] into [`TaskOptions`] and encoding it sends
/// exactly its set fields, each under its key with its text.
pub proof fn law_omnivoice_options_send_their_set_fields(x: OmnivoiceOptions)
    ensures
        forall|k: Seq<char>| #[trigger] encoded_options(options_from_omnivoice_options(x)).contains_key(k)
            <==> exists|i: int| 0 <= i < omnivoice_options_fields(x).len()
                && (#[trigger] omnivoice_options_fields(x)[i]).0 == k && omnivoice_options_fields(x)[i].1 is Some,
        forall|i: int| 0 <= i < omnivoice_options_fields(x).len() && (#[trigger] omnivoice_options_fields(x)[i]).1 is Some
            ==> encoded_options(options_from_omnivoice_options(x))[omnivoice_options_fields(x)[i].0]
                == omnivoice_options_fields(x)[i].1->0,
{
    let o = options_from_omnivoice_options(x);
    let s = option_entries(o);
    let fl = omnivoice_options_fields(x);
    let pos: Seq<int> = seq![0, 13, 12, 23, 24, 34, 35, 36, 37, 38, 39, 40, 41, 42, 43, 44];
    let inv: Seq<int> = seq![0, -1, -1, -1, -1, -1, -1, -1, -1, -1, -1, -1, 2, 1, -1, -1, -1, -1, -1, -1, -1, -1, -1, 3, 4, -1, -1, -1, -1, -1, -1, -1, -1, -1, 5, 6, 7, 8, 9, 10, 11, 12, 13, 14, 15];
    assert(s == common_entries(o) + omnivoice_options_entries(x));
    lemma_option_keys_distinct(o);
    assert forall|i: int| 0 <= i < fl.len() implies 0 <= #[trigger] pos[i] < s.len() && s[pos[i]] == fl[i] by {}
    assert forall|q: int| 0 <= q < s.len() && (#[trigger] s[q]).1 is Some implies 0 <= inv[q] < fl.len() && fl[inv[q]] == s[q] by {}
    assert forall|i: int| 0 <= i < fl.len() && (#[trigger] fl[i]).1 is Some implies encoded_options(o).contains_key(fl[i].0)
        && encoded_options(o)[fl[i].0] == fl[i].1->0 by {
        lemma_distinct_entry_value(s, pos[i]);
    }
    assert forall|k: Seq<char>| #[trigger] encoded_options(o).contains_key(k) implies exists|i: int|
        0 <= i < fl.len() && (#[trigger] fl[i]).0 == k && fl[i].1 is Some by {
        lemma_entries_map_keys(s, k);
        let q = choose|q: int| 0 <= q < s.len() && (#[trigger] s[q]).0 == k && s[q].1 is Some;
        assert(fl[inv[q]] == s[q]);
    }
}

/// Every field of [`StableAudioOptions`] under the key it is sent as, with its
/// text when it is set.
pub open spec fn stable_audio_options_fields(x: StableAudioOptions) -> Entries {
    seq![
        ("seed"@, u32_value(x.seed)),
        ("num_inference_steps"@, i32_value(x.num_inference_steps)),
        ("guidance_scale"@, text_value(x.guidance_scale)),
        ("duration_sec"@, text_value(x.duration_sec)),
        ("duration_seconds"@, text_value(x.duration_sec)),
        ("negative_prompt"@, text_value(x.negative_prompt)),
        ("sampler"@, text_value(x.sampler)),
        ("prompt"@, text_value(x.prompt)),
        ("batch_size"@, i32_value(x.batch_size)),
        ("apg_scale"@, text_value(x.apg_scale)),
        ("truncate_output_to_duration"@, bool_value(x.truncate_output_to_duration)),
        ("chunked_decode"@, bool_value(x.chunked_decode)),
        ("duration_padding_seconds"@, text_value(x.duration_padding_seconds)),
        ("init_noise_level"@, text_value(x.init_noise_level)),
        ("audio_input_kind"@, text_value(x.audio_input_kind)),
        ("inpaint_mask_start_seconds"@, text_value(x.inpaint_mask_start_seconds)),
        ("inpaint_mask_end_seconds"@, text_value(x.inpaint_mask_end_seconds)),
        ("sigma_min"@, text_value(x.sigma_min)),
        ("sigma_max"@, text_value(x.sigma_max)),
        ("rho"@, text_value(x.rho)),
    ]
}

/// Converting a [`StableAudioOptions`] into [`TaskOptions`] and encoding it sends
/// exactly its set fields, each under its key with its text.
pub proof fn law_stable_audio_options_send_their_set_fields(x: StableAudioOptions)
    ensures
        forall|k: Seq<char>| #[trigger] encoded_options(options_from_stable_audio_options(x)).contains_key(k)
            <==> exists|i: int| 0 <= i < stable_audio_options_fields(x).len()
                && (#[trigger] stable_audio_options_fields(x)[i]).0 == k && stable_audio_options_fields(x)[i].1 is Some,
        forall|i: int| 0 <= i < stable_audio_options_fields(x).len() && (#[trigger] stable_audio_options_fields(x)[i]).1 is Some
            ==> encoded_options(options_from_stable_audio_options(x))[stable_audio_options_fields(x)[i].0]
                == stable_audio_options_fields(x)[i].1->0,
{
    let o = options_from_stable_audio_options(x);
    let s = option_entries(o);
    let fl = stable_audio_options_fields(x);
    let pos: Seq<int> = seq![0, 13, 12, 15, 47, 14, 7, 34, 35, 36, 37, 38, 39, 40, 41, 42, 43, 44, 45, 46];
    let inv: Seq<int> = seq![0, -1, -1, -1, -1, -1, -1, 6, -1, -1, -1, -1, 2, 1, 5, 3, -1, -1, -1, -1, -1, -1, -1, -1, -1, -1, -1, -1, -1, -1, -1, -1, -1, -1, 7, 8, 9, 10, 11, 12, 13, 14, 15, 16, 17, 18, 19, 4];
    assert(s == common_entries(o) + stable_audio_options_entries(x));
    lemma_option_keys_distinct(o);
    assert forall|i: int| 0 <= i < fl.len() implies 0 <= #[trigger] pos[i] < s.len() && s[pos[i]] == fl[i] by {}
    assert forall|q: int| 0 <= q < s.len() && (#[trigger] s[q]).1 is Some implies 0 <= inv[q] < fl.len() && fl[inv[q]] == s[q] by {}
    assert forall|i: int| 0 <= i < fl.len() && (#[trigger] fl[i]).1 is Some implies encoded_options(o).contains_key(fl[i].0)
        && encoded_options(o)[fl[i].0] == fl[i].1->0 by {
        lemma_distinct_entry_value(s, pos[i]);
    }
    assert forall|k: Seq<char>| #[trigger] encoded_options(o).contains_key(k) implies exists|i: int|
        0 <= i < fl.len() && (#[trigger] fl[i]).0 == k && fl[i].1 is Some by {
        lemma_entries_map_keys(s, k);
        let q = choose|q: int| 0 <= q < s.len() && (#[trigger] s[q]).0 == k && s[q].1 is Some;
        assert(fl[inv[q]] == s[q]);
    }
}

/// Every shared field of [`TaskOptions`] is sent under its own key with its
/// text when it is set, and its key is absent when it is unset, whatever
/// family extras the options carry.
pub proof fn law_shared_fields_are_sent(o: TaskOptions)
    ensures
        o.seed matches Some(v) ==> encoded_options(o).contains_key("seed"@) && encoded_options(o)["seed"@] == decimal(v as nat),
        o.seed is None ==> !encoded_options(o).contains_key("seed"@),
        o.temperature matches Some(v) ==> encoded_options(o).contains_key("temperature"@) && encoded_options(o)["temperature"@] == v@,
        o.temperature is None ==> !encoded_options(o).contains_key("temperature"@),
        o.top_k matches Some(v) ==> encoded_options(o).contains_key("top_k"@) && encoded_options(o)["top_k"@] == signed_decimal(v as int),
        o.top_k is None ==> !encoded_options(o).contains_key("top_k"@),
        o.top_p matches Some(v) ==> encoded_options(o).contains_key("top_p"@) && encoded_options(o)["top_p"@] == v@,
        o.top_p is None ==> !encoded_options(o).contains_key("top_p"@),
        o.min_p matches Some(v) ==> encoded_options(o).contains_key("min_p"@) && encoded_options(o)["min_p"@] == v@,
        o.min_p is None ==> !encoded_options(o).contains_key("min_p"@),
        o.do_sample matches Some(v) ==> encoded_options(o).contains_key("do_sample"@) && encoded_options(o)["do_sample"@] == (if v { "true"@ } else { "false"@ }),
        o.do_sample is None ==> !encoded_options(o).contains_key("do_sample"@),
        o.num_beams matches Some(v) ==> encoded_options(o).contains_key("num_beams"@) && encoded_options(o)["num_beams"@] == signed_decimal(v as int),
        o.num_beams is None ==> !encoded_options(o).contains_key("num_beams"@),
        o.sampler matches Some(v) ==> encoded_options(o).contains_key("sampler"@) && encoded_options(o)["sampler"@] == v@,
        o.sampler is None ==> !encoded_options(o).contains_key("sampler"@),
        o.max_tokens matches Some(v) ==> encoded_options(o).contains_key("max_tokens"@) && encoded_options(o)["max_tokens"@] == signed_decimal(v as int),
        o.max_tokens is None ==> !encoded_options(o).contains_key("max_tokens"@),
        o.max_new_tokens matches Some(v) ==> encoded_options(o).contains_key("max_new_tokens"@) && encoded_options(o)["max_new_tokens"@] == signed_decimal(v as int),
        o.max_new_tokens is None ==> !encoded_options(o).contains_key("max_new_tokens"@),
        o.repetition_penalty matches Some(v) ==> encoded_options(o).contains_key("repetition_penalty"@) && encoded_options(o)["repetition_penalty"@] == v@,
        o.repetition_penalty is None ==> !encoded_options(o).contains_key("repetition_penalty"@),
        o.length_penalty matches Some(v) ==> encoded_options(o).contains_key("length_penalty"@) && encoded_options(o)["length_penalty"@] == v@,
        o.length_penalty is None ==> !encoded_options(o).contains_key("length_penalty"@),
        o.guidance_scale matches Some(v) ==> encoded_options(o).contains_key("guidance_scale"@) && encoded_options(o)["guidance_scale"@] == v@,
        o.guidance_scale is None ==> !encoded_options(o).contains_key("guidance_scale"@),
        o.num_inference_steps matches Some(v) ==> encoded_options(o).contains_key("num_inference_steps"@) && encoded_options(o)["num_inference_steps"@] == signed_decimal(v as int),
        o.num_inference_steps is None ==> !encoded_options(o).contains_key("num_inference_steps"@),
        o.negative_prompt matches Some(v) ==> encoded_options(o).contains_key("negative_prompt"@) && encoded_options(o)["negative_prompt"@] == v@,
        o.negative_prompt is None ==> !encoded_options(o).contains_key("negative_prompt"@),
        o.duration_sec matches Some(v) ==> encoded_options(o).contains_key("duration_sec"@) && encoded_options(o)["duration_sec"@] == v@,
        o.duration_sec is None ==> !encoded_options(o).contains_key("duration_sec"@),
        o.duration_scale matches Some(v) ==> encoded_options(o).contains_key("duration_scale"@) && encoded_options(o)["duration_scale"@] == v@,
        o.duration_scale is None ==> !encoded_options(o).contains_key("duration_scale"@),
        o.spatio_temporal_guidance_scale matches Some(v) ==> encoded_options(o).contains_key("spatio_temporal_guidance_scale"@) && encoded_options(o)["spatio_temporal_guidance_scale"@] == v@,
        o.spatio_temporal_guidance_scale is None ==> !encoded_options(o).contains_key("spatio_temporal_guidance_scale"@),
        o.guidance_rescale matches Some(v) ==> encoded_options(o).contains_key("guidance_rescale"@) && encoded_options(o)["guidance_rescale"@] == v@,
        o.guidance_rescale is None ==> !encoded_options(o).contains_key("guidance_rescale"@),
        o.language matches Some(v) ==> encoded_options(o).contains_key("language"@) && encoded_options(o)["language"@] == v@,
        o.language is None ==> !encoded_options(o).contains_key("language"@),
        o.reference_text matches Some(v) ==> encoded_options(o).contains_key("reference_text"@) && encoded_options(o)["reference_text"@] == v@,
        o.reference_text is None ==> !encoded_options(o).contains_key("reference_text"@),
        o.reference_language matches Some(v) ==> encoded_options(o).contains_key("reference_language"@) && encoded_options(o)["reference_language"@] == v@,
        o.reference_language is None ==> !encoded_options(o).contains_key("reference_language"@),
        o.reference_duration_sec matches Some(v) ==> encoded_options(o).contains_key("reference_duration_sec"@) && encoded_options(o)["reference_duration_sec"@] == v@,
        o.reference_duration_sec is None ==> !encoded_options(o).contains_key("reference_duration_sec"@),
        o.text_chunk_mode matches Some(v) ==> encoded_options(o).contains_key("text_chunk_mode"@) && encoded_options(o)["text_chunk_mode"@] == text_chunk_mode_name(v),
        o.text_chunk_mode is None ==> !encoded_options(o).contains_key("text_chunk_mode"@),
        o.text_chunk_size matches Some(v) ==> encoded_options(o).contains_key("text_chunk_size"@) && encoded_options(o)["text_chunk_size"@] == signed_decimal(v as int),
        o.text_chunk_size is None ==> !encoded_options(o).contains_key("text_chunk_size"@),
        o.audio_chunk_mode matches Some(v) ==> encoded_options(o).contains_key("audio_chunk_mode"@) && encoded_options(o)["audio_chunk_mode"@] == audio_chunk_mode_name(v),
        o.audio_chunk_mode is None ==> !encoded_options(o).contains_key("audio_chunk_mode"@),
        o.audio_chunk_duration_sec matches Some(v) ==> encoded_options(o).contains_key("audio_chunk_duration_sec"@) && encoded_options(o)["audio_chunk_duration_sec"@] == v@,
        o.audio_chunk_duration_sec is None ==> !encoded_options(o).contains_key("audio_chunk_duration_sec"@),
        o.audio_chunk_threshold_sec matches Some(v) ==> encoded_options(o).contains_key("audio_chunk_threshold_sec"@) && encoded_options(o)["audio_chunk_threshold_sec"@] == v@,
        o.audio_chunk_threshold_sec is None ==> !encoded_options(o).contains_key("audio_chunk_threshold_sec"@),
        o.cross_fade_duration_sec matches Some(v) ==> encoded_options(o).contains_key("cross_fade_duration_sec"@) && encoded_options(o)["cross_fade_duration_sec"@] == v@,
        o.cross_fade_duration_sec is None ==> !encoded_options(o).contains_key("cross_fade_duration_sec"@),
        o.return_timestamps matches Some(v) ==> encoded_options(o).contains_key("return_timestamps"@) && encoded_options(o)["return_timestamps"@] == (if v { "true"@ } else { "false"@ }),
        o.return_timestamps is None ==> !encoded_options(o).contains_key("return_timestamps"@),
        o.target_voice matches Some(v) ==> encoded_options(o).contains_key("target_voice"@) && encoded_options(o)["target_voice"@] == v@,
        o.target_voice is None ==> !encoded_options(o).contains_key("target_voice"@),
        o.source_audio matches Some(v) ==> encoded_options(o).contains_key("source_audio"@) && encoded_options(o)["source_audio"@] == v@,
        o.source_audio is None ==> !encoded_options(o).contains_key("source_audio"@),
        o.lyrics matches Some(v) ==> encoded_options(o).contains_key("lyrics"@) && encoded_options(o)["lyrics"@] == v@,
        o.lyrics is None ==> !encoded_options(o).contains_key("lyrics"@),
        o.route matches Some(v) ==> encoded_options(o).contains_key("route"@) && encoded_options(o)["route"@] == v@,
        o.route is None ==> !encoded_options(o).contains_key("route"@),
{
    let s = option_entries(o);
    let c = common_entries(o);
    lemma_option_keys_distinct(o);
    assert forall|i: int| 0 <= i < c.len() implies #[trigger] s[i] == c[i] by {
        match o.family {
            Some(f) => {
                assert(s == c + family_entries(f));
            },
            None => {},
        }
    }
    lemma_distinct_entry(s, 0);
    assert(s[0] == c[0]);
    lemma_distinct_entry(s, 1);
    assert(s[1] == c[1]);
    lemma_distinct_entry(s, 2);
    assert(s[2] == c[2]);
    lemma_distinct_entry(s, 3);
    assert(s[3] == c[3]);
    lemma_distinct_entry(s, 4);
    assert(s[4] == c[4]);
    lemma_distinct_entry(s, 5);
    assert(s[5] == c[5]);
    lemma_distinct_entry(s, 6);
    assert(s[6] == c[6]);
    lemma_distinct_entry(s, 7);
    assert(s[7] == c[7]);
    lemma_distinct_entry(s, 8);
    assert(s[8] == c[8]);
    lemma_distinct_entry(s, 9);
    assert(s[9] == c[9]);
    lemma_distinct_entry(s, 10);
    assert(s[10] == c[10]);
    lemma_distinct_entry(s, 11);
    assert(s[11] == c[11]);
    lemma_distinct_entry(s, 12);
    assert(s[12] == c[12]);
    lemma_distinct_entry(s, 13);
    assert(s[13] == c[13]);
    lemma_distinct_entry(s, 14);
    assert(s[14] == c[14]);
    lemma_distinct_entry(s, 15);
    assert(s[15] == c[15]);
    lemma_distinct_entry(s, 16);
    assert(s[16] == c[16]);
    lemma_distinct_entry(s, 17);
    assert(s[17] == c[17]);
    lemma_distinct_entry(s, 18);
    assert(s[18] == c[18]);
    lemma_distinct_entry(s, 19);
    assert(s[19] == c[19]);
    lemma_distinct_entry(s, 20);
    assert(s[20] == c[20]);
    lemma_distinct_entry(s, 21);
    assert(s[21] == c[21]);
    lemma_distinct_entry(s, 22);
    assert(s[22] == c[22]);
    lemma_distinct_entry(s, 23);
    assert(s[23] == c[23]);
    lemma_distinct_entry(s, 24);
    assert(s[24] == c[24]);
    lemma_distinct_entry(s, 25);
    assert(s[25] == c[25]);
    lemma_distinct_entry(s, 26);
    assert(s[26] == c[26]);
    lemma_distinct_entry(s, 27);
    assert(s[27] == c[27]);
    lemma_distinct_entry(s, 28);
    assert(s[28] == c[28]);
    lemma_distinct_entry(s, 29);
    assert(s[29] == c[29]);
    lemma_distinct_entry(s, 30);
    assert(s[30] == c[30]);
    lemma_distinct_entry(s, 31);
    assert(s[31] == c[31]);
    lemma_distinct_entry(s, 32);
    assert(s[32] == c[32]);
    lemma_distinct_entry(s, 33);
    assert(s[33] == c[33]);
}

} // verus!
