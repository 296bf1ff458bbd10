//! Typed request options and their encoding into the runtime's string map.
//!
//! Common knobs live on [`TaskOptions`]. Families with extra request keys have
//! dedicated structs that convert into [`TaskOptions`]. Unset fields are
//! omitted so schema-v1 models are not sent unknown keys.
//!
//! Every floating-point knob is held as the decimal text that `f32`'s
//! `Display` writes for it, since that text is what the runtime receives;
//! every path is held as its text.

use vstd::prelude::*;

use crate::string_map::StringMap;
use crate::text::{bool_text, bool_to_text, decimal, i32_text, owned, signed_decimal, u32_text};

verus! {

/// How long-form text is split before synthesis.
#[derive(Debug, Clone, Copy, PartialEq, Eq, Hash, Structural)]
#[non_exhaustive]
pub enum TextChunkMode {
    /// Upstream default chunker.
    Default,
    /// Split on a word/token budget.
    WordBudget,
    /// Honor markup tags when splitting.
    TagAware,
    /// Japanese-aware sentence splitting.
    Japanese,
    /// Split on newlines.
    Endline,
}

/// Canonical name of a text chunk mode.
pub open spec fn text_chunk_mode_name(m: TextChunkMode) -> Seq<char> {
    match m {
        TextChunkMode::Default => "default"@,
        TextChunkMode::WordBudget => "word_budget"@,
        TextChunkMode::TagAware => "tag_aware"@,
        TextChunkMode::Japanese => "japanese"@,
        TextChunkMode::Endline => "endline"@,
    }
}

impl TextChunkMode {
    /// Canonical `audio.cpp` string name.
    pub fn as_str(self) -> (s: &'static str)
        ensures
            s@ == text_chunk_mode_name(self),
    {
        match self {
            TextChunkMode::Default => "default",
            TextChunkMode::WordBudget => "word_budget",
            TextChunkMode::TagAware => "tag_aware",
            TextChunkMode::Japanese => "japanese",
            TextChunkMode::Endline => "endline",
        }
    }
}

/// How long-form audio is split before recognition or conversion.
#[derive(Debug, Clone, Copy, PartialEq, Eq, Hash, Structural)]
#[non_exhaustive]
pub enum AudioChunkMode {
    /// Let the model choose a chunker.
    Auto,
    /// Fixed-duration windows.
    Fixed,
    /// Voice-activity windows.
    Vad,
    /// Energy-based quiet detection.
    QuietEnergy,
    /// Disable chunking (upstream `none`).
    Off,
}

/// Canonical name of an audio chunk mode.
pub open spec fn audio_chunk_mode_name(m: AudioChunkMode) -> Seq<char> {
    match m {
        AudioChunkMode::Auto => "auto"@,
        AudioChunkMode::Fixed => "fixed"@,
        AudioChunkMode::Vad => "vad"@,
        AudioChunkMode::QuietEnergy => "quiet_energy"@,
        AudioChunkMode::Off => "none"@,
    }
}

impl AudioChunkMode {
    /// Canonical `audio.cpp` string name.
    pub fn as_str(self) -> (s: &'static str)
        ensures
            s@ == audio_chunk_mode_name(self),
    {
        match self {
            AudioChunkMode::Auto => "auto",
            AudioChunkMode::Fixed => "fixed",
            AudioChunkMode::Vad => "vad",
            AudioChunkMode::QuietEnergy => "quiet_energy",
            AudioChunkMode::Off => "none",
        }
    }
}

/// One candidate entry of the encoded map: a key and, when the field is
/// set, the text of its value.
pub type Entry = (&'static str, Option<String>);

/// The mathematical form of an entry.
pub open spec fn entry_view(e: Entry) -> (Seq<char>, Option<Seq<char>>) {
    (e.0@, text_value(e.1))
}

/// Text of an optional text value.
pub open spec fn text_value(v: Option<String>) -> Option<Seq<char>> {
    match v {
        Some(s) => Some(s@),
        None => None,
    }
}

/// Text of an optional unsigned integer.
pub open spec fn u32_value(v: Option<u32>) -> Option<Seq<char>> {
    match v {
        Some(n) => Some(decimal(n as nat)),
        None => None,
    }
}

/// Text of an optional signed integer.
pub open spec fn i32_value(v: Option<i32>) -> Option<Seq<char>> {
    match v {
        Some(n) => Some(signed_decimal(n as int)),
        None => None,
    }
}

/// Text of an optional boolean.
pub open spec fn bool_value(v: Option<bool>) -> Option<Seq<char>> {
    match v {
        Some(b) => Some(bool_text(b)),
        None => None,
    }
}

/// Name of an optional text chunk mode.
pub open spec fn text_chunk_value(v: Option<TextChunkMode>) -> Option<Seq<char>> {
    match v {
        Some(m) => Some(text_chunk_mode_name(m)),
        None => None,
    }
}

/// Name of an optional audio chunk mode.
pub open spec fn audio_chunk_value(v: Option<AudioChunkMode>) -> Option<Seq<char>> {
    match v {
        Some(m) => Some(audio_chunk_mode_name(m)),
        None => None,
    }
}

/// The map that a sequence of candidate entries gives: each set entry is
/// inserted in order, so a later one replaces an earlier one with the same
/// key, and an unset entry adds nothing.
pub open spec fn entries_map(s: Seq<(Seq<char>, Option<Seq<char>>)>) -> Map<Seq<char>, Seq<char>>
    decreases s.len(),
{
    if s.len() == 0 {
        Map::empty()
    } else {
        let m = entries_map(s.drop_last());
        match s.last().1 {
            Some(v) => m.insert(s.last().0, v),
            None => m,
        }
    }
}

/// Unset fields are omitted: a key is in the encoded map exactly when some
/// entry with that key is set.
pub proof fn lemma_entries_map_keys(s: Seq<(Seq<char>, Option<Seq<char>>)>, k: Seq<char>)
    ensures
        entries_map(s).contains_key(k) <==> exists|i: int|
            0 <= i < s.len() && (#[trigger] s[i]).0 == k && s[i].1 is Some,
    decreases s.len(),
{
    if s.len() > 0 {
        let t = s.drop_last();
        lemma_entries_map_keys(t, k);
        if exists|i: int| 0 <= i < t.len() && (#[trigger] t[i]).0 == k && t[i].1 is Some {
            let i = choose|i: int| 0 <= i < t.len() && (#[trigger] t[i]).0 == k && t[i].1 is Some;
            assert(s[i] == t[i]);
        }
        if exists|i: int| 0 <= i < s.len() && (#[trigger] s[i]).0 == k && s[i].1 is Some {
            let i = choose|i: int| 0 <= i < s.len() && (#[trigger] s[i]).0 == k && s[i].1 is Some;
            if i < s.len() - 1 {
                assert(t[i] == s[i]);
            }
        }
    }
}

/// The value stored under a key is that of the last set entry with the key.
pub proof fn lemma_entries_map_value(s: Seq<(Seq<char>, Option<Seq<char>>)>, i: int)
    requires
        0 <= i < s.len(),
        s[i].1 is Some,
        forall|j: int| i < j < s.len() && (#[trigger] s[j]).0 == s[i].0 ==> s[j].1 is None,
    ensures
        entries_map(s).contains_key(s[i].0),
        entries_map(s)[s[i].0] == s[i].1->0,
    decreases s.len(),
{
    let t = s.drop_last();
    if i < s.len() - 1 {
        assert forall|j: int| i < j < t.len() && (#[trigger] t[j]).0 == t[i].0 implies t[j].1 is None by {
            assert(s[j] == t[j]);
        }
        assert(t[i] == s[i]);
        lemma_entries_map_value(t, i);
    }
}

/// Candidate entry for an unsigned integer field.
fn u32_entry(key: &'static str, v: Option<u32>) -> (e: Entry)
    ensures
        entry_view(e) == (key@, u32_value(v)),
{
    match v {
        Some(n) => (key, Some(u32_text(n))),
        None => (key, None),
    }
}

/// Candidate entry for a signed integer field.
fn i32_entry(key: &'static str, v: Option<i32>) -> (e: Entry)
    ensures
        entry_view(e) == (key@, i32_value(v)),
{
    match v {
        Some(n) => (key, Some(i32_text(n))),
        None => (key, None),
    }
}

/// Candidate entry for a boolean field.
fn bool_entry(key: &'static str, v: Option<bool>) -> (e: Entry)
    ensures
        entry_view(e) == (key@, bool_value(v)),
{
    match v {
        Some(b) => (key, Some(bool_to_text(b))),
        None => (key, None),
    }
}

/// Candidate entry for a text field.
fn text_entry(key: &'static str, v: &Option<String>) -> (e: Entry)
    ensures
        entry_view(e) == (key@, text_value(*v)),
{
    match v {
        Some(s) => (key, Some(owned(s.as_str()))),
        None => (key, None),
    }
}

/// Candidate entry for a text chunk mode field.
fn text_chunk_entry(key: &'static str, v: Option<TextChunkMode>) -> (e: Entry)
    ensures
        entry_view(e) == (key@, text_chunk_value(v)),
{
    match v {
        Some(m) => (key, Some(owned(m.as_str()))),
        None => (key, None),
    }
}

/// Candidate entry for an audio chunk mode field.
fn audio_chunk_entry(key: &'static str, v: Option<AudioChunkMode>) -> (e: Entry)
    ensures
        entry_view(e) == (key@, audio_chunk_value(v)),
{
    match v {
        Some(m) => (key, Some(owned(m.as_str()))),
        None => (key, None),
    }
}

/// Copy of an optional text.
fn copy_text(v: &Option<String>) -> (r: Option<String>)
    ensures
        r == *v,
{
    match v {
        Some(s) => Some(s.clone()),
        None => None,
    }
}

/// Inserts every set entry into `map`, in order.
fn apply_entries(map: &mut StringMap, entries: &Vec<Entry>)
    ensures
        final(map)@ == old(map)@.union_prefer_right(entries_map(entries@.map_values(|e: Entry| entry_view(e)))),
{
    let ghost all = entries@.map_values(|e: Entry| entry_view(e));
    let mut i: usize = 0;
    while i < entries.len()
        invariant
            0 <= i <= entries@.len(),
            all == entries@.map_values(|e: Entry| entry_view(e)),
            map@ == old(map)@.union_prefer_right(entries_map(all.take(i as int))),
        decreases entries@.len() - i,
    {
        assert(all.take(i + 1).drop_last() =~= all.take(i as int));
        assert(all.take(i + 1).last() == all[i as int]);
        match &entries[i].1 {
            Some(v) => {
                map.insert(owned(entries[i].0), v.clone());
                assert(map@ =~= old(map)@.union_prefer_right(entries_map(all.take(i + 1))));
            },
            None => {},
        }
        i = i + 1;
    }
    assert(all.take(i as int) =~= all);
}

/// Shared request-scope options accepted across many model families.
#[derive(Debug, Clone, PartialEq)]
pub struct TaskOptions {
    /// RNG seed.
    pub seed: Option<u32>,
    /// Sampler temperature, as the decimal text that `f32`'s `Display` writes.
    pub temperature: Option<String>,
    /// Top-k sampling cutoff.
    pub top_k: Option<i32>,
    /// Nucleus sampling cutoff, as the decimal text that `f32`'s `Display` writes.
    pub top_p: Option<String>,
    /// Min-p sampling cutoff, as the decimal text that `f32`'s `Display` writes.
    pub min_p: Option<String>,
    /// Enable stochastic sampling.
    pub do_sample: Option<bool>,
    /// Beam-search width.
    pub num_beams: Option<i32>,
    /// Sampler name, such as `euler`.
    pub sampler: Option<String>,
    /// Maximum generated tokens.
    pub max_tokens: Option<i32>,
    /// Alias for [`Self::max_tokens`] used by some families.
    pub max_new_tokens: Option<i32>,
    /// Repetition penalty, as the decimal text that `f32`'s `Display` writes.
    pub repetition_penalty: Option<String>,
    /// Beam length penalty, as the decimal text that `f32`'s `Display` writes.
    pub length_penalty: Option<String>,
    /// Classifier-free guidance scale, as the decimal text that `f32`'s `Display` writes.
    pub guidance_scale: Option<String>,
    /// Diffusion or flow-matching steps.
    pub num_inference_steps: Option<i32>,
    /// Negative prompt text.
    pub negative_prompt: Option<String>,
    /// Target duration in seconds, as the decimal text that `f32`'s `Display` writes.
    pub duration_sec: Option<String>,
    /// Duration multiplier, as the decimal text that `f32`'s `Display` writes.
    pub duration_scale: Option<String>,
    /// Spatio-temporal guidance scale, as the decimal text that `f32`'s `Display` writes.
    pub spatio_temporal_guidance_scale: Option<String>,
    /// Guidance rescale, such as `auto` or a numeric string.
    pub guidance_rescale: Option<String>,
    /// Language hint.
    pub language: Option<String>,
    /// Clone-reference transcript.
    pub reference_text: Option<String>,
    /// Clone-reference language.
    pub reference_language: Option<String>,
    /// Clone-reference crop length in seconds, as the decimal text that `f32`'s `Display` writes.
    pub reference_duration_sec: Option<String>,
    /// Long-form text chunker.
    pub text_chunk_mode: Option<TextChunkMode>,
    /// Long-form text chunk budget.
    pub text_chunk_size: Option<i32>,
    /// Long-form audio chunker.
    pub audio_chunk_mode: Option<AudioChunkMode>,
    /// Audio chunk length in seconds, as the decimal text that `f32`'s `Display` writes.
    pub audio_chunk_duration_sec: Option<String>,
    /// Long-form audio chunking threshold in seconds, as the decimal text that `f32`'s `Display` writes.
    pub audio_chunk_threshold_sec: Option<String>,
    /// Cross-fade between audio chunks in seconds, as the decimal text that `f32`'s `Display` writes.
    pub cross_fade_duration_sec: Option<String>,
    /// Request word timestamps when the model supports them.
    pub return_timestamps: Option<bool>,
    /// Clone or target-voice audio path, as path text.
    pub target_voice: Option<String>,
    /// Voice-conversion source audio path, as path text.
    pub source_audio: Option<String>,
    /// Lyrics for music-generation models.
    pub lyrics: Option<String>,
    /// Model route name.
    pub route: Option<String>,
    /// Family-specific extras.
    pub family: Option<FamilyOptions>,
}

/// Options with every field unset.
pub open spec fn unset_options() -> TaskOptions {
    TaskOptions {
        seed: None,
        temperature: None,
        top_k: None,
        top_p: None,
        min_p: None,
        do_sample: None,
        num_beams: None,
        sampler: None,
        max_tokens: None,
        max_new_tokens: None,
        repetition_penalty: None,
        length_penalty: None,
        guidance_scale: None,
        num_inference_steps: None,
        negative_prompt: None,
        duration_sec: None,
        duration_scale: None,
        spatio_temporal_guidance_scale: None,
        guidance_rescale: None,
        language: None,
        reference_text: None,
        reference_language: None,
        reference_duration_sec: None,
        text_chunk_mode: None,
        text_chunk_size: None,
        audio_chunk_mode: None,
        audio_chunk_duration_sec: None,
        audio_chunk_threshold_sec: None,
        cross_fade_duration_sec: None,
        return_timestamps: None,
        target_voice: None,
        source_audio: None,
        lyrics: None,
        route: None,
        family: None,
    }
}

/// The candidate entries of the shared fields, in the order the runtime map is filled.
pub open spec fn common_entries(o: TaskOptions) -> Seq<(Seq<char>, Option<Seq<char>>)> {
    seq![
        ("seed"@, u32_value(o.seed)),
        ("temperature"@, text_value(o.temperature)),
        ("top_k"@, i32_value(o.top_k)),
        ("top_p"@, text_value(o.top_p)),
        ("min_p"@, text_value(o.min_p)),
        ("do_sample"@, bool_value(o.do_sample)),
        ("num_beams"@, i32_value(o.num_beams)),
        ("sampler"@, text_value(o.sampler)),
        ("max_tokens"@, i32_value(o.max_tokens)),
        ("max_new_tokens"@, i32_value(o.max_new_tokens)),
        ("repetition_penalty"@, text_value(o.repetition_penalty)),
        ("length_penalty"@, text_value(o.length_penalty)),
        ("guidance_scale"@, text_value(o.guidance_scale)),
        ("num_inference_steps"@, i32_value(o.num_inference_steps)),
        ("negative_prompt"@, text_value(o.negative_prompt)),
        ("duration_sec"@, text_value(o.duration_sec)),
        ("duration_scale"@, text_value(o.duration_scale)),
        ("spatio_temporal_guidance_scale"@, text_value(o.spatio_temporal_guidance_scale)),
        ("guidance_rescale"@, text_value(o.guidance_rescale)),
        ("language"@, text_value(o.language)),
        ("reference_text"@, text_value(o.reference_text)),
        ("reference_language"@, text_value(o.reference_language)),
        ("reference_duration_sec"@, text_value(o.reference_duration_sec)),
        ("text_chunk_mode"@, text_chunk_value(o.text_chunk_mode)),
        ("text_chunk_size"@, i32_value(o.text_chunk_size)),
        ("audio_chunk_mode"@, audio_chunk_value(o.audio_chunk_mode)),
        ("audio_chunk_duration_sec"@, text_value(o.audio_chunk_duration_sec)),
        ("audio_chunk_threshold_sec"@, text_value(o.audio_chunk_threshold_sec)),
        ("cross_fade_duration_sec"@, text_value(o.cross_fade_duration_sec)),
        ("return_timestamps"@, bool_value(o.return_timestamps)),
        ("target_voice"@, text_value(o.target_voice)),
        ("source_audio"@, text_value(o.source_audio)),
        ("lyrics"@, text_value(o.lyrics)),
        ("route"@, text_value(o.route)),
    ]
}

/// The candidate entries of a family's extra fields.
pub open spec fn family_entries(f: FamilyOptions) -> Seq<(Seq<char>, Option<Seq<char>>)> {
    match f {
        FamilyOptions::VoxCpm2(x) => vox_cpm2_options_entries(x),
        FamilyOptions::Qwen3Tts(x) => qwen3_tts_options_entries(x),
        FamilyOptions::SileroVad(x) => silero_vad_options_entries(x),
        FamilyOptions::DramaBox(x) => drama_box_options_entries(x),
        FamilyOptions::Chatterbox(x) => chatterbox_options_entries(x),
        FamilyOptions::PocketTts(x) => pocket_tts_options_entries(x),
        FamilyOptions::NemotronAsr(x) => nemotron_asr_options_entries(x),
        FamilyOptions::IndexTts2(x) => index_tts2_options_entries(x),
        FamilyOptions::AceStep(x) => ace_step_options_entries(*x),
        FamilyOptions::Omnivoice(x) => omnivoice_options_entries(x),
        FamilyOptions::StableAudio(x) => stable_audio_options_entries(x),
    }
}

/// All candidate entries of a set of options: the shared fields, then the family's extras.
pub open spec fn option_entries(o: TaskOptions) -> Seq<(Seq<char>, Option<Seq<char>>)> {
    match o.family {
        Some(f) => common_entries(o) + family_entries(f),
        None => common_entries(o),
    }
}

/// The string map that a set of options encodes to.
pub open spec fn encoded_options(o: TaskOptions) -> Map<Seq<char>, Seq<char>> {
    entries_map(option_entries(o))
}

/// Unset fields are omitted: a key is in the encoded map exactly when one
/// of the candidate entries with that key is set.
pub proof fn law_encoded_keys_are_set_fields(o: TaskOptions, k: Seq<char>)
    ensures
        encoded_options(o).contains_key(k) <==> exists|i: int|
            0 <= i < option_entries(o).len() && (#[trigger] option_entries(o)[i]).0 == k
                && option_entries(o)[i].1 is Some,
{
    lemma_entries_map_keys(option_entries(o), k);
}

/// Options with every field unset encode to the empty map.
pub proof fn law_unset_options_encode_empty()
    ensures
        encoded_options(unset_options()) == Map::<Seq<char>, Seq<char>>::empty(),
{
    let s = option_entries(unset_options());
    assert forall|i: int| 0 <= i < s.len() implies (#[trigger] s[i]).1 is None by {
    }
    assert forall|k: Seq<char>| !#[trigger] encoded_options(unset_options()).contains_key(k) by {
        lemma_entries_map_keys(s, k);
    }
    assert(encoded_options(unset_options()) =~= Map::<Seq<char>, Seq<char>>::empty());
}

/// A set extra field of the family reaches the encoded map with its value,
/// unless a later extra entry of the family reuses its key.
pub proof fn law_family_extras_reach_the_map(o: TaskOptions, i: int)
    requires
        o.family is Some,
        0 <= i < family_entries(o.family->0).len(),
        family_entries(o.family->0)[i].1 is Some,
        forall|j: int|
            i < j < family_entries(o.family->0).len() && (#[trigger] family_entries(o.family->0)[j]).0
                == family_entries(o.family->0)[i].0 ==> family_entries(o.family->0)[j].1 is None,
    ensures
        encoded_options(o).contains_key(family_entries(o.family->0)[i].0),
        encoded_options(o)[family_entries(o.family->0)[i].0] == family_entries(o.family->0)[i].1->0,
{
    let c = common_entries(o);
    let f = family_entries(o.family->0);
    let s = option_entries(o);
    assert(s == c + f);
    let n = c.len() as int;
    assert(s[n + i] == f[i]);
    assert forall|j: int| n + i < j < s.len() && (#[trigger] s[j]).0 == s[n + i].0 implies s[j].1 is None by {
        assert(s[j] == f[j - n]);
    }
    lemma_entries_map_value(s, n + i);
}

impl TaskOptions {
    /// Empty options; the model uses its defaults.
    pub fn new() -> (o: TaskOptions)
        ensures
            o == unset_options(),
    {
        TaskOptions {
            seed: None,
            temperature: None,
            top_k: None,
            top_p: None,
            min_p: None,
            do_sample: None,
            num_beams: None,
            sampler: None,
            max_tokens: None,
            max_new_tokens: None,
            repetition_penalty: None,
            length_penalty: None,
            guidance_scale: None,
            num_inference_steps: None,
            negative_prompt: None,
            duration_sec: None,
            duration_scale: None,
            spatio_temporal_guidance_scale: None,
            guidance_rescale: None,
            language: None,
            reference_text: None,
            reference_language: None,
            reference_duration_sec: None,
            text_chunk_mode: None,
            text_chunk_size: None,
            audio_chunk_mode: None,
            audio_chunk_duration_sec: None,
            audio_chunk_threshold_sec: None,
            cross_fade_duration_sec: None,
            return_timestamps: None,
            target_voice: None,
            source_audio: None,
            lyrics: None,
            route: None,
            family: None,
        }
    }

    /// The candidate entries of the shared fields.
    fn common_entries(&self) -> (r: Vec<Entry>)
        ensures
            r@.map_values(|e: Entry| entry_view(e)) == common_entries(*self),
    {
        let mut r: Vec<Entry> = Vec::new();
        r.push(u32_entry("seed", self.seed));
        r.push(text_entry("temperature", &self.temperature));
        r.push(i32_entry("top_k", self.top_k));
        r.push(text_entry("top_p", &self.top_p));
        r.push(text_entry("min_p", &self.min_p));
        r.push(bool_entry("do_sample", self.do_sample));
        r.push(i32_entry("num_beams", self.num_beams));
        r.push(text_entry("sampler", &self.sampler));
        r.push(i32_entry("max_tokens", self.max_tokens));
        r.push(i32_entry("max_new_tokens", self.max_new_tokens));
        r.push(text_entry("repetition_penalty", &self.repetition_penalty));
        r.push(text_entry("length_penalty", &self.length_penalty));
        r.push(text_entry("guidance_scale", &self.guidance_scale));
        r.push(i32_entry("num_inference_steps", self.num_inference_steps));
        r.push(text_entry("negative_prompt", &self.negative_prompt));
        r.push(text_entry("duration_sec", &self.duration_sec));
        r.push(text_entry("duration_scale", &self.duration_scale));
        r.push(text_entry("spatio_temporal_guidance_scale", &self.spatio_temporal_guidance_scale));
        r.push(text_entry("guidance_rescale", &self.guidance_rescale));
        r.push(text_entry("language", &self.language));
        r.push(text_entry("reference_text", &self.reference_text));
        r.push(text_entry("reference_language", &self.reference_language));
        r.push(text_entry("reference_duration_sec", &self.reference_duration_sec));
        r.push(text_chunk_entry("text_chunk_mode", self.text_chunk_mode));
        r.push(i32_entry("text_chunk_size", self.text_chunk_size));
        r.push(audio_chunk_entry("audio_chunk_mode", self.audio_chunk_mode));
        r.push(text_entry("audio_chunk_duration_sec", &self.audio_chunk_duration_sec));
        r.push(text_entry("audio_chunk_threshold_sec", &self.audio_chunk_threshold_sec));
        r.push(text_entry("cross_fade_duration_sec", &self.cross_fade_duration_sec));
        r.push(bool_entry("return_timestamps", self.return_timestamps));
        r.push(text_entry("target_voice", &self.target_voice));
        r.push(text_entry("source_audio", &self.source_audio));
        r.push(text_entry("lyrics", &self.lyrics));
        r.push(text_entry("route", &self.route));
        assert(r@.map_values(|e: Entry| entry_view(e)) =~= common_entries(*self));
        r
    }

    /// The string map sent to the runtime: one entry per set field, shared
    /// fields first, then the family's extras.
    pub fn encode(&self) -> (m: StringMap)
        ensures
            m@ == encoded_options(*self),
    {
        let mut entries = self.common_entries();
        match &self.family {
            Some(f) => {
                let mut extra = f.entries();
                entries.append(&mut extra);
            },
            None => {},
        }
        assert(entries@.map_values(|e: Entry| entry_view(e)) =~= option_entries(*self));
        let mut m = StringMap::new();
        apply_entries(&mut m, &entries);
        assert(m@ =~= encoded_options(*self));
        m
    }
}

impl Default for TaskOptions {
    /// Options with every field unset.
    fn default() -> (o: TaskOptions)
        ensures
            o == unset_options(),
    {
        TaskOptions::new()
    }
}

/// Per-family request extras that are not in [`TaskOptions`].
#[derive(Debug, Clone, PartialEq)]
#[non_exhaustive]
pub enum FamilyOptions {
    /// [`VoxCpm2Options`] extras.
    VoxCpm2(VoxCpm2Options),
    /// [`Qwen3TtsOptions`] extras.
    Qwen3Tts(Qwen3TtsOptions),
    /// [`SileroVadOptions`] extras.
    SileroVad(SileroVadOptions),
    /// [`DramaBoxOptions`] extras.
    DramaBox(DramaBoxOptions),
    /// [`ChatterboxOptions`] extras.
    Chatterbox(ChatterboxOptions),
    /// [`PocketTtsOptions`] extras.
    PocketTts(PocketTtsOptions),
    /// [`NemotronAsrOptions`] extras.
    NemotronAsr(NemotronAsrOptions),
    /// [`IndexTts2Options`] extras.
    IndexTts2(IndexTts2Options),
    /// [`AceStepOptions`] extras.
    AceStep(Box<AceStepOptions>),
    /// [`OmnivoiceOptions`] extras.
    Omnivoice(OmnivoiceOptions),
    /// [`StableAudioOptions`] extras.
    StableAudio(StableAudioOptions),
}

impl FamilyOptions {
    /// The candidate entries of the family's extra fields.
    fn entries(&self) -> (r: Vec<Entry>)
        ensures
            r@.map_values(|e: Entry| entry_view(e)) == family_entries(*self),
    {
        match self {
            FamilyOptions::VoxCpm2(x) => x.entries(),
            FamilyOptions::Qwen3Tts(x) => x.entries(),
            FamilyOptions::SileroVad(x) => x.entries(),
            FamilyOptions::DramaBox(x) => x.entries(),
            FamilyOptions::Chatterbox(x) => x.entries(),
            FamilyOptions::PocketTts(x) => x.entries(),
            FamilyOptions::NemotronAsr(x) => x.entries(),
            FamilyOptions::IndexTts2(x) => x.entries(),
            FamilyOptions::AceStep(x) => x.entries(),
            FamilyOptions::Omnivoice(x) => x.entries(),
            FamilyOptions::StableAudio(x) => x.entries(),
        }
    }
}

/// `VoxCPM2` generation options.
#[derive(Debug, Clone, PartialEq, Default)]
pub struct VoxCpm2Options {
    /// RNG seed.
    pub seed: Option<u32>,
    /// Maximum generated tokens.
    pub max_tokens: Option<i32>,
    /// Classifier-free guidance scale, as the decimal text that `f32`'s `Display` writes.
    pub guidance_scale: Option<String>,
    /// Flow-matching steps.
    pub num_inference_steps: Option<i32>,
    /// Long-form text chunker.
    pub text_chunk_mode: Option<TextChunkMode>,
    /// Long-form text chunk budget.
    pub text_chunk_size: Option<i32>,
    /// Minimum generated tokens.
    pub min_tokens: Option<i32>,
    /// Retry failed utterances.
    pub retry_badcase: Option<bool>,
    /// Maximum retry attempts.
    pub retry_badcase_max_times: Option<i32>,
    /// Retry quality threshold, as the decimal text that `f32`'s `Display` writes.
    pub retry_badcase_ratio_threshold: Option<String>,
    /// Optional CFM noise file, as path text.
    pub cfm_noise_file: Option<String>,
    /// Style or prompt-text override.
    pub prompt_text: Option<String>,
}

/// The candidate entries of the extra fields of [`VoxCpm2Options`].
pub open spec fn vox_cpm2_options_entries(x: VoxCpm2Options) -> Seq<(Seq<char>, Option<Seq<char>>)> {
    seq![
        ("min_tokens"@, i32_value(x.min_tokens)),
        ("retry_badcase"@, bool_value(x.retry_badcase)),
        ("retry_badcase_max_times"@, i32_value(x.retry_badcase_max_times)),
        ("retry_badcase_ratio_threshold"@, text_value(x.retry_badcase_ratio_threshold)),
        ("cfm_noise_file"@, text_value(x.cfm_noise_file)),
        ("prompt_text"@, text_value(x.prompt_text)),
    ]
}

impl VoxCpm2Options {
    /// The candidate entries of the extra fields.
    fn entries(&self) -> (r: Vec<Entry>)
        ensures
            r@.map_values(|e: Entry| entry_view(e)) == vox_cpm2_options_entries(*self),
    {
        let mut r: Vec<Entry> = Vec::new();
        r.push(i32_entry("min_tokens", self.min_tokens));
        r.push(bool_entry("retry_badcase", self.retry_badcase));
        r.push(i32_entry("retry_badcase_max_times", self.retry_badcase_max_times));
        r.push(text_entry("retry_badcase_ratio_threshold", &self.retry_badcase_ratio_threshold));
        r.push(text_entry("cfm_noise_file", &self.cfm_noise_file));
        r.push(text_entry("prompt_text", &self.prompt_text));
        assert(r@.map_values(|e: Entry| entry_view(e)) =~= vox_cpm2_options_entries(*self));
        r
    }
}

/// The options that [`VoxCpm2Options`] converts into: its shared fields, with the
/// whole value kept as the family extras.
pub open spec fn options_from_vox_cpm2_options(value: VoxCpm2Options) -> TaskOptions {
    TaskOptions {
        seed: value.seed,
        temperature: None,
        top_k: None,
        top_p: None,
        min_p: None,
        do_sample: None,
        num_beams: None,
        sampler: None,
        max_tokens: value.max_tokens,
        max_new_tokens: None,
        repetition_penalty: None,
        length_penalty: None,
        guidance_scale: value.guidance_scale,
        num_inference_steps: value.num_inference_steps,
        negative_prompt: None,
        duration_sec: None,
        duration_scale: None,
        spatio_temporal_guidance_scale: None,
        guidance_rescale: None,
        language: None,
        reference_text: None,
        reference_language: None,
        reference_duration_sec: None,
        text_chunk_mode: value.text_chunk_mode,
        text_chunk_size: value.text_chunk_size,
        audio_chunk_mode: None,
        audio_chunk_duration_sec: None,
        audio_chunk_threshold_sec: None,
        cross_fade_duration_sec: None,
        return_timestamps: None,
        target_voice: None,
        source_audio: None,
        lyrics: None,
        route: None,
        family: Some(FamilyOptions::VoxCpm2(value)),
    }
}

impl vstd::std_specs::convert::FromSpecImpl<VoxCpm2Options> for TaskOptions {
    open spec fn obeys_from_spec() -> bool {
        true
    }

    open spec fn from_spec(value: VoxCpm2Options) -> TaskOptions {
        options_from_vox_cpm2_options(value)
    }
}

impl From<VoxCpm2Options> for TaskOptions {
    fn from(value: VoxCpm2Options) -> (o: TaskOptions) {
        let seed = value.seed;
        let max_tokens = value.max_tokens;
        let guidance_scale = copy_text(&value.guidance_scale);
        let num_inference_steps = value.num_inference_steps;
        let text_chunk_mode = value.text_chunk_mode;
        let text_chunk_size = value.text_chunk_size;
        TaskOptions {
            seed,
            temperature: None,
            top_k: None,
            top_p: None,
            min_p: None,
            do_sample: None,
            num_beams: None,
            sampler: None,
            max_tokens,
            max_new_tokens: None,
            repetition_penalty: None,
            length_penalty: None,
            guidance_scale,
            num_inference_steps,
            negative_prompt: None,
            duration_sec: None,
            duration_scale: None,
            spatio_temporal_guidance_scale: None,
            guidance_rescale: None,
            language: None,
            reference_text: None,
            reference_language: None,
            reference_duration_sec: None,
            text_chunk_mode,
            text_chunk_size,
            audio_chunk_mode: None,
            audio_chunk_duration_sec: None,
            audio_chunk_threshold_sec: None,
            cross_fade_duration_sec: None,
            return_timestamps: None,
            target_voice: None,
            source_audio: None,
            lyrics: None,
            route: None,
            family: Some(FamilyOptions::VoxCpm2(value)),
        }
    }
}

/// `Qwen3-TTS` generation options.
#[derive(Debug, Clone, PartialEq, Default)]
pub struct Qwen3TtsOptions {
    /// RNG seed.
    pub seed: Option<u32>,
    /// Maximum generated tokens.
    pub max_tokens: Option<i32>,
    /// Enable stochastic sampling.
    pub do_sample: Option<bool>,
    /// Sampler temperature, as the decimal text that `f32`'s `Display` writes.
    pub temperature: Option<String>,
    /// Top-k sampling cutoff.
    pub top_k: Option<i32>,
    /// Nucleus sampling cutoff, as the decimal text that `f32`'s `Display` writes.
    pub top_p: Option<String>,
    /// Repetition penalty, as the decimal text that `f32`'s `Display` writes.
    pub repetition_penalty: Option<String>,
    /// Clone-reference transcript.
    pub reference_text: Option<String>,
    /// Subtalker stochastic sampling.
    pub subtalker_do_sample: Option<bool>,
    /// Subtalker temperature, as the decimal text that `f32`'s `Display` writes.
    pub subtalker_temperature: Option<String>,
    /// Subtalker top-k cutoff.
    pub subtalker_top_k: Option<i32>,
    /// Subtalker nucleus cutoff, as the decimal text that `f32`'s `Display` writes.
    pub subtalker_top_p: Option<String>,
    /// Voice-design instruction.
    pub instruct: Option<String>,
    /// Custom-voice speaker name.
    pub speaker: Option<String>,
    /// Use speaker embedding only.
    pub x_vector_only_mode: Option<bool>,
}

/// The candidate entries of the extra fields of [`Qwen3TtsOptions`].
pub open spec fn qwen3_tts_options_entries(x: Qwen3TtsOptions) -> Seq<(Seq<char>, Option<Seq<char>>)> {
    seq![
        ("subtalker_do_sample"@, bool_value(x.subtalker_do_sample)),
        ("subtalker_temperature"@, text_value(x.subtalker_temperature)),
        ("subtalker_top_k"@, i32_value(x.subtalker_top_k)),
        ("subtalker_top_p"@, text_value(x.subtalker_top_p)),
        ("instruct"@, text_value(x.instruct)),
        ("speaker"@, text_value(x.speaker)),
        ("x_vector_only_mode"@, bool_value(x.x_vector_only_mode)),
    ]
}

impl Qwen3TtsOptions {
    /// The candidate entries of the extra fields.
    fn entries(&self) -> (r: Vec<Entry>)
        ensures
            r@.map_values(|e: Entry| entry_view(e)) == qwen3_tts_options_entries(*self),
    {
        let mut r: Vec<Entry> = Vec::new();
        r.push(bool_entry("subtalker_do_sample", self.subtalker_do_sample));
        r.push(text_entry("subtalker_temperature", &self.subtalker_temperature));
        r.push(i32_entry("subtalker_top_k", self.subtalker_top_k));
        r.push(text_entry("subtalker_top_p", &self.subtalker_top_p));
        r.push(text_entry("instruct", &self.instruct));
        r.push(text_entry("speaker", &self.speaker));
        r.push(bool_entry("x_vector_only_mode", self.x_vector_only_mode));
        assert(r@.map_values(|e: Entry| entry_view(e)) =~= qwen3_tts_options_entries(*self));
        r
    }
}

/// The options that [`Qwen3TtsOptions`] converts into: its shared fields, with the
/// whole value kept as the family extras.
pub open spec fn options_from_qwen3_tts_options(value: Qwen3TtsOptions) -> TaskOptions {
    TaskOptions {
        seed: value.seed,
        temperature: value.temperature,
        top_k: value.top_k,
        top_p: value.top_p,
        min_p: None,
        do_sample: value.do_sample,
        num_beams: None,
        sampler: None,
        max_tokens: value.max_tokens,
        max_new_tokens: None,
        repetition_penalty: value.repetition_penalty,
        length_penalty: None,
        guidance_scale: None,
        num_inference_steps: None,
        negative_prompt: None,
        duration_sec: None,
        duration_scale: None,
        spatio_temporal_guidance_scale: None,
        guidance_rescale: None,
        language: None,
        reference_text: value.reference_text,
        reference_language: None,
        reference_duration_sec: None,
        text_chunk_mode: None,
        text_chunk_size: None,
        audio_chunk_mode: None,
        audio_chunk_duration_sec: None,
        audio_chunk_threshold_sec: None,
        cross_fade_duration_sec: None,
        return_timestamps: None,
        target_voice: None,
        source_audio: None,
        lyrics: None,
        route: None,
        family: Some(FamilyOptions::Qwen3Tts(value)),
    }
}

impl vstd::std_specs::convert::FromSpecImpl<Qwen3TtsOptions> for TaskOptions {
    open spec fn obeys_from_spec() -> bool {
        true
    }

    open spec fn from_spec(value: Qwen3TtsOptions) -> TaskOptions {
        options_from_qwen3_tts_options(value)
    }
}

impl From<Qwen3TtsOptions> for TaskOptions {
    fn from(value: Qwen3TtsOptions) -> (o: TaskOptions) {
        let seed = value.seed;
        let max_tokens = value.max_tokens;
        let do_sample = value.do_sample;
        let temperature = copy_text(&value.temperature);
        let top_k = value.top_k;
        let top_p = copy_text(&value.top_p);
        let repetition_penalty = copy_text(&value.repetition_penalty);
        let reference_text = copy_text(&value.reference_text);
        TaskOptions {
            seed,
            temperature,
            top_k,
            top_p,
            min_p: None,
            do_sample,
            num_beams: None,
            sampler: None,
            max_tokens,
            max_new_tokens: None,
            repetition_penalty,
            length_penalty: None,
            guidance_scale: None,
            num_inference_steps: None,
            negative_prompt: None,
            duration_sec: None,
            duration_scale: None,
            spatio_temporal_guidance_scale: None,
            guidance_rescale: None,
            language: None,
            reference_text,
            reference_language: None,
            reference_duration_sec: None,
            text_chunk_mode: None,
            text_chunk_size: None,
            audio_chunk_mode: None,
            audio_chunk_duration_sec: None,
            audio_chunk_threshold_sec: None,
            cross_fade_duration_sec: None,
            return_timestamps: None,
            target_voice: None,
            source_audio: None,
            lyrics: None,
            route: None,
            family: Some(FamilyOptions::Qwen3Tts(value)),
        }
    }
}

/// Silero voice-activity options.
#[derive(Debug, Clone, PartialEq, Default)]
pub struct SileroVadOptions {
    /// Speech-probability threshold, as the decimal text that `f32`'s `Display` writes.
    pub threshold: Option<String>,
    /// Minimum speech span in milliseconds.
    pub min_speech_duration_ms: Option<i32>,
    /// Minimum silence span in milliseconds.
    pub min_silence_duration_ms: Option<i32>,
    /// Padding added around speech in milliseconds.
    pub speech_pad_ms: Option<i32>,
    /// Maximum speech span in seconds, as the decimal text that `f32`'s `Display` writes.
    pub max_speech_duration_s: Option<String>,
    /// Negative-threshold used after speech starts, as the decimal text that `f32`'s `Display` writes.
    pub neg_threshold: Option<String>,
    /// Silence required when the max-speech cap is hit.
    pub min_silence_at_max_speech_ms: Option<i32>,
    /// Use the longest possible silence at the max-speech cap.
    pub use_max_poss_sil_at_max_speech: Option<bool>,
}

/// The candidate entries of the extra fields of [`SileroVadOptions`].
pub open spec fn silero_vad_options_entries(x: SileroVadOptions) -> Seq<(Seq<char>, Option<Seq<char>>)> {
    seq![
        ("threshold"@, text_value(x.threshold)),
        ("min_speech_duration_ms"@, i32_value(x.min_speech_duration_ms)),
        ("min_silence_duration_ms"@, i32_value(x.min_silence_duration_ms)),
        ("speech_pad_ms"@, i32_value(x.speech_pad_ms)),
        ("max_speech_duration_s"@, text_value(x.max_speech_duration_s)),
        ("neg_threshold"@, text_value(x.neg_threshold)),
        ("min_silence_at_max_speech_ms"@, i32_value(x.min_silence_at_max_speech_ms)),
        ("use_max_poss_sil_at_max_speech"@, bool_value(x.use_max_poss_sil_at_max_speech)),
    ]
}

impl SileroVadOptions {
    /// The candidate entries of the extra fields.
    fn entries(&self) -> (r: Vec<Entry>)
        ensures
            r@.map_values(|e: Entry| entry_view(e)) == silero_vad_options_entries(*self),
    {
        let mut r: Vec<Entry> = Vec::new();
        r.push(text_entry("threshold", &self.threshold));
        r.push(i32_entry("min_speech_duration_ms", self.min_speech_duration_ms));
        r.push(i32_entry("min_silence_duration_ms", self.min_silence_duration_ms));
        r.push(i32_entry("speech_pad_ms", self.speech_pad_ms));
        r.push(text_entry("max_speech_duration_s", &self.max_speech_duration_s));
        r.push(text_entry("neg_threshold", &self.neg_threshold));
        r.push(i32_entry("min_silence_at_max_speech_ms", self.min_silence_at_max_speech_ms));
        r.push(bool_entry("use_max_poss_sil_at_max_speech", self.use_max_poss_sil_at_max_speech));
        assert(r@.map_values(|e: Entry| entry_view(e)) =~= silero_vad_options_entries(*self));
        r
    }
}

/// The options that [`SileroVadOptions`] converts into: its shared fields, with the
/// whole value kept as the family extras.
pub open spec fn options_from_silero_vad_options(value: SileroVadOptions) -> TaskOptions {
    TaskOptions {
        seed: None,
        temperature: None,
        top_k: None,
        top_p: None,
        min_p: None,
        do_sample: None,
        num_beams: None,
        sampler: None,
        max_tokens: None,
        max_new_tokens: None,
        repetition_penalty: None,
        length_penalty: None,
        guidance_scale: None,
        num_inference_steps: None,
        negative_prompt: None,
        duration_sec: None,
        duration_scale: None,
        spatio_temporal_guidance_scale: None,
        guidance_rescale: None,
        language: None,
        reference_text: None,
        reference_language: None,
        reference_duration_sec: None,
        text_chunk_mode: None,
        text_chunk_size: None,
        audio_chunk_mode: None,
        audio_chunk_duration_sec: None,
        audio_chunk_threshold_sec: None,
        cross_fade_duration_sec: None,
        return_timestamps: None,
        target_voice: None,
        source_audio: None,
        lyrics: None,
        route: None,
        family: Some(FamilyOptions::SileroVad(value)),
    }
}

impl vstd::std_specs::convert::FromSpecImpl<SileroVadOptions> for TaskOptions {
    open spec fn obeys_from_spec() -> bool {
        true
    }

    open spec fn from_spec(value: SileroVadOptions) -> TaskOptions {
        options_from_silero_vad_options(value)
    }
}

impl From<SileroVadOptions> for TaskOptions {
    fn from(value: SileroVadOptions) -> (o: TaskOptions) {
        TaskOptions {
            seed: None,
            temperature: None,
            top_k: None,
            top_p: None,
            min_p: None,
            do_sample: None,
            num_beams: None,
            sampler: None,
            max_tokens: None,
            max_new_tokens: None,
            repetition_penalty: None,
            length_penalty: None,
            guidance_scale: None,
            num_inference_steps: None,
            negative_prompt: None,
            duration_sec: None,
            duration_scale: None,
            spatio_temporal_guidance_scale: None,
            guidance_rescale: None,
            language: None,
            reference_text: None,
            reference_language: None,
            reference_duration_sec: None,
            text_chunk_mode: None,
            text_chunk_size: None,
            audio_chunk_mode: None,
            audio_chunk_duration_sec: None,
            audio_chunk_threshold_sec: None,
            cross_fade_duration_sec: None,
            return_timestamps: None,
            target_voice: None,
            source_audio: None,
            lyrics: None,
            route: None,
            family: Some(FamilyOptions::SileroVad(value)),
        }
    }
}

/// `DramaBox` generation options.
#[derive(Debug, Clone, PartialEq, Default)]
pub struct DramaBoxOptions {
    /// RNG seed.
    pub seed: Option<u32>,
    /// Diffusion steps.
    pub num_inference_steps: Option<i32>,
    /// Classifier-free guidance scale, as the decimal text that `f32`'s `Display` writes.
    pub guidance_scale: Option<String>,
    /// Spatio-temporal guidance scale, as the decimal text that `f32`'s `Display` writes.
    pub spatio_temporal_guidance_scale: Option<String>,
    /// Duration multiplier, as the decimal text that `f32`'s `Display` writes.
    pub duration_scale: Option<String>,
    /// Target duration in seconds, as the decimal text that `f32`'s `Display` writes.
    pub duration_sec: Option<String>,
    /// Clone-reference crop length in seconds, as the decimal text that `f32`'s `Display` writes.
    pub reference_duration_sec: Option<String>,
    /// Long-form audio chunking threshold in seconds, as the decimal text that `f32`'s `Display` writes.
    pub audio_chunk_threshold_sec: Option<String>,
    /// Audio chunk length in seconds, as the decimal text that `f32`'s `Display` writes.
    pub audio_chunk_duration_sec: Option<String>,
    /// Cross-fade between audio chunks in seconds, as the decimal text that `f32`'s `Display` writes.
    pub cross_fade_duration_sec: Option<String>,
    /// Negative prompt text.
    pub negative_prompt: Option<String>,
    /// Guidance rescale, such as `auto`.
    pub guidance_rescale: Option<String>,
    /// Clone or target-voice audio path, as path text.
    pub target_voice: Option<String>,
}

/// The candidate entries of the extra fields of [`DramaBoxOptions`].
pub open spec fn drama_box_options_entries(x: DramaBoxOptions) -> Seq<(Seq<char>, Option<Seq<char>>)> {
    Seq::empty()
}

impl DramaBoxOptions {
    /// The candidate entries of the extra fields.
    fn entries(&self) -> (r: Vec<Entry>)
        ensures
            r@.map_values(|e: Entry| entry_view(e)) == drama_box_options_entries(*self),
    {
        let r: Vec<Entry> = Vec::new();
        assert(r@.map_values(|e: Entry| entry_view(e)) =~= drama_box_options_entries(*self));
        r
    }
}

/// The options that [`DramaBoxOptions`] converts into: its shared fields, with the
/// whole value kept as the family extras.
pub open spec fn options_from_drama_box_options(value: DramaBoxOptions) -> TaskOptions {
    TaskOptions {
        seed: value.seed,
        temperature: None,
        top_k: None,
        top_p: None,
        min_p: None,
        do_sample: None,
        num_beams: None,
        sampler: None,
        max_tokens: None,
        max_new_tokens: None,
        repetition_penalty: None,
        length_penalty: None,
        guidance_scale: value.guidance_scale,
        num_inference_steps: value.num_inference_steps,
        negative_prompt: value.negative_prompt,
        duration_sec: value.duration_sec,
        duration_scale: value.duration_scale,
        spatio_temporal_guidance_scale: value.spatio_temporal_guidance_scale,
        guidance_rescale: value.guidance_rescale,
        language: None,
        reference_text: None,
        reference_language: None,
        reference_duration_sec: value.reference_duration_sec,
        text_chunk_mode: None,
        text_chunk_size: None,
        audio_chunk_mode: None,
        audio_chunk_duration_sec: value.audio_chunk_duration_sec,
        audio_chunk_threshold_sec: value.audio_chunk_threshold_sec,
        cross_fade_duration_sec: value.cross_fade_duration_sec,
        return_timestamps: None,
        target_voice: value.target_voice,
        source_audio: None,
        lyrics: None,
        route: None,
        family: Some(FamilyOptions::DramaBox(value)),
    }
}

impl vstd::std_specs::convert::FromSpecImpl<DramaBoxOptions> for TaskOptions {
    open spec fn obeys_from_spec() -> bool {
        true
    }

    open spec fn from_spec(value: DramaBoxOptions) -> TaskOptions {
        options_from_drama_box_options(value)
    }
}

impl From<DramaBoxOptions> for TaskOptions {
    fn from(value: DramaBoxOptions) -> (o: TaskOptions) {
        let seed = value.seed;
        let num_inference_steps = value.num_inference_steps;
        let guidance_scale = copy_text(&value.guidance_scale);
        let spatio_temporal_guidance_scale = copy_text(&value.spatio_temporal_guidance_scale);
        let duration_scale = copy_text(&value.duration_scale);
        let duration_sec = copy_text(&value.duration_sec);
        let reference_duration_sec = copy_text(&value.reference_duration_sec);
        let audio_chunk_threshold_sec = copy_text(&value.audio_chunk_threshold_sec);
        let audio_chunk_duration_sec = copy_text(&value.audio_chunk_duration_sec);
        let cross_fade_duration_sec = copy_text(&value.cross_fade_duration_sec);
        let negative_prompt = copy_text(&value.negative_prompt);
        let guidance_rescale = copy_text(&value.guidance_rescale);
        let target_voice = copy_text(&value.target_voice);
        TaskOptions {
            seed,
            temperature: None,
            top_k: None,
            top_p: None,
            min_p: None,
            do_sample: None,
            num_beams: None,
            sampler: None,
            max_tokens: None,
            max_new_tokens: None,
            repetition_penalty: None,
            length_penalty: None,
            guidance_scale,
            num_inference_steps,
            negative_prompt,
            duration_sec,
            duration_scale,
            spatio_temporal_guidance_scale,
            guidance_rescale,
            language: None,
            reference_text: None,
            reference_language: None,
            reference_duration_sec,
            text_chunk_mode: None,
            text_chunk_size: None,
            audio_chunk_mode: None,
            audio_chunk_duration_sec,
            audio_chunk_threshold_sec,
            cross_fade_duration_sec,
            return_timestamps: None,
            target_voice,
            source_audio: None,
            lyrics: None,
            route: None,
            family: Some(FamilyOptions::DramaBox(value)),
        }
    }
}

/// Chatterbox generation options.
#[derive(Debug, Clone, PartialEq, Default)]
pub struct ChatterboxOptions {
    /// RNG seed.
    pub seed: Option<u32>,
    /// Sampler temperature, as the decimal text that `f32`'s `Display` writes.
    pub temperature: Option<String>,
    /// Nucleus sampling cutoff, as the decimal text that `f32`'s `Display` writes.
    pub top_p: Option<String>,
    /// Min-p sampling cutoff, as the decimal text that `f32`'s `Display` writes.
    pub min_p: Option<String>,
    /// Enable stochastic sampling.
    pub do_sample: Option<bool>,
    /// Maximum generated tokens.
    pub max_tokens: Option<i32>,
    /// Repetition penalty, as the decimal text that `f32`'s `Display` writes.
    pub repetition_penalty: Option<String>,
    /// Classifier-free guidance scale, as the decimal text that `f32`'s `Display` writes.
    pub guidance_scale: Option<String>,
    /// Clone or target-voice audio path, as path text.
    pub target_voice: Option<String>,
    /// Voice-conversion source audio path, as path text.
    pub source_audio: Option<String>,
    /// Expressiveness exaggeration, as the decimal text that `f32`'s `Display` writes.
    pub exaggeration: Option<String>,
    /// `S3Gen` classifier-free guidance rate, as the decimal text that `f32`'s `Display` writes.
    pub s3gen_cfg_rate: Option<String>,
    /// Stop decoding on EOS.
    pub stop_on_eos: Option<bool>,
    /// Force greedy decoding.
    pub greedy: Option<bool>,
}

/// The candidate entries of the extra fields of [`ChatterboxOptions`].
pub open spec fn chatterbox_options_entries(x: ChatterboxOptions) -> Seq<(Seq<char>, Option<Seq<char>>)> {
    seq![
        ("exaggeration"@, text_value(x.exaggeration)),
        ("s3gen_cfg_rate"@, text_value(x.s3gen_cfg_rate)),
        ("stop_on_eos"@, bool_value(x.stop_on_eos)),
        ("greedy"@, bool_value(x.greedy)),
    ]
}

impl ChatterboxOptions {
    /// The candidate entries of the extra fields.
    fn entries(&self) -> (r: Vec<Entry>)
        ensures
            r@.map_values(|e: Entry| entry_view(e)) == chatterbox_options_entries(*self),
    {
        let mut r: Vec<Entry> = Vec::new();
        r.push(text_entry("exaggeration", &self.exaggeration));
        r.push(text_entry("s3gen_cfg_rate", &self.s3gen_cfg_rate));
        r.push(bool_entry("stop_on_eos", self.stop_on_eos));
        r.push(bool_entry("greedy", self.greedy));
        assert(r@.map_values(|e: Entry| entry_view(e)) =~= chatterbox_options_entries(*self));
        r
    }
}

/// The options that [`ChatterboxOptions`] converts into: its shared fields, with the
/// whole value kept as the family extras.
pub open spec fn options_from_chatterbox_options(value: ChatterboxOptions) -> TaskOptions {
    TaskOptions {
        seed: value.seed,
        temperature: value.temperature,
        top_k: None,
        top_p: value.top_p,
        min_p: value.min_p,
        do_sample: value.do_sample,
        num_beams: None,
        sampler: None,
        max_tokens: value.max_tokens,
        max_new_tokens: None,
        repetition_penalty: value.repetition_penalty,
        length_penalty: None,
        guidance_scale: value.guidance_scale,
        num_inference_steps: None,
        negative_prompt: None,
        duration_sec: None,
        duration_scale: None,
        spatio_temporal_guidance_scale: None,
        guidance_rescale: None,
        language: None,
        reference_text: None,
        reference_language: None,
        reference_duration_sec: None,
        text_chunk_mode: None,
        text_chunk_size: None,
        audio_chunk_mode: None,
        audio_chunk_duration_sec: None,
        audio_chunk_threshold_sec: None,
        cross_fade_duration_sec: None,
        return_timestamps: None,
        target_voice: value.target_voice,
        source_audio: value.source_audio,
        lyrics: None,
        route: None,
        family: Some(FamilyOptions::Chatterbox(value)),
    }
}

impl vstd::std_specs::convert::FromSpecImpl<ChatterboxOptions> for TaskOptions {
    open spec fn obeys_from_spec() -> bool {
        true
    }

    open spec fn from_spec(value: ChatterboxOptions) -> TaskOptions {
        options_from_chatterbox_options(value)
    }
}

impl From<ChatterboxOptions> for TaskOptions {
    fn from(value: ChatterboxOptions) -> (o: TaskOptions) {
        let seed = value.seed;
        let temperature = copy_text(&value.temperature);
        let top_p = copy_text(&value.top_p);
        let min_p = copy_text(&value.min_p);
        let do_sample = value.do_sample;
        let max_tokens = value.max_tokens;
        let repetition_penalty = copy_text(&value.repetition_penalty);
        let guidance_scale = copy_text(&value.guidance_scale);
        let target_voice = copy_text(&value.target_voice);
        let source_audio = copy_text(&value.source_audio);
        TaskOptions {
            seed,
            temperature,
            top_k: None,
            top_p,
            min_p,
            do_sample,
            num_beams: None,
            sampler: None,
            max_tokens,
            max_new_tokens: None,
            repetition_penalty,
            length_penalty: None,
            guidance_scale,
            num_inference_steps: None,
            negative_prompt: None,
            duration_sec: None,
            duration_scale: None,
            spatio_temporal_guidance_scale: None,
            guidance_rescale: None,
            language: None,
            reference_text: None,
            reference_language: None,
            reference_duration_sec: None,
            text_chunk_mode: None,
            text_chunk_size: None,
            audio_chunk_mode: None,
            audio_chunk_duration_sec: None,
            audio_chunk_threshold_sec: None,
            cross_fade_duration_sec: None,
            return_timestamps: None,
            target_voice,
            source_audio,
            lyrics: None,
            route: None,
            family: Some(FamilyOptions::Chatterbox(value)),
        }
    }
}

/// Pocket TTS generation options.
#[derive(Debug, Clone, PartialEq, Default)]
pub struct PocketTtsOptions {
    /// RNG seed.
    pub seed: Option<u32>,
    /// Sampler temperature, as the decimal text that `f32`'s `Display` writes.
    pub temperature: Option<String>,
    /// Maximum generated tokens.
    pub max_tokens: Option<i32>,
    /// Language hint.
    pub language: Option<String>,
    /// Flow-matching steps.
    pub max_steps: Option<i32>,
    /// Noise clamp, as the decimal text that `f32`'s `Display` writes.
    pub noise_clamp: Option<String>,
    /// End-of-speech threshold, as the decimal text that `f32`'s `Display` writes.
    pub eos_threshold: Option<String>,
    /// Optional noise file, as path text.
    pub noise_file: Option<String>,
    /// Extra frames after EOS.
    pub frames_after_eos: Option<i32>,
    /// Precomputed voice-embedding path, as path text.
    pub voice_embedding_path: Option<String>,
    /// Clone-reference transcript.
    pub voice_clone_text: Option<String>,
    /// Truncate clone audio to the model window.
    pub truncate_clone_audio: Option<bool>,
}

/// The candidate entries of the extra fields of [`PocketTtsOptions`].
pub open spec fn pocket_tts_options_entries(x: PocketTtsOptions) -> Seq<(Seq<char>, Option<Seq<char>>)> {
    seq![
        ("max_steps"@, i32_value(x.max_steps)),
        ("noise_clamp"@, text_value(x.noise_clamp)),
        ("eos_threshold"@, text_value(x.eos_threshold)),
        ("noise_file"@, text_value(x.noise_file)),
        ("frames_after_eos"@, i32_value(x.frames_after_eos)),
        ("voice_embedding_path"@, text_value(x.voice_embedding_path)),
        ("voice_clone_text"@, text_value(x.voice_clone_text)),
        ("truncate_clone_audio"@, bool_value(x.truncate_clone_audio)),
    ]
}

impl PocketTtsOptions {
    /// The candidate entries of the extra fields.
    fn entries(&self) -> (r: Vec<Entry>)
        ensures
            r@.map_values(|e: Entry| entry_view(e)) == pocket_tts_options_entries(*self),
    {
        let mut r: Vec<Entry> = Vec::new();
        r.push(i32_entry("max_steps", self.max_steps));
        r.push(text_entry("noise_clamp", &self.noise_clamp));
        r.push(text_entry("eos_threshold", &self.eos_threshold));
        r.push(text_entry("noise_file", &self.noise_file));
        r.push(i32_entry("frames_after_eos", self.frames_after_eos));
        r.push(text_entry("voice_embedding_path", &self.voice_embedding_path));
        r.push(text_entry("voice_clone_text", &self.voice_clone_text));
        r.push(bool_entry("truncate_clone_audio", self.truncate_clone_audio));
        assert(r@.map_values(|e: Entry| entry_view(e)) =~= pocket_tts_options_entries(*self));
        r
    }
}

/// The options that [`PocketTtsOptions`] converts into: its shared fields, with the
/// whole value kept as the family extras.
pub open spec fn options_from_pocket_tts_options(value: PocketTtsOptions) -> TaskOptions {
    TaskOptions {
        seed: value.seed,
        temperature: value.temperature,
        top_k: None,
        top_p: None,
        min_p: None,
        do_sample: None,
        num_beams: None,
        sampler: None,
        max_tokens: value.max_tokens,
        max_new_tokens: None,
        repetition_penalty: None,
        length_penalty: None,
        guidance_scale: None,
        num_inference_steps: None,
        negative_prompt: None,
        duration_sec: None,
        duration_scale: None,
        spatio_temporal_guidance_scale: None,
        guidance_rescale: None,
        language: value.language,
        reference_text: None,
        reference_language: None,
        reference_duration_sec: None,
        text_chunk_mode: None,
        text_chunk_size: None,
        audio_chunk_mode: None,
        audio_chunk_duration_sec: None,
        audio_chunk_threshold_sec: None,
        cross_fade_duration_sec: None,
        return_timestamps: None,
        target_voice: None,
        source_audio: None,
        lyrics: None,
        route: None,
        family: Some(FamilyOptions::PocketTts(value)),
    }
}

impl vstd::std_specs::convert::FromSpecImpl<PocketTtsOptions> for TaskOptions {
    open spec fn obeys_from_spec() -> bool {
        true
    }

    open spec fn from_spec(value: PocketTtsOptions) -> TaskOptions {
        options_from_pocket_tts_options(value)
    }
}

impl From<PocketTtsOptions> for TaskOptions {
    fn from(value: PocketTtsOptions) -> (o: TaskOptions) {
        let seed = value.seed;
        let temperature = copy_text(&value.temperature);
        let max_tokens = value.max_tokens;
        let language = copy_text(&value.language);
        TaskOptions {
            seed,
            temperature,
            top_k: None,
            top_p: None,
            min_p: None,
            do_sample: None,
            num_beams: None,
            sampler: None,
            max_tokens,
            max_new_tokens: None,
            repetition_penalty: None,
            length_penalty: None,
            guidance_scale: None,
            num_inference_steps: None,
            negative_prompt: None,
            duration_sec: None,
            duration_scale: None,
            spatio_temporal_guidance_scale: None,
            guidance_rescale: None,
            language,
            reference_text: None,
            reference_language: None,
            reference_duration_sec: None,
            text_chunk_mode: None,
            text_chunk_size: None,
            audio_chunk_mode: None,
            audio_chunk_duration_sec: None,
            audio_chunk_threshold_sec: None,
            cross_fade_duration_sec: None,
            return_timestamps: None,
            target_voice: None,
            source_audio: None,
            lyrics: None,
            route: None,
            family: Some(FamilyOptions::PocketTts(value)),
        }
    }
}

/// Nemotron ASR options.
#[derive(Debug, Clone, PartialEq, Default)]
pub struct NemotronAsrOptions {
    /// Language hint.
    pub language: Option<String>,
    /// Maximum generated tokens.
    pub max_tokens: Option<i32>,
    /// Encoder lookahead tokens.
    pub lookahead_tokens: Option<i32>,
    /// Keep language tags in the transcript.
    pub keep_language_tags: Option<bool>,
    /// Force streaming decode on an offline session.
    pub streaming: Option<bool>,
}

/// The candidate entries of the extra fields of [`NemotronAsrOptions`].
pub open spec fn nemotron_asr_options_entries(x: NemotronAsrOptions) -> Seq<(Seq<char>, Option<Seq<char>>)> {
    seq![
        ("lookahead_tokens"@, i32_value(x.lookahead_tokens)),
        ("keep_language_tags"@, bool_value(x.keep_language_tags)),
        ("streaming"@, bool_value(x.streaming)),
    ]
}

impl NemotronAsrOptions {
    /// The candidate entries of the extra fields.
    fn entries(&self) -> (r: Vec<Entry>)
        ensures
            r@.map_values(|e: Entry| entry_view(e)) == nemotron_asr_options_entries(*self),
    {
        let mut r: Vec<Entry> = Vec::new();
        r.push(i32_entry("lookahead_tokens", self.lookahead_tokens));
        r.push(bool_entry("keep_language_tags", self.keep_language_tags));
        r.push(bool_entry("streaming", self.streaming));
        assert(r@.map_values(|e: Entry| entry_view(e)) =~= nemotron_asr_options_entries(*self));
        r
    }
}

/// The options that [`NemotronAsrOptions`] converts into: its shared fields, with the
/// whole value kept as the family extras.
pub open spec fn options_from_nemotron_asr_options(value: NemotronAsrOptions) -> TaskOptions {
    TaskOptions {
        seed: None,
        temperature: None,
        top_k: None,
        top_p: None,
        min_p: None,
        do_sample: None,
        num_beams: None,
        sampler: None,
        max_tokens: value.max_tokens,
        max_new_tokens: None,
        repetition_penalty: None,
        length_penalty: None,
        guidance_scale: None,
        num_inference_steps: None,
        negative_prompt: None,
        duration_sec: None,
        duration_scale: None,
        spatio_temporal_guidance_scale: None,
        guidance_rescale: None,
        language: value.language,
        reference_text: None,
        reference_language: None,
        reference_duration_sec: None,
        text_chunk_mode: None,
        text_chunk_size: None,
        audio_chunk_mode: None,
        audio_chunk_duration_sec: None,
        audio_chunk_threshold_sec: None,
        cross_fade_duration_sec: None,
        return_timestamps: None,
        target_voice: None,
        source_audio: None,
        lyrics: None,
        route: None,
        family: Some(FamilyOptions::NemotronAsr(value)),
    }
}

impl vstd::std_specs::convert::FromSpecImpl<NemotronAsrOptions> for TaskOptions {
    open spec fn obeys_from_spec() -> bool {
        true
    }

    open spec fn from_spec(value: NemotronAsrOptions) -> TaskOptions {
        options_from_nemotron_asr_options(value)
    }
}

impl From<NemotronAsrOptions> for TaskOptions {
    fn from(value: NemotronAsrOptions) -> (o: TaskOptions) {
        let language = copy_text(&value.language);
        let max_tokens = value.max_tokens;
        TaskOptions {
            seed: None,
            temperature: None,
            top_k: None,
            top_p: None,
            min_p: None,
            do_sample: None,
            num_beams: None,
            sampler: None,
            max_tokens,
            max_new_tokens: None,
            repetition_penalty: None,
            length_penalty: None,
            guidance_scale: None,
            num_inference_steps: None,
            negative_prompt: None,
            duration_sec: None,
            duration_scale: None,
            spatio_temporal_guidance_scale: None,
            guidance_rescale: None,
            language,
            reference_text: None,
            reference_language: None,
            reference_duration_sec: None,
            text_chunk_mode: None,
            text_chunk_size: None,
            audio_chunk_mode: None,
            audio_chunk_duration_sec: None,
            audio_chunk_threshold_sec: None,
            cross_fade_duration_sec: None,
            return_timestamps: None,
            target_voice: None,
            source_audio: None,
            lyrics: None,
            route: None,
            family: Some(FamilyOptions::NemotronAsr(value)),
        }
    }
}

/// `IndexTTS2` generation options.
#[derive(Debug, Clone, PartialEq, Default)]
pub struct IndexTts2Options {
    /// RNG seed.
    pub seed: Option<u32>,
    /// Enable stochastic sampling.
    pub do_sample: Option<bool>,
    /// Sampler temperature, as the decimal text that `f32`'s `Display` writes.
    pub temperature: Option<String>,
    /// Top-k sampling cutoff.
    pub top_k: Option<i32>,
    /// Nucleus sampling cutoff, as the decimal text that `f32`'s `Display` writes.
    pub top_p: Option<String>,
    /// Maximum generated tokens.
    pub max_tokens: Option<i32>,
    /// Beam-search width.
    pub num_beams: Option<i32>,
    /// Repetition penalty, as the decimal text that `f32`'s `Display` writes.
    pub repetition_penalty: Option<String>,
    /// Beam length penalty, as the decimal text that `f32`'s `Display` writes.
    pub length_penalty: Option<String>,
    /// Language hint.
    pub language: Option<String>,
    /// Duration multiplier, as the decimal text that `f32`'s `Display` writes.
    pub duration_factor: Option<String>,
    /// Emotion mix in `[0, 1]`, as the decimal text that `f32`'s `Display` writes.
    pub emotion_alpha: Option<String>,
    /// Explicit emotion vector.
    pub emotion_vector: Option<String>,
    /// Derive emotion from text.
    pub use_emotion_text: Option<bool>,
    /// Emotion-description text.
    pub emotion_text: Option<String>,
    /// Sample a random emotion.
    pub use_random_emotion: Option<bool>,
    /// Silence inserted between sentences, in milliseconds.
    pub interval_silence_ms: Option<i32>,
}

/// The candidate entries of the extra fields of [`IndexTts2Options`].
pub open spec fn index_tts2_options_entries(x: IndexTts2Options) -> Seq<(Seq<char>, Option<Seq<char>>)> {
    seq![
        ("duration_factor"@, text_value(x.duration_factor)),
        ("emotion_alpha"@, text_value(x.emotion_alpha)),
        ("emotion_vector"@, text_value(x.emotion_vector)),
        ("use_emotion_text"@, bool_value(x.use_emotion_text)),
        ("emotion_text"@, text_value(x.emotion_text)),
        ("use_random_emotion"@, bool_value(x.use_random_emotion)),
        ("interval_silence_ms"@, i32_value(x.interval_silence_ms)),
    ]
}

impl IndexTts2Options {
    /// The candidate entries of the extra fields.
    fn entries(&self) -> (r: Vec<Entry>)
        ensures
            r@.map_values(|e: Entry| entry_view(e)) == index_tts2_options_entries(*self),
    {
        let mut r: Vec<Entry> = Vec::new();
        r.push(text_entry("duration_factor", &self.duration_factor));
        r.push(text_entry("emotion_alpha", &self.emotion_alpha));
        r.push(text_entry("emotion_vector", &self.emotion_vector));
        r.push(bool_entry("use_emotion_text", self.use_emotion_text));
        r.push(text_entry("emotion_text", &self.emotion_text));
        r.push(bool_entry("use_random_emotion", self.use_random_emotion));
        r.push(i32_entry("interval_silence_ms", self.interval_silence_ms));
        assert(r@.map_values(|e: Entry| entry_view(e)) =~= index_tts2_options_entries(*self));
        r
    }
}

/// The options that [`IndexTts2Options`] converts into: its shared fields, with the
/// whole value kept as the family extras.
pub open spec fn options_from_index_tts2_options(value: IndexTts2Options) -> TaskOptions {
    TaskOptions {
        seed: value.seed,
        temperature: value.temperature,
        top_k: value.top_k,
        top_p: value.top_p,
        min_p: None,
        do_sample: value.do_sample,
        num_beams: value.num_beams,
        sampler: None,
        max_tokens: value.max_tokens,
        max_new_tokens: None,
        repetition_penalty: value.repetition_penalty,
        length_penalty: value.length_penalty,
        guidance_scale: None,
        num_inference_steps: None,
        negative_prompt: None,
        duration_sec: None,
        duration_scale: None,
        spatio_temporal_guidance_scale: None,
        guidance_rescale: None,
        language: value.language,
        reference_text: None,
        reference_language: None,
        reference_duration_sec: None,
        text_chunk_mode: None,
        text_chunk_size: None,
        audio_chunk_mode: None,
        audio_chunk_duration_sec: None,
        audio_chunk_threshold_sec: None,
        cross_fade_duration_sec: None,
        return_timestamps: None,
        target_voice: None,
        source_audio: None,
        lyrics: None,
        route: None,
        family: Some(FamilyOptions::IndexTts2(value)),
    }
}

impl vstd::std_specs::convert::FromSpecImpl<IndexTts2Options> for TaskOptions {
    open spec fn obeys_from_spec() -> bool {
        true
    }

    open spec fn from_spec(value: IndexTts2Options) -> TaskOptions {
        options_from_index_tts2_options(value)
    }
}

impl From<IndexTts2Options> for TaskOptions {
    fn from(value: IndexTts2Options) -> (o: TaskOptions) {
        let seed = value.seed;
        let do_sample = value.do_sample;
        let temperature = copy_text(&value.temperature);
        let top_k = value.top_k;
        let top_p = copy_text(&value.top_p);
        let max_tokens = value.max_tokens;
        let num_beams = value.num_beams;
        let repetition_penalty = copy_text(&value.repetition_penalty);
        let length_penalty = copy_text(&value.length_penalty);
        let language = copy_text(&value.language);
        TaskOptions {
            seed,
            temperature,
            top_k,
            top_p,
            min_p: None,
            do_sample,
            num_beams,
            sampler: None,
            max_tokens,
            max_new_tokens: None,
            repetition_penalty,
            length_penalty,
            guidance_scale: None,
            num_inference_steps: None,
            negative_prompt: None,
            duration_sec: None,
            duration_scale: None,
            spatio_temporal_guidance_scale: None,
            guidance_rescale: None,
            language,
            reference_text: None,
            reference_language: None,
            reference_duration_sec: None,
            text_chunk_mode: None,
            text_chunk_size: None,
            audio_chunk_mode: None,
            audio_chunk_duration_sec: None,
            audio_chunk_threshold_sec: None,
            cross_fade_duration_sec: None,
            return_timestamps: None,
            target_voice: None,
            source_audio: None,
            lyrics: None,
            route: None,
            family: Some(FamilyOptions::IndexTts2(value)),
        }
    }
}

/// `ACE-Step` music-generation options.
#[derive(Debug, Clone, PartialEq, Default)]
pub struct AceStepOptions {
    /// RNG seed.
    pub seed: Option<u32>,
    /// Diffusion steps.
    pub num_inference_steps: Option<i32>,
    /// Classifier-free guidance scale, as the decimal text that `f32`'s `Display` writes.
    pub guidance_scale: Option<String>,
    /// Target duration in seconds, as the decimal text that `f32`'s `Display` writes.
    pub duration_sec: Option<String>,
    /// Negative prompt text.
    pub negative_prompt: Option<String>,
    /// Lyrics.
    pub lyrics: Option<String>,
    /// Model route name.
    pub route: Option<String>,
    /// Sampler name.
    pub sampler: Option<String>,
    /// Instruction prompt.
    pub instruction: Option<String>,
    /// Serialized audio codes.
    pub audio_codes: Option<String>,
    /// Alternate audio-code string.
    pub audio_code_string: Option<String>,
    /// Track name.
    pub track_name: Option<String>,
    /// Beats per minute.
    pub bpm: Option<i32>,
    /// Musical key and scale.
    pub keyscale: Option<String>,
    /// Time signature.
    pub timesignature: Option<String>,
    /// Chunk-mask mode.
    pub chunk_mask_mode: Option<String>,
    /// Repaint mode.
    pub repaint_mode: Option<String>,
    /// Repaint strength, as the decimal text that `f32`'s `Display` writes.
    pub repaint_strength: Option<String>,
    /// Repaint window start in seconds, as the decimal text that `f32`'s `Display` writes.
    pub repainting_start: Option<String>,
    /// Repaint window end in seconds, as the decimal text that `f32`'s `Display` writes.
    pub repainting_end: Option<String>,
    /// Enable thinking / chain-of-thought.
    pub thinking: Option<bool>,
    /// Use chain-of-thought metadata.
    pub use_cot_metas: Option<bool>,
    /// Use chain-of-thought caption.
    pub use_cot_caption: Option<bool>,
    /// Use chain-of-thought language.
    pub use_cot_language: Option<bool>,
    /// Enable ADG.
    pub use_adg: Option<bool>,
    /// CFG interval start, as the decimal text that `f32`'s `Display` writes.
    pub cfg_interval_start: Option<String>,
    /// CFG interval end, as the decimal text that `f32`'s `Display` writes.
    pub cfg_interval_end: Option<String>,
    /// Language-model temperature, as the decimal text that `f32`'s `Display` writes.
    pub lm_temperature: Option<String>,
    /// Language-model CFG scale, as the decimal text that `f32`'s `Display` writes.
    pub lm_cfg_scale: Option<String>,
    /// Language-model top-k cutoff.
    pub lm_top_k: Option<i32>,
    /// Language-model nucleus cutoff, as the decimal text that `f32`'s `Display` writes.
    pub lm_top_p: Option<String>,
    /// Language-model repetition penalty, as the decimal text that `f32`'s `Display` writes.
    pub lm_repetition_penalty: Option<String>,
    /// Flow-matching shift, as the decimal text that `f32`'s `Display` writes.
    pub shift: Option<String>,
    /// Inference method name.
    pub infer_method: Option<String>,
    /// Cover-audio strength, as the decimal text that `f32`'s `Display` writes.
    pub audio_cover_strength: Option<String>,
    /// Cover-noise strength, as the decimal text that `f32`'s `Display` writes.
    pub cover_noise_strength: Option<String>,
    /// Retake seed.
    pub retake_seed: Option<i32>,
    /// Retake variance, as the decimal text that `f32`'s `Display` writes.
    pub retake_variance: Option<String>,
    /// Sampler mode name.
    pub sampler_mode: Option<String>,
    /// Velocity-norm threshold, as the decimal text that `f32`'s `Display` writes.
    pub velocity_norm_threshold: Option<String>,
    /// Velocity EMA factor, as the decimal text that `f32`'s `Display` writes.
    pub velocity_ema_factor: Option<String>,
    /// Enable DCW.
    pub dcw_enabled: Option<bool>,
    /// DCW mode name.
    pub dcw_mode: Option<String>,
    /// DCW scaler, as the decimal text that `f32`'s `Display` writes.
    pub dcw_scaler: Option<String>,
    /// DCW high-band scaler, as the decimal text that `f32`'s `Display` writes.
    pub dcw_high_scaler: Option<String>,
    /// DCW wavelet name.
    pub dcw_wavelet: Option<String>,
    /// Repaint cross-fade frames.
    pub repaint_crossfade_frames: Option<i32>,
    /// Repaint injection ratio, as the decimal text that `f32`'s `Display` writes.
    pub repaint_injection_ratio: Option<String>,
}

/// The candidate entries of the extra fields of [`AceStepOptions`].
pub open spec fn ace_step_options_entries(x: AceStepOptions) -> Seq<(Seq<char>, Option<Seq<char>>)> {
    seq![
        ("instruction"@, text_value(x.instruction)),
        ("audio_codes"@, text_value(x.audio_codes)),
        ("audio_code_string"@, text_value(x.audio_code_string)),
        ("track_name"@, text_value(x.track_name)),
        ("bpm"@, i32_value(x.bpm)),
        ("keyscale"@, text_value(x.keyscale)),
        ("timesignature"@, text_value(x.timesignature)),
        ("chunk_mask_mode"@, text_value(x.chunk_mask_mode)),
        ("repaint_mode"@, text_value(x.repaint_mode)),
        ("repaint_strength"@, text_value(x.repaint_strength)),
        ("repainting_start"@, text_value(x.repainting_start)),
        ("repainting_end"@, text_value(x.repainting_end)),
        ("thinking"@, bool_value(x.thinking)),
        ("use_cot_metas"@, bool_value(x.use_cot_metas)),
        ("use_cot_caption"@, bool_value(x.use_cot_caption)),
        ("use_cot_language"@, bool_value(x.use_cot_language)),
        ("use_adg"@, bool_value(x.use_adg)),
        ("cfg_interval_start"@, text_value(x.cfg_interval_start)),
        ("cfg_interval_end"@, text_value(x.cfg_interval_end)),
        ("lm_temperature"@, text_value(x.lm_temperature)),
        ("lm_cfg_scale"@, text_value(x.lm_cfg_scale)),
        ("lm_top_k"@, i32_value(x.lm_top_k)),
        ("lm_top_p"@, text_value(x.lm_top_p)),
        ("lm_repetition_penalty"@, text_value(x.lm_repetition_penalty)),
        ("shift"@, text_value(x.shift)),
        ("infer_method"@, text_value(x.infer_method)),
        ("audio_cover_strength"@, text_value(x.audio_cover_strength)),
        ("cover_noise_strength"@, text_value(x.cover_noise_strength)),
        ("retake_seed"@, i32_value(x.retake_seed)),
        ("retake_variance"@, text_value(x.retake_variance)),
        ("sampler_mode"@, text_value(x.sampler_mode)),
        ("velocity_norm_threshold"@, text_value(x.velocity_norm_threshold)),
        ("velocity_ema_factor"@, text_value(x.velocity_ema_factor)),
        ("dcw_enabled"@, bool_value(x.dcw_enabled)),
        ("dcw_mode"@, text_value(x.dcw_mode)),
        ("dcw_scaler"@, text_value(x.dcw_scaler)),
        ("dcw_high_scaler"@, text_value(x.dcw_high_scaler)),
        ("dcw_wavelet"@, text_value(x.dcw_wavelet)),
        ("repaint_crossfade_frames"@, i32_value(x.repaint_crossfade_frames)),
        ("repaint_injection_ratio"@, text_value(x.repaint_injection_ratio)),
        ("duration_seconds"@, text_value(x.duration_sec)),
    ]
}

impl AceStepOptions {
    /// The candidate entries of the extra fields.
    fn entries(&self) -> (r: Vec<Entry>)
        ensures
            r@.map_values(|e: Entry| entry_view(e)) == ace_step_options_entries(*self),
    {
        let mut r: Vec<Entry> = Vec::new();
        r.push(text_entry("instruction", &self.instruction));
        r.push(text_entry("audio_codes", &self.audio_codes));
        r.push(text_entry("audio_code_string", &self.audio_code_string));
        r.push(text_entry("track_name", &self.track_name));
        r.push(i32_entry("bpm", self.bpm));
        r.push(text_entry("keyscale", &self.keyscale));
        r.push(text_entry("timesignature", &self.timesignature));
        r.push(text_entry("chunk_mask_mode", &self.chunk_mask_mode));
        r.push(text_entry("repaint_mode", &self.repaint_mode));
        r.push(text_entry("repaint_strength", &self.repaint_strength));
        r.push(text_entry("repainting_start", &self.repainting_start));
        r.push(text_entry("repainting_end", &self.repainting_end));
        r.push(bool_entry("thinking", self.thinking));
        r.push(bool_entry("use_cot_metas", self.use_cot_metas));
        r.push(bool_entry("use_cot_caption", self.use_cot_caption));
        r.push(bool_entry("use_cot_language", self.use_cot_language));
        r.push(bool_entry("use_adg", self.use_adg));
        r.push(text_entry("cfg_interval_start", &self.cfg_interval_start));
        r.push(text_entry("cfg_interval_end", &self.cfg_interval_end));
        r.push(text_entry("lm_temperature", &self.lm_temperature));
        r.push(text_entry("lm_cfg_scale", &self.lm_cfg_scale));
        r.push(i32_entry("lm_top_k", self.lm_top_k));
        r.push(text_entry("lm_top_p", &self.lm_top_p));
        r.push(text_entry("lm_repetition_penalty", &self.lm_repetition_penalty));
        r.push(text_entry("shift", &self.shift));
        r.push(text_entry("infer_method", &self.infer_method));
        r.push(text_entry("audio_cover_strength", &self.audio_cover_strength));
        r.push(text_entry("cover_noise_strength", &self.cover_noise_strength));
        r.push(i32_entry("retake_seed", self.retake_seed));
        r.push(text_entry("retake_variance", &self.retake_variance));
        r.push(text_entry("sampler_mode", &self.sampler_mode));
        r.push(text_entry("velocity_norm_threshold", &self.velocity_norm_threshold));
        r.push(text_entry("velocity_ema_factor", &self.velocity_ema_factor));
        r.push(bool_entry("dcw_enabled", self.dcw_enabled));
        r.push(text_entry("dcw_mode", &self.dcw_mode));
        r.push(text_entry("dcw_scaler", &self.dcw_scaler));
        r.push(text_entry("dcw_high_scaler", &self.dcw_high_scaler));
        r.push(text_entry("dcw_wavelet", &self.dcw_wavelet));
        r.push(i32_entry("repaint_crossfade_frames", self.repaint_crossfade_frames));
        r.push(text_entry("repaint_injection_ratio", &self.repaint_injection_ratio));
        r.push(text_entry("duration_seconds", &self.duration_sec));
        assert(r@.map_values(|e: Entry| entry_view(e)) =~= ace_step_options_entries(*self));
        r
    }
}

/// The options that [`AceStepOptions`] converts into: its shared fields, with the
/// whole value kept as the family extras.
pub open spec fn options_from_ace_step_options(value: AceStepOptions) -> TaskOptions {
    TaskOptions {
        seed: value.seed,
        temperature: None,
        top_k: None,
        top_p: None,
        min_p: None,
        do_sample: None,
        num_beams: None,
        sampler: value.sampler,
        max_tokens: None,
        max_new_tokens: None,
        repetition_penalty: None,
        length_penalty: None,
        guidance_scale: value.guidance_scale,
        num_inference_steps: value.num_inference_steps,
        negative_prompt: value.negative_prompt,
        duration_sec: value.duration_sec,
        duration_scale: None,
        spatio_temporal_guidance_scale: None,
        guidance_rescale: None,
        language: None,
        reference_text: None,
        reference_language: None,
        reference_duration_sec: None,
        text_chunk_mode: None,
        text_chunk_size: None,
        audio_chunk_mode: None,
        audio_chunk_duration_sec: None,
        audio_chunk_threshold_sec: None,
        cross_fade_duration_sec: None,
        return_timestamps: None,
        target_voice: None,
        source_audio: None,
        lyrics: value.lyrics,
        route: value.route,
        family: Some(FamilyOptions::AceStep(Box::new(value))),
    }
}

impl vstd::std_specs::convert::FromSpecImpl<AceStepOptions> for TaskOptions {
    open spec fn obeys_from_spec() -> bool {
        true
    }

    open spec fn from_spec(value: AceStepOptions) -> TaskOptions {
        options_from_ace_step_options(value)
    }
}

impl From<AceStepOptions> for TaskOptions {
    fn from(value: AceStepOptions) -> (o: TaskOptions) {
        let seed = value.seed;
        let num_inference_steps = value.num_inference_steps;
        let guidance_scale = copy_text(&value.guidance_scale);
        let duration_sec = copy_text(&value.duration_sec);
        let negative_prompt = copy_text(&value.negative_prompt);
        let lyrics = copy_text(&value.lyrics);
        let route = copy_text(&value.route);
        let sampler = copy_text(&value.sampler);
        TaskOptions {
            seed,
            temperature: None,
            top_k: None,
            top_p: None,
            min_p: None,
            do_sample: None,
            num_beams: None,
            sampler,
            max_tokens: None,
            max_new_tokens: None,
            repetition_penalty: None,
            length_penalty: None,
            guidance_scale,
            num_inference_steps,
            negative_prompt,
            duration_sec,
            duration_scale: None,
            spatio_temporal_guidance_scale: None,
            guidance_rescale: None,
            language: None,
            reference_text: None,
            reference_language: None,
            reference_duration_sec: None,
            text_chunk_mode: None,
            text_chunk_size: None,
            audio_chunk_mode: None,
            audio_chunk_duration_sec: None,
            audio_chunk_threshold_sec: None,
            cross_fade_duration_sec: None,
            return_timestamps: None,
            target_voice: None,
            source_audio: None,
            lyrics,
            route,
            family: Some(FamilyOptions::AceStep(Box::new(value))),
        }
    }
}

/// `OmniVoice` generation options.
#[derive(Debug, Clone, PartialEq, Default)]
pub struct OmnivoiceOptions {
    /// RNG seed.
    pub seed: Option<u32>,
    /// Diffusion or flow-matching steps.
    pub num_inference_steps: Option<i32>,
    /// Classifier-free guidance scale, as the decimal text that `f32`'s `Display` writes.
    pub guidance_scale: Option<String>,
    /// Long-form text chunker.
    pub text_chunk_mode: Option<TextChunkMode>,
    /// Long-form text chunk budget.
    pub text_chunk_size: Option<i32>,
    /// Speaking-rate multiplier, as the decimal text that `f32`'s `Display` writes.
    pub speed: Option<String>,
    /// Target duration in seconds (`duration`), as the decimal text that `f32`'s `Display` writes.
    pub duration: Option<String>,
    /// Flow-matching time shift, as the decimal text that `f32`'s `Display` writes.
    pub t_shift: Option<String>,
    /// Enable the denoiser.
    pub denoise: Option<bool>,
    /// Preprocess the prompt.
    pub preprocess_prompt: Option<bool>,
    /// Postprocess the output audio.
    pub postprocess_output: Option<bool>,
    /// Layer-penalty factor, as the decimal text that `f32`'s `Display` writes.
    pub layer_penalty_factor: Option<String>,
    /// Position temperature, as the decimal text that `f32`'s `Display` writes.
    pub position_temperature: Option<String>,
    /// Class temperature, as the decimal text that `f32`'s `Display` writes.
    pub class_temperature: Option<String>,
    /// Audio chunk length in seconds (`audio_chunk_duration`), as the decimal text that `f32`'s `Display` writes.
    pub audio_chunk_duration: Option<String>,
    /// Long-form audio chunking threshold (`audio_chunk_threshold`), as the decimal text that `f32`'s `Display` writes.
    pub audio_chunk_threshold: Option<String>,
}

/// The candidate entries of the extra fields of [`OmnivoiceOptions`].
pub open spec fn omnivoice_options_entries(x: OmnivoiceOptions) -> Seq<(Seq<char>, Option<Seq<char>>)> {
    seq![
        ("speed"@, text_value(x.speed)),
        ("duration"@, text_value(x.duration)),
        ("t_shift"@, text_value(x.t_shift)),
        ("denoise"@, bool_value(x.denoise)),
        ("preprocess_prompt"@, bool_value(x.preprocess_prompt)),
        ("postprocess_output"@, bool_value(x.postprocess_output)),
        ("layer_penalty_factor"@, text_value(x.layer_penalty_factor)),
        ("position_temperature"@, text_value(x.position_temperature)),
        ("class_temperature"@, text_value(x.class_temperature)),
        ("audio_chunk_duration"@, text_value(x.audio_chunk_duration)),
        ("audio_chunk_threshold"@, text_value(x.audio_chunk_threshold)),
    ]
}

impl OmnivoiceOptions {
    /// The candidate entries of the extra fields.
    fn entries(&self) -> (r: Vec<Entry>)
        ensures
            r@.map_values(|e: Entry| entry_view(e)) == omnivoice_options_entries(*self),
    {
        let mut r: Vec<Entry> = Vec::new();
        r.push(text_entry("speed", &self.speed));
        r.push(text_entry("duration", &self.duration));
        r.push(text_entry("t_shift", &self.t_shift));
        r.push(bool_entry("denoise", self.denoise));
        r.push(bool_entry("preprocess_prompt", self.preprocess_prompt));
        r.push(bool_entry("postprocess_output", self.postprocess_output));
        r.push(text_entry("layer_penalty_factor", &self.layer_penalty_factor));
        r.push(text_entry("position_temperature", &self.position_temperature));
        r.push(text_entry("class_temperature", &self.class_temperature));
        r.push(text_entry("audio_chunk_duration", &self.audio_chunk_duration));
        r.push(text_entry("audio_chunk_threshold", &self.audio_chunk_threshold));
        assert(r@.map_values(|e: Entry| entry_view(e)) =~= omnivoice_options_entries(*self));
        r
    }
}

/// The options that [`OmnivoiceOptions`] converts into: its shared fields, with the
/// whole value kept as the family extras.
pub open spec fn options_from_omnivoice_options(value: OmnivoiceOptions) -> TaskOptions {
    TaskOptions {
        seed: value.seed,
        temperature: None,
        top_k: None,
        top_p: None,
        min_p: None,
        do_sample: None,
        num_beams: None,
        sampler: None,
        max_tokens: None,
        max_new_tokens: None,
        repetition_penalty: None,
        length_penalty: None,
        guidance_scale: value.guidance_scale,
        num_inference_steps: value.num_inference_steps,
        negative_prompt: None,
        duration_sec: None,
        duration_scale: None,
        spatio_temporal_guidance_scale: None,
        guidance_rescale: None,
        language: None,
        reference_text: None,
        reference_language: None,
        reference_duration_sec: None,
        text_chunk_mode: value.text_chunk_mode,
        text_chunk_size: value.text_chunk_size,
        audio_chunk_mode: None,
        audio_chunk_duration_sec: None,
        audio_chunk_threshold_sec: None,
        cross_fade_duration_sec: None,
        return_timestamps: None,
        target_voice: None,
        source_audio: None,
        lyrics: None,
        route: None,
        family: Some(FamilyOptions::Omnivoice(value)),
    }
}

impl vstd::std_specs::convert::FromSpecImpl<OmnivoiceOptions> for TaskOptions {
    open spec fn obeys_from_spec() -> bool {
        true
    }

    open spec fn from_spec(value: OmnivoiceOptions) -> TaskOptions {
        options_from_omnivoice_options(value)
    }
}

impl From<OmnivoiceOptions> for TaskOptions {
    fn from(value: OmnivoiceOptions) -> (o: TaskOptions) {
        let seed = value.seed;
        let num_inference_steps = value.num_inference_steps;
        let guidance_scale = copy_text(&value.guidance_scale);
        let text_chunk_mode = value.text_chunk_mode;
        let text_chunk_size = value.text_chunk_size;
        TaskOptions {
            seed,
            temperature: None,
            top_k: None,
            top_p: None,
            min_p: None,
            do_sample: None,
            num_beams: None,
            sampler: None,
            max_tokens: None,
            max_new_tokens: None,
            repetition_penalty: None,
            length_penalty: None,
            guidance_scale,
            num_inference_steps,
            negative_prompt: None,
            duration_sec: None,
            duration_scale: None,
            spatio_temporal_guidance_scale: None,
            guidance_rescale: None,
            language: None,
            reference_text: None,
            reference_language: None,
            reference_duration_sec: None,
            text_chunk_mode,
            text_chunk_size,
            audio_chunk_mode: None,
            audio_chunk_duration_sec: None,
            audio_chunk_threshold_sec: None,
            cross_fade_duration_sec: None,
            return_timestamps: None,
            target_voice: None,
            source_audio: None,
            lyrics: None,
            route: None,
            family: Some(FamilyOptions::Omnivoice(value)),
        }
    }
}

/// `Stable Audio` generation options.
#[derive(Debug, Clone, PartialEq, Default)]
pub struct StableAudioOptions {
    /// RNG seed.
    pub seed: Option<u32>,
    /// Diffusion steps.
    pub num_inference_steps: Option<i32>,
    /// Classifier-free guidance scale, as the decimal text that `f32`'s `Display` writes.
    pub guidance_scale: Option<String>,
    /// Target duration in seconds, as the decimal text that `f32`'s `Display` writes.
    pub duration_sec: Option<String>,
    /// Negative prompt text.
    pub negative_prompt: Option<String>,
    /// Sampler name.
    pub sampler: Option<String>,
    /// Prompt text when not using [`crate::TaskRequest::text`].
    pub prompt: Option<String>,
    /// Batch size.
    pub batch_size: Option<i32>,
    /// APG scale, as the decimal text that `f32`'s `Display` writes.
    pub apg_scale: Option<String>,
    /// Truncate output to the requested duration.
    pub truncate_output_to_duration: Option<bool>,
    /// Decode in chunks.
    pub chunked_decode: Option<bool>,
    /// Duration padding in seconds, as the decimal text that `f32`'s `Display` writes.
    pub duration_padding_seconds: Option<String>,
    /// Initial noise level, as the decimal text that `f32`'s `Display` writes.
    pub init_noise_level: Option<String>,
    /// How input audio is interpreted.
    pub audio_input_kind: Option<String>,
    /// Inpaint window start in seconds, as the decimal text that `f32`'s `Display` writes.
    pub inpaint_mask_start_seconds: Option<String>,
    /// Inpaint window end in seconds, as the decimal text that `f32`'s `Display` writes.
    pub inpaint_mask_end_seconds: Option<String>,
    /// Sampler sigma minimum, as the decimal text that `f32`'s `Display` writes.
    pub sigma_min: Option<String>,
    /// Sampler sigma maximum, as the decimal text that `f32`'s `Display` writes.
    pub sigma_max: Option<String>,
    /// Sampler rho, as the decimal text that `f32`'s `Display` writes.
    pub rho: Option<String>,
}

/// The candidate entries of the extra fields of [`StableAudioOptions`].
pub open spec fn stable_audio_options_entries(x: StableAudioOptions) -> Seq<(Seq<char>, Option<Seq<char>>)> {
    seq![
        ("prompt"@, text_value(x.prompt)),
        ("batch_size"@, i32_value(x.batch_size)),
        ("apg_scale"@, text_value(x.apg_scale)),
        ("truncate_output_to_duration"@, bool_value(x.truncate_output_to_duration)),
        ("chunked_decode"@, bool_value(x.chunked_decode)),
        ("duration_padding_seconds"@, text_value(x.duration_padding_seconds)),
        ("init_noise_level"@, text_value(x.init_noise_level)),
        ("audio_input_kind"@, text_value(x.audio_input_kind)),
        ("inpaint_mask_start_seconds"@, text_value(x.inpaint_mask_start_seconds)),
        ("inpaint_mask_end_seconds"@, text_value(x.inpaint_mask_end_seconds)),
        ("sigma_min"@, text_value(x.sigma_min)),
        ("sigma_max"@, text_value(x.sigma_max)),
        ("rho"@, text_value(x.rho)),
        ("duration_seconds"@, text_value(x.duration_sec)),
    ]
}

impl StableAudioOptions {
    /// The candidate entries of the extra fields.
    fn entries(&self) -> (r: Vec<Entry>)
        ensures
            r@.map_values(|e: Entry| entry_view(e)) == stable_audio_options_entries(*self),
    {
        let mut r: Vec<Entry> = Vec::new();
        r.push(text_entry("prompt", &self.prompt));
        r.push(i32_entry("batch_size", self.batch_size));
        r.push(text_entry("apg_scale", &self.apg_scale));
        r.push(bool_entry("truncate_output_to_duration", self.truncate_output_to_duration));
        r.push(bool_entry("chunked_decode", self.chunked_decode));
        r.push(text_entry("duration_padding_seconds", &self.duration_padding_seconds));
        r.push(text_entry("init_noise_level", &self.init_noise_level));
        r.push(text_entry("audio_input_kind", &self.audio_input_kind));
        r.push(text_entry("inpaint_mask_start_seconds", &self.inpaint_mask_start_seconds));
        r.push(text_entry("inpaint_mask_end_seconds", &self.inpaint_mask_end_seconds));
        r.push(text_entry("sigma_min", &self.sigma_min));
        r.push(text_entry("sigma_max", &self.sigma_max));
        r.push(text_entry("rho", &self.rho));
        r.push(text_entry("duration_seconds", &self.duration_sec));
        assert(r@.map_values(|e: Entry| entry_view(e)) =~= stable_audio_options_entries(*self));
        r
    }
}

/// The options that [`StableAudioOptions`] converts into: its shared fields, with the
/// whole value kept as the family extras.
pub open spec fn options_from_stable_audio_options(value: StableAudioOptions) -> TaskOptions {
    TaskOptions {
        seed: value.seed,
        temperature: None,
        top_k: None,
        top_p: None,
        min_p: None,
        do_sample: None,
        num_beams: None,
        sampler: value.sampler,
        max_tokens: None,
        max_new_tokens: None,
        repetition_penalty: None,
        length_penalty: None,
        guidance_scale: value.guidance_scale,
        num_inference_steps: value.num_inference_steps,
        negative_prompt: value.negative_prompt,
        duration_sec: value.duration_sec,
        duration_scale: None,
        spatio_temporal_guidance_scale: None,
        guidance_rescale: None,
        language: None,
        reference_text: None,
        reference_language: None,
        reference_duration_sec: None,
        text_chunk_mode: None,
        text_chunk_size: None,
        audio_chunk_mode: None,
        audio_chunk_duration_sec: None,
        audio_chunk_threshold_sec: None,
        cross_fade_duration_sec: None,
        return_timestamps: None,
        target_voice: None,
        source_audio: None,
        lyrics: None,
        route: None,
        family: Some(FamilyOptions::StableAudio(value)),
    }
}

impl vstd::std_specs::convert::FromSpecImpl<StableAudioOptions> for TaskOptions {
    open spec fn obeys_from_spec() -> bool {
        true
    }

    open spec fn from_spec(value: StableAudioOptions) -> TaskOptions {
        options_from_stable_audio_options(value)
    }
}

impl From<StableAudioOptions> for TaskOptions {
    fn from(value: StableAudioOptions) -> (o: TaskOptions) {
        let seed = value.seed;
        let num_inference_steps = value.num_inference_steps;
        let guidance_scale = copy_text(&value.guidance_scale);
        let duration_sec = copy_text(&value.duration_sec);
        let negative_prompt = copy_text(&value.negative_prompt);
        let sampler = copy_text(&value.sampler);
        TaskOptions {
            seed,
            temperature: None,
            top_k: None,
            top_p: None,
            min_p: None,
            do_sample: None,
            num_beams: None,
            sampler,
            max_tokens: None,
            max_new_tokens: None,
            repetition_penalty: None,
            length_penalty: None,
            guidance_scale,
            num_inference_steps,
            negative_prompt,
            duration_sec,
            duration_scale: None,
            spatio_temporal_guidance_scale: None,
            guidance_rescale: None,
            language: None,
            reference_text: None,
            reference_language: None,
            reference_duration_sec: None,
            text_chunk_mode: None,
            text_chunk_size: None,
            audio_chunk_mode: None,
            audio_chunk_duration_sec: None,
            audio_chunk_threshold_sec: None,
            cross_fade_duration_sec: None,
            return_timestamps: None,
            target_voice: None,
            source_audio: None,
            lyrics: None,
            route: None,
            family: Some(FamilyOptions::StableAudio(value)),
        }
    }
}


/// The upstream name of every [`TextChunkMode`]: the texts `as_str` returns.
pub proof fn law_text_chunk_mode_name_table()
    ensures
        text_chunk_mode_name(TextChunkMode::Default) == "default"@,
        text_chunk_mode_name(TextChunkMode::WordBudget) == "word_budget"@,
        text_chunk_mode_name(TextChunkMode::TagAware) == "tag_aware"@,
        text_chunk_mode_name(TextChunkMode::Japanese) == "japanese"@,
        text_chunk_mode_name(TextChunkMode::Endline) == "endline"@,
{
}

/// The upstream name of every [`AudioChunkMode`]: the texts `as_str` returns.
pub proof fn law_audio_chunk_mode_name_table()
    ensures
        audio_chunk_mode_name(AudioChunkMode::Auto) == "auto"@,
        audio_chunk_mode_name(AudioChunkMode::Fixed) == "fixed"@,
        audio_chunk_mode_name(AudioChunkMode::Vad) == "vad"@,
        audio_chunk_mode_name(AudioChunkMode::QuietEnergy) == "quiet_energy"@,
        audio_chunk_mode_name(AudioChunkMode::Off) == "none"@,
{
}

/// How a set value is rendered for the runtime: integers in decimal, booleans
/// as `true` or `false`, modes by their names, texts as they are; an unset
/// value renders to nothing.
pub proof fn law_value_rendering(
    u: Option<u32>,
    i: Option<i32>,
    b: Option<bool>,
    t: Option<String>,
    tm: Option<TextChunkMode>,
    am: Option<AudioChunkMode>,
)
    ensures
        u matches Some(n) ==> u32_value(u) == Some(decimal(n as nat)),
        u is None ==> u32_value(u) is None,
        i matches Some(n) ==> i32_value(i) == Some(signed_decimal(n as int)),
        i is None ==> i32_value(i) is None,
        b matches Some(x) ==> bool_value(b) == Some(if x { "true"@ } else { "false"@ }),
        b is None ==> bool_value(b) is None,
        t matches Some(x) ==> text_value(t) == Some(x@),
        t is None ==> text_value(t) is None,
        tm matches Some(m) ==> text_chunk_value(tm) == Some(text_chunk_mode_name(m)),
        tm is None ==> text_chunk_value(tm) is None,
        am matches Some(m) ==> audio_chunk_value(am) == Some(audio_chunk_mode_name(m)),
        am is None ==> audio_chunk_value(am) is None,
{
}

} // verus!
