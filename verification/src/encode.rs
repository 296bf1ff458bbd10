//! Plain-value forms of the native request structs.
//!
//! Every text handed to the C ABI becomes a NUL-terminated string, so a text
//! with an interior NUL byte is refused, and the texts are checked in the
//! order in which the native structs are filled: the first offending text
//! decides the error. Optional texts that are absent stand for null pointers.

use vstd::prelude::*;

use crate::error::Error;
use crate::kinds::ArtifactKind;
use crate::options::encoded_options;
use crate::string_map::{ordered_pairs, StringMap};
use crate::text::{find_nul, nul_position};
use crate::types::{
    AudioBuffer, AudioChunk, BackendConfig, F32Bits, ModelLoadRequest, SessionOptions,
    SessionPreparationRequest, TaskRequest, Transcript, VoiceArtifact, VoiceCondition,
};

verus! {

/// Byte position of the interior NUL in the first text that holds one.
pub open spec fn first_nul_in(texts: Seq<Seq<char>>) -> Option<int>
    decreases texts.len(),
{
    if texts.len() == 0 {
        None
    } else {
        match nul_position(texts[0]) {
            Some(p) => Some(p),
            None => first_nul_in(texts.drop_first()),
        }
    }
}

/// The first offending text of a concatenation is that of the first part,
/// if it has one, otherwise that of the second.
pub proof fn lemma_first_nul_concat(a: Seq<Seq<char>>, b: Seq<Seq<char>>)
    ensures
        first_nul_in(a + b) == match first_nul_in(a) {
            Some(p) => Some(p),
            None => first_nul_in(b),
        },
    decreases a.len(),
{
    if a.len() > 0 {
        assert((a + b).drop_first() =~= a.drop_first() + b);
        assert((a + b)[0] == a[0]);
        lemma_first_nul_concat(a.drop_first(), b);
    } else {
        assert(a + b =~= b);
    }
}

/// Keys and values of a sequence of pairs, each key before its value.
pub open spec fn map_texts(p: Seq<(Seq<char>, Seq<char>)>) -> Seq<Seq<char>>
    decreases p.len(),
{
    if p.len() == 0 {
        Seq::empty()
    } else {
        map_texts(p.drop_last()) + seq![p.last().0, p.last().1]
    }
}

/// Keys and values of a map in increasing key order.
pub open spec fn map_text_list(m: Map<Seq<char>, Seq<char>>) -> Seq<Seq<char>> {
    map_texts(ordered_pairs(m))
}

/// The text of an optional string, as a list of zero or one texts.
pub open spec fn opt_texts(v: Option<String>) -> Seq<Seq<char>> {
    match v {
        Some(s) => seq![s@],
        None => Seq::empty(),
    }
}

/// Text of an optional borrowed string.
pub open spec fn ref_text(v: Option<&String>) -> Option<Seq<char>> {
    match v {
        Some(s) => Some(s@),
        None => None,
    }
}

/// Text of an optional string.
pub open spec fn own_text(v: Option<String>) -> Option<Seq<char>> {
    match v {
        Some(s) => Some(s@),
        None => None,
    }
}

/// Texts of a transcript: its text, then its language.
pub open spec fn transcript_texts(t: Option<Transcript>) -> Seq<Seq<char>> {
    match t {
        Some(t) => seq![t.text@, t.language@],
        None => Seq::empty(),
    }
}

/// Keys and values of the style tags of a voice condition.
pub open spec fn style_tag_texts(v: Option<VoiceCondition>) -> Seq<Seq<char>> {
    match v {
        Some(c) => match c.style {
            Some(st) => map_text_list(st.tags@),
            None => Seq::empty(),
        },
        None => Seq::empty(),
    }
}

/// Texts of a voice condition: the cached voice id, then the style's
/// language and emotion.
pub open spec fn voice_texts(v: Option<VoiceCondition>) -> Seq<Seq<char>> {
    match v {
        Some(c) => (match c.speaker {
            Some(s) => opt_texts(s.cached_voice_id),
            None => Seq::empty(),
        }) + (match c.style {
            Some(st) => opt_texts(st.language) + opt_texts(st.emotion),
            None => Seq::empty(),
        }),
        None => Seq::empty(),
    }
}

/// Texts of the artifacts: for each, its metadata, then its id.
pub open spec fn artifact_texts(a: Seq<VoiceArtifact>) -> Seq<Seq<char>>
    decreases a.len(),
{
    if a.len() == 0 {
        Seq::empty()
    } else {
        artifact_texts(a.drop_last()) + map_text_list(a.last().meta@) + seq![a.last().id@]
    }
}

/// Texts of a model-load request in check order.
pub open spec fn load_request_texts(r: ModelLoadRequest) -> Seq<Seq<char>> {
    seq![r.model_path@] + opt_texts(r.model_spec_override) + opt_texts(r.family_hint) + opt_texts(
        r.config_id,
    ) + opt_texts(r.weight_id) + map_text_list(r.options@)
}

/// Texts of a task request in check order.
pub open spec fn task_request_texts(r: TaskRequest) -> Seq<Seq<char>> {
    map_text_list(encoded_options(r.options)) + style_tag_texts(r.voice) + artifact_texts(
        r.artifacts@,
    ) + transcript_texts(r.text) + voice_texts(r.voice)
}

/// Texts of a preparation request in check order.
pub open spec fn prep_request_texts(r: SessionPreparationRequest) -> Seq<Seq<char>> {
    map_text_list(r.options@) + style_tag_texts(r.voice) + transcript_texts(r.text) + voice_texts(
        r.voice,
    )
}

/// The mathematical form of a list of borrowed texts.
pub open spec fn list_view(v: Seq<&str>) -> Seq<Seq<char>> {
    v.map_values(|s: &str| s@)
}

/// Appends one text.
fn push_text<'a>(out: &mut Vec<&'a str>, s: &'a String)
    ensures
        list_view(final(out)@) == list_view(old(out)@).push(s@),
{
    out.push(s.as_str());
    assert(list_view(out@) =~= list_view(old(out)@).push(s@));
}

/// Appends an optional text.
fn push_opt_text<'a>(out: &mut Vec<&'a str>, s: &'a Option<String>)
    ensures
        list_view(final(out)@) == list_view(old(out)@) + opt_texts(*s),
{
    match s {
        Some(t) => {
            push_text(out, t);
        },
        None => {},
    }
    assert(list_view(out@) =~= list_view(old(out)@) + opt_texts(*s));
}

/// Appends the keys and values of a map in iteration order.
fn push_map_texts<'a>(out: &mut Vec<&'a str>, m: &'a StringMap)
    ensures
        list_view(final(out)@) == list_view(old(out)@) + map_text_list(m@),
{
    let entries = m.entries();
    let ghost pairs = ordered_pairs(m@);
    let mut i: usize = 0;
    while i < entries.len()
        invariant
            0 <= i <= entries@.len(),
            entries@.len() == pairs.len(),
            forall|j: int|
                0 <= j < entries@.len() ==> (#[trigger] entries@[j]).0@ == pairs[j].0 && entries@[j].1@
                    == pairs[j].1,
            list_view(out@) == list_view(old(out)@) + map_texts(pairs.take(i as int)),
        decreases entries@.len() - i,
    {
        assert(pairs.take(i + 1).drop_last() =~= pairs.take(i as int));
        push_text(out, &entries[i].0);
        push_text(out, &entries[i].1);
        assert(list_view(out@) =~= list_view(old(out)@) + map_texts(pairs.take(i + 1)));
        i = i + 1;
    }
    assert(pairs.take(i as int) =~= pairs);
}

/// Appends the texts of an optional transcript.
fn push_transcript_texts<'a>(out: &mut Vec<&'a str>, t: &'a Option<Transcript>)
    ensures
        list_view(final(out)@) == list_view(old(out)@) + transcript_texts(*t),
{
    match t {
        Some(t) => {
            push_text(out, &t.text);
            push_text(out, &t.language);
        },
        None => {},
    }
    assert(list_view(out@) =~= list_view(old(out)@) + transcript_texts(*t));
}

/// Appends the style tags of an optional voice condition.
fn push_style_tag_texts<'a>(out: &mut Vec<&'a str>, v: &'a Option<VoiceCondition>)
    ensures
        list_view(final(out)@) == list_view(old(out)@) + style_tag_texts(*v),
{
    match v {
        Some(c) => match &c.style {
            Some(st) => {
                push_map_texts(out, &st.tags);
            },
            None => {},
        },
        None => {},
    }
    assert(list_view(out@) =~= list_view(old(out)@) + style_tag_texts(*v));
}

/// Appends the texts of an optional voice condition.
fn push_voice_texts<'a>(out: &mut Vec<&'a str>, v: &'a Option<VoiceCondition>)
    ensures
        list_view(final(out)@) == list_view(old(out)@) + voice_texts(*v),
{
    match v {
        Some(c) => {
            match &c.speaker {
                Some(s) => {
                    push_opt_text(out, &s.cached_voice_id);
                },
                None => {},
            }
            match &c.style {
                Some(st) => {
                    push_opt_text(out, &st.language);
                    push_opt_text(out, &st.emotion);
                },
                None => {},
            }
        },
        None => {},
    }
    assert(list_view(out@) =~= list_view(old(out)@) + voice_texts(*v));
}

/// Appends the texts of the artifacts.
fn push_artifact_texts<'a>(out: &mut Vec<&'a str>, a: &'a Vec<VoiceArtifact>)
    ensures
        list_view(final(out)@) == list_view(old(out)@) + artifact_texts(a@),
{
    let mut i: usize = 0;
    while i < a.len()
        invariant
            0 <= i <= a@.len(),
            list_view(out@) == list_view(old(out)@) + artifact_texts(a@.take(i as int)),
        decreases a@.len() - i,
    {
        assert(a@.take(i + 1).drop_last() =~= a@.take(i as int));
        assert(a@.take(i + 1).last() == a@[i as int]);
        push_map_texts(out, &a[i].meta);
        push_text(out, &a[i].id);
        assert(list_view(out@) =~= list_view(old(out)@) + artifact_texts(a@.take(i + 1)));
        i = i + 1;
    }
    assert(a@.take(i as int) =~= a@);
}

/// The NUL error of the first offending text, if any.
fn first_nul_error(texts: &Vec<&str>) -> (r: Option<Error>)
    ensures
        match first_nul_in(list_view(texts@)) {
            Some(p) => r == Some(Error::Nul(p as usize)),
            None => r is None,
        },
{
    let ghost all = list_view(texts@);
    let mut i: usize = 0;
    while i < texts.len()
        invariant
            0 <= i <= texts@.len(),
            all == list_view(texts@),
            first_nul_in(all.take(i as int)) is None,
        decreases texts@.len() - i,
    {
        let ghost head = all.take(i as int);
        let ghost rest = all.skip(i + 1);
        assert(all =~= head + (seq![all[i as int]] + rest));
        assert((seq![all[i as int]] + rest).drop_first() =~= rest);
        proof {
            lemma_first_nul_concat(head, seq![all[i as int]] + rest);
            lemma_first_nul_concat(head, seq![all[i as int]]);
            assert(seq![all[i as int]].drop_first() =~= Seq::<Seq<char>>::empty());
        }
        assert(all[i as int] == texts@[i as int]@);
        match find_nul(texts[i]) {
            Some(p) => {
                return Some(Error::Nul(p));
            },
            None => {
                let ghost one = seq![all[i as int]];
                assert(one.drop_first() =~= Seq::<Seq<char>>::empty());
                assert(first_nul_in(Seq::<Seq<char>>::empty()) is None);
                assert(one[0] == all[i as int]);
                assert(first_nul_in(one) is None);
            },
        }
        assert(all.take(i + 1) =~= head + seq![all[i as int]]);
        i = i + 1;
    }
    assert(all.take(i as int) =~= all);
    None
}

/// Plain-value form of the native audio view: shape and sample count, all
/// zero when there is no audio.
#[derive(Debug, Clone, Copy, PartialEq, Eq, Structural)]
pub struct AudioView {
    /// Sample rate in Hz.
    pub sample_rate: i32,
    /// Channel count.
    pub channels: i32,
    /// Number of interleaved samples.
    pub sample_count: usize,
}

/// The audio view of an optional buffer.
pub open spec fn audio_view_of(a: Option<AudioBuffer>) -> AudioView {
    match a {
        Some(b) => AudioView {
            sample_rate: b.sample_rate,
            channels: b.channels,
            sample_count: b.samples@.len() as usize,
        },
        None => AudioView { sample_rate: 0, channels: 0, sample_count: 0 },
    }
}

/// The audio view of an optional buffer.
fn audio_view(a: &Option<AudioBuffer>) -> (v: AudioView)
    ensures
        v == audio_view_of(*a),
{
    match a {
        Some(b) => AudioView { sample_rate: b.sample_rate, channels: b.channels, sample_count: b.samples.len() },
        None => AudioView { sample_rate: 0, channels: 0, sample_count: 0 },
    }
}

/// Plain-value form of the native voice condition; every field is zero,
/// false or absent where the condition does not set it.
#[derive(Debug, Clone, Copy)]
pub struct EncodedVoiceCondition<'a> {
    /// Whether a speaker reference is present.
    pub has_speaker: bool,
    /// View of the speaker's reference audio.
    pub speaker_audio: AudioView,
    /// Whether the speaker has reference audio.
    pub has_speaker_audio: bool,
    /// The speaker's cached voice identifier.
    pub cached_voice_id: Option<&'a String>,
    /// Whether style controls are present.
    pub has_style: bool,
    /// Style language hint.
    pub language: Option<&'a String>,
    /// Style emotion hint.
    pub emotion: Option<&'a String>,
    /// Speaking-rate multiplier, zero when unset.
    pub speaking_rate: F32Bits,
    /// Whether the speaking rate is set.
    pub has_speaking_rate: bool,
    /// Pitch shift, zero when unset.
    pub pitch_shift: F32Bits,
    /// Whether the pitch shift is set.
    pub has_pitch_shift: bool,
    /// Energy scale, zero when unset.
    pub energy_scale: F32Bits,
    /// Whether the energy scale is set.
    pub has_energy_scale: bool,
    /// The style tags, when style controls are present.
    pub tags: Option<&'a StringMap>,
}

/// An optional bit pattern, zero when unset.
pub open spec fn bits_or_zero(v: Option<F32Bits>) -> F32Bits {
    match v {
        Some(b) => b,
        None => 0,
    }
}

/// `e` is the plain-value form of the voice condition `v`.
pub open spec fn voice_encoded(e: EncodedVoiceCondition, v: Option<VoiceCondition>) -> bool {
    let speaker = match v {
        Some(c) => c.speaker,
        None => None,
    };
    let style = match v {
        Some(c) => c.style,
        None => None,
    };
    &&& e.has_speaker == speaker is Some
    &&& e.speaker_audio == audio_view_of(
        match speaker {
            Some(s) => s.audio,
            None => None,
        },
    )
    &&& e.has_speaker_audio == (speaker matches Some(s) && s.audio is Some)
    &&& ref_text(e.cached_voice_id) == match speaker {
        Some(s) => own_text(s.cached_voice_id),
        None => None,
    }
    &&& e.has_style == style is Some
    &&& ref_text(e.language) == match style {
        Some(st) => own_text(st.language),
        None => None,
    }
    &&& ref_text(e.emotion) == match style {
        Some(st) => own_text(st.emotion),
        None => None,
    }
    &&& e.speaking_rate == match style {
        Some(st) => bits_or_zero(st.speaking_rate),
        None => 0,
    }
    &&& e.has_speaking_rate == (style matches Some(st) && st.speaking_rate is Some)
    &&& e.pitch_shift == match style {
        Some(st) => bits_or_zero(st.pitch_shift),
        None => 0,
    }
    &&& e.has_pitch_shift == (style matches Some(st) && st.pitch_shift is Some)
    &&& e.energy_scale == match style {
        Some(st) => bits_or_zero(st.energy_scale),
        None => 0,
    }
    &&& e.has_energy_scale == (style matches Some(st) && st.energy_scale is Some)
    &&& match e.tags {
        Some(t) => style matches Some(st) && *t == st.tags,
        None => style is None,
    }
}

/// Optional borrow of an optional string.
fn opt_ref<'a>(v: &'a Option<String>) -> (r: Option<&'a String>)
    ensures
        ref_text(r) == own_text(*v),
{
    match v {
        Some(s) => Some(s),
        None => None,
    }
}

/// An optional bit pattern, zero when unset.
fn bits_or_zero_exec(v: Option<F32Bits>) -> (b: F32Bits)
    ensures
        b == bits_or_zero(v),
{
    match v {
        Some(b) => b,
        None => 0,
    }
}

/// The plain-value form of an optional voice condition.
pub fn encode_voice_condition<'a>(v: &'a Option<VoiceCondition>) -> (e: EncodedVoiceCondition<'a>)
    ensures
        voice_encoded(e, *v),
{
    let none: Option<AudioBuffer> = None;
    let mut e = EncodedVoiceCondition {
        has_speaker: false,
        speaker_audio: audio_view(&none),
        has_speaker_audio: false,
        cached_voice_id: None,
        has_style: false,
        language: None,
        emotion: None,
        speaking_rate: 0,
        has_speaking_rate: false,
        pitch_shift: 0,
        has_pitch_shift: false,
        energy_scale: 0,
        has_energy_scale: false,
        tags: None,
    };
    match v {
        Some(c) => {
            match &c.speaker {
                Some(s) => {
                    e.has_speaker = true;
                    e.speaker_audio = audio_view(&s.audio);
                    e.has_speaker_audio = s.audio.is_some();
                    e.cached_voice_id = opt_ref(&s.cached_voice_id);
                },
                None => {},
            }
            match &c.style {
                Some(st) => {
                    e.has_style = true;
                    e.language = opt_ref(&st.language);
                    e.emotion = opt_ref(&st.emotion);
                    e.speaking_rate = bits_or_zero_exec(st.speaking_rate);
                    e.has_speaking_rate = st.speaking_rate.is_some();
                    e.pitch_shift = bits_or_zero_exec(st.pitch_shift);
                    e.has_pitch_shift = st.pitch_shift.is_some();
                    e.energy_scale = bits_or_zero_exec(st.energy_scale);
                    e.has_energy_scale = st.energy_scale.is_some();
                    e.tags = Some(&st.tags);
                },
                None => {},
            }
        },
        None => {},
    }
    e
}

/// Plain-value form of the native model-load request.
#[derive(Debug, Clone, Copy)]
pub struct EncodedLoadRequest<'a> {
    /// Model file or directory.
    pub model_path: &'a String,
    /// Optional model-spec override path.
    pub model_spec_override: Option<&'a String>,
    /// Optional family hint.
    pub family_hint: Option<&'a String>,
    /// Optional config identifier.
    pub config_id: Option<&'a String>,
    /// Optional weight identifier.
    pub weight_id: Option<&'a String>,
    /// Loader options; their number is the native option count.
    pub options: &'a StringMap,
}

impl<'a> EncodedLoadRequest<'a> {
    /// Encodes a model-load request, refusing the first text in
    /// [`load_request_texts`] order that holds an interior NUL.
    pub fn new(request: &'a ModelLoadRequest) -> (r: Result<EncodedLoadRequest<'a>, Error>)
        ensures
            match first_nul_in(load_request_texts(*request)) {
                Some(p) => r == Err::<EncodedLoadRequest, Error>(Error::Nul(p as usize)),
                None => r matches Ok(e) && *e.model_path == request.model_path && ref_text(
                    e.model_spec_override,
                ) == own_text(request.model_spec_override) && ref_text(e.family_hint) == own_text(
                    request.family_hint,
                ) && ref_text(e.config_id) == own_text(request.config_id) && ref_text(e.weight_id)
                    == own_text(request.weight_id) && *e.options == request.options,
            },
    {
        let mut texts: Vec<&str> = Vec::new();
        push_text(&mut texts, &request.model_path);
        push_opt_text(&mut texts, &request.model_spec_override);
        push_opt_text(&mut texts, &request.family_hint);
        push_opt_text(&mut texts, &request.config_id);
        push_opt_text(&mut texts, &request.weight_id);
        push_map_texts(&mut texts, &request.options);
        assert(list_view(texts@) =~= load_request_texts(*request));
        match first_nul_error(&texts) {
            Some(e) => Err(e),
            None => Ok(
                EncodedLoadRequest {
                    model_path: &request.model_path,
                    model_spec_override: opt_ref(&request.model_spec_override),
                    family_hint: opt_ref(&request.family_hint),
                    config_id: opt_ref(&request.config_id),
                    weight_id: opt_ref(&request.weight_id),
                    options: &request.options,
                },
            ),
        }
    }
}

/// Plain-value form of one native artifact view.
#[derive(Debug, Clone, Copy)]
pub struct EncodedArtifact<'a> {
    /// Artifact class.
    pub kind: ArtifactKind,
    /// Artifact identifier.
    pub id: &'a String,
    /// Payload length in bytes.
    pub payload_size: usize,
    /// Artifact metadata.
    pub meta: &'a StringMap,
}

/// Plain-value form of the native task request.
#[derive(Debug)]
pub struct EncodedTaskRequest<'a> {
    /// Text input.
    pub text: Option<&'a Transcript>,
    /// View of the input audio.
    pub audio: AudioView,
    /// Whether input audio is present.
    pub has_audio: bool,
    /// Voice condition.
    pub voice: EncodedVoiceCondition<'a>,
    /// Whether a voice condition is present.
    pub has_voice: bool,
    /// Input artifacts.
    pub artifacts: Vec<EncodedArtifact<'a>>,
    /// The typed options encoded into the runtime's string map.
    pub options: StringMap,
}

/// `e` holds the artifacts `a` in order.
pub open spec fn artifacts_encoded(e: Seq<EncodedArtifact>, a: Seq<VoiceArtifact>) -> bool {
    &&& e.len() == a.len()
    &&& forall|i: int|
        0 <= i < a.len() ==> (#[trigger] e[i]).kind == a[i].kind && *e[i].id == a[i].id
            && e[i].payload_size == a[i].payload@.len() && *e[i].meta == a[i].meta
}

/// `e` is the text input `t`.
pub open spec fn text_encoded(e: Option<&Transcript>, t: Option<Transcript>) -> bool {
    match e {
        Some(x) => t == Some(*x),
        None => t is None,
    }
}

impl<'a> EncodedTaskRequest<'a> {
    /// Encodes a task request, refusing the first text in
    /// [`task_request_texts`] order that holds an interior NUL.
    pub fn new(request: &'a TaskRequest) -> (r: Result<EncodedTaskRequest<'a>, Error>)
        ensures
            match first_nul_in(task_request_texts(*request)) {
                Some(p) => r matches Err(e) && e == Error::Nul(p as usize),
                None => r matches Ok(e) && e.options@ == encoded_options(request.options)
                    && text_encoded(e.text, request.text) && e.audio == audio_view_of(request.audio)
                    && e.has_audio == request.audio is Some && voice_encoded(e.voice, request.voice)
                    && e.has_voice == request.voice is Some && artifacts_encoded(
                    e.artifacts@,
                    request.artifacts@,
                ),
            },
    {
        let options = request.options.encode();
        let check = {
            let mut texts: Vec<&str> = Vec::new();
            push_map_texts(&mut texts, &options);
            push_style_tag_texts(&mut texts, &request.voice);
            push_artifact_texts(&mut texts, &request.artifacts);
            push_transcript_texts(&mut texts, &request.text);
            push_voice_texts(&mut texts, &request.voice);
            assert(list_view(texts@) =~= task_request_texts(*request));
            first_nul_error(&texts)
        };
        match check {
            Some(e) => {
                return Err(e);
            },
            None => {},
        }
        let mut artifacts: Vec<EncodedArtifact<'a>> = Vec::new();
        let mut i: usize = 0;
        while i < request.artifacts.len()
            invariant
                0 <= i <= request.artifacts@.len(),
                artifacts_encoded(artifacts@, request.artifacts@.take(i as int)),
            decreases request.artifacts@.len() - i,
        {
            let a = &request.artifacts[i];
            artifacts.push(
                EncodedArtifact { kind: a.kind, id: &a.id, payload_size: a.payload.len(), meta: &a.meta },
            );
            i = i + 1;
        }
        assert(request.artifacts@.take(i as int) =~= request.artifacts@);
        let text = match &request.text {
            Some(t) => Some(t),
            None => None,
        };
        Ok(
            EncodedTaskRequest {
                text,
                audio: audio_view(&request.audio),
                has_audio: request.audio.is_some(),
                voice: encode_voice_condition(&request.voice),
                has_voice: request.voice.is_some(),
                artifacts,
                options,
            },
        )
    }
}

/// Plain-value form of the native session-preparation request.
#[derive(Debug, Clone, Copy)]
pub struct EncodedPrepRequest<'a> {
    /// Expected sample rate, zero without an audio contract.
    pub audio_sample_rate: i32,
    /// Expected channel count, zero without an audio contract.
    pub audio_channels: i32,
    /// Maximum input samples, zero without an audio contract.
    pub max_input_samples: i64,
    /// Whether an audio contract is present.
    pub has_audio: bool,
    /// Text used to size graphs.
    pub text: Option<&'a Transcript>,
    /// Voice condition.
    pub voice: EncodedVoiceCondition<'a>,
    /// Whether a voice condition is present.
    pub has_voice: bool,
    /// Model-specific options.
    pub options: &'a StringMap,
}

impl<'a> EncodedPrepRequest<'a> {
    /// Encodes a preparation request, refusing the first text in
    /// [`prep_request_texts`] order that holds an interior NUL.
    pub fn new(request: &'a SessionPreparationRequest) -> (r: Result<EncodedPrepRequest<'a>, Error>)
        ensures
            match first_nul_in(prep_request_texts(*request)) {
                Some(p) => r == Err::<EncodedPrepRequest, Error>(Error::Nul(p as usize)),
                None => r matches Ok(e) && *e.options == request.options && text_encoded(
                    e.text,
                    request.text,
                ) && voice_encoded(e.voice, request.voice) && e.has_voice == request.voice is Some
                    && e.has_audio == request.audio is Some && match request.audio {
                    Some(a) => e.audio_sample_rate == a.sample_rate && e.audio_channels == a.channels
                        && e.max_input_samples == a.max_input_samples,
                    None => e.audio_sample_rate == 0 && e.audio_channels == 0 && e.max_input_samples
                        == 0,
                },
            },
    {
        let mut texts: Vec<&str> = Vec::new();
        push_map_texts(&mut texts, &request.options);
        push_style_tag_texts(&mut texts, &request.voice);
        push_transcript_texts(&mut texts, &request.text);
        push_voice_texts(&mut texts, &request.voice);
        assert(list_view(texts@) =~= prep_request_texts(*request));
        match first_nul_error(&texts) {
            Some(e) => {
                return Err(e);
            },
            None => {},
        }
        let text = match &request.text {
            Some(t) => Some(t),
            None => None,
        };
        let (audio_sample_rate, audio_channels, max_input_samples, has_audio) = match request.audio {
            Some(a) => (a.sample_rate, a.channels, a.max_input_samples, true),
            None => (0, 0, 0, false),
        };
        Ok(
            EncodedPrepRequest {
                audio_sample_rate,
                audio_channels,
                max_input_samples,
                has_audio,
                text,
                voice: encode_voice_condition(&request.voice),
                has_voice: request.voice.is_some(),
                options: &request.options,
            },
        )
    }
}

/// Plain-value form of the native session options.
#[derive(Debug, Clone, Copy)]
pub struct EncodedSessionOptions<'a> {
    /// Backend selection.
    pub backend: BackendConfig,
    /// Model-specific options.
    pub options: &'a StringMap,
}

impl<'a> EncodedSessionOptions<'a> {
    /// Encodes session options, refusing the first key or value, in key
    /// order, that holds an interior NUL.
    pub fn new(options: &'a SessionOptions) -> (r: Result<EncodedSessionOptions<'a>, Error>)
        ensures
            match first_nul_in(map_text_list(options.options@)) {
                Some(p) => r == Err::<EncodedSessionOptions, Error>(Error::Nul(p as usize)),
                None => r matches Ok(e) && e.backend == options.backend && *e.options == options.options,
            },
    {
        let mut texts: Vec<&str> = Vec::new();
        push_map_texts(&mut texts, &options.options);
        assert(list_view(texts@) =~= Seq::<Seq<char>>::empty() + map_text_list(options.options@));
        assert(Seq::<Seq<char>>::empty() + map_text_list(options.options@) =~= map_text_list(options.options@));
        match first_nul_error(&texts) {
            Some(e) => Err(e),
            None => Ok(EncodedSessionOptions { backend: options.backend, options: &options.options }),
        }
    }
}

/// Plain-value form of the native audio chunk.
#[derive(Debug, Clone, Copy, PartialEq, Eq, Structural)]
pub struct EncodedAudioChunk {
    /// Sample rate in Hz.
    pub sample_rate: i32,
    /// Channel count.
    pub channels: i32,
    /// Absolute start sample of the chunk.
    pub start_sample: i64,
    /// Number of interleaved samples.
    pub sample_count: usize,
}

/// The plain-value form of a streaming audio chunk.
pub fn encode_audio_chunk(chunk: &AudioChunk) -> (e: EncodedAudioChunk)
    ensures
        e == (EncodedAudioChunk {
            sample_rate: chunk.sample_rate,
            channels: chunk.channels,
            start_sample: chunk.start_sample,
            sample_count: chunk.samples@.len() as usize,
        }),
{
    EncodedAudioChunk {
        sample_rate: chunk.sample_rate,
        channels: chunk.channels,
        start_sample: chunk.start_sample,
        sample_count: chunk.samples.len(),
    }
}

} // verus!
