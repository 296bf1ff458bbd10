//! What the encoded request forms hold, field by field, stated directly over
//! the inputs: each encoded field carries the same-named field of the
//! request, in the request's order, and an absent part encodes to zeros.

use vstd::prelude::*;

use crate::encode::{
    artifact_texts, artifacts_encoded, audio_view_of, first_nul_in, lemma_first_nul_concat,
    load_request_texts, map_text_list, opt_texts, own_text, prep_request_texts, ref_text,
    style_tag_texts, task_request_texts, text_encoded, transcript_texts, voice_encoded, voice_texts,
    EncodedArtifact, EncodedVoiceCondition,
};
use crate::options::encoded_options;
use crate::text::nul_position;
use crate::types::{
    AudioBuffer, ModelLoadRequest, SessionPreparationRequest, StyleCondition, TaskRequest,
    Transcript, VoiceArtifact, VoiceCondition, VoiceReference,
};

verus! {

/// The audio view of a buffer holds its sample rate, channel count and
/// number of samples; no buffer gives all zeros.
pub proof fn law_audio_view_fields(b: AudioBuffer)
    ensures
        audio_view_of(Some(b)).sample_rate == b.sample_rate,
        audio_view_of(Some(b)).channels == b.channels,
        audio_view_of(Some(b)).sample_count == b.samples.len(),
        audio_view_of(None).sample_rate == 0,
        audio_view_of(None).channels == 0,
        audio_view_of(None).sample_count == 0,
{
}

/// An optional text, owned or borrowed, stands for the text it holds, or for
/// nothing.
pub proof fn law_optional_texts(s: String, r: &String)
    ensures
        own_text(Some(s)) == Some(s@),
        own_text(None) is None,
        ref_text(Some(r)) == Some(r@),
        ref_text(None) is None,
{
}

/// An encoded text input is the request's transcript itself, or absent when
/// the request has none.
pub proof fn law_text_input(e: Option<&Transcript>, t: Option<Transcript>)
    requires
        text_encoded(e, t),
    ensures
        t matches Some(x) ==> (e matches Some(y) && *y == x),
        t is None ==> e is None,
{
}

/// With a style present, every encoded style control is the same-named field
/// of the style: the language, the emotion, the speaking rate, the pitch
/// shift and the energy scale (each zero and flagged unset when the style
/// leaves it unset), and the style's own tags.
pub proof fn law_style_controls(e: EncodedVoiceCondition, c: VoiceCondition, st: StyleCondition)
    requires
        voice_encoded(e, Some(c)),
        c.style == Some(st),
    ensures
        e.has_style,
        st.language matches Some(l) ==> (e.language matches Some(x) && x@ == l@),
        st.language is None ==> e.language is None,
        st.emotion matches Some(m) ==> (e.emotion matches Some(x) && x@ == m@),
        st.emotion is None ==> e.emotion is None,
        e.has_speaking_rate == st.speaking_rate is Some,
        st.speaking_rate matches Some(b) ==> e.speaking_rate == b,
        st.speaking_rate is None ==> e.speaking_rate == 0,
        e.has_pitch_shift == st.pitch_shift is Some,
        st.pitch_shift matches Some(b) ==> e.pitch_shift == b,
        st.pitch_shift is None ==> e.pitch_shift == 0,
        e.has_energy_scale == st.energy_scale is Some,
        st.energy_scale matches Some(b) ==> e.energy_scale == b,
        st.energy_scale is None ==> e.energy_scale == 0,
        e.tags matches Some(t) && *t == st.tags,
{
}

/// With a speaker reference present, the encoding holds the speaker's audio
/// shape (zeros when it has no audio) and its cached voice identifier.
pub proof fn law_speaker_reference(e: EncodedVoiceCondition, c: VoiceCondition, s: VoiceReference)
    requires
        voice_encoded(e, Some(c)),
        c.speaker == Some(s),
    ensures
        e.has_speaker,
        e.has_speaker_audio == s.audio is Some,
        s.audio matches Some(a) ==> (e.speaker_audio.sample_rate == a.sample_rate
            && e.speaker_audio.channels == a.channels && e.speaker_audio.sample_count == a.samples.len()),
        s.audio is None ==> (e.speaker_audio.sample_rate == 0 && e.speaker_audio.channels == 0
            && e.speaker_audio.sample_count == 0),
        s.cached_voice_id matches Some(id) ==> (e.cached_voice_id matches Some(x) && x@ == id@),
        s.cached_voice_id is None ==> e.cached_voice_id is None,
{
}

/// Without a style, every style control encodes to zero, unset or absent.
pub proof fn law_absent_style(e: EncodedVoiceCondition, v: Option<VoiceCondition>)
    requires
        voice_encoded(e, v),
        v is None || v->0.style is None,
    ensures
        !e.has_style,
        e.language is None,
        e.emotion is None,
        e.speaking_rate == 0,
        !e.has_speaking_rate,
        e.pitch_shift == 0,
        !e.has_pitch_shift,
        e.energy_scale == 0,
        !e.has_energy_scale,
        e.tags is None,
{
}

/// Without a speaker reference, the speaker fields encode to zero, unset or
/// absent.
pub proof fn law_absent_speaker(e: EncodedVoiceCondition, v: Option<VoiceCondition>)
    requires
        voice_encoded(e, v),
        v is None || v->0.speaker is None,
    ensures
        !e.has_speaker,
        !e.has_speaker_audio,
        e.speaker_audio.sample_rate == 0,
        e.speaker_audio.channels == 0,
        e.speaker_audio.sample_count == 0,
        e.cached_voice_id is None,
{
}

/// The encoded artifacts are the request's artifacts in the request's order:
/// the i-th holds the kind, id, payload length and metadata of the i-th.
pub proof fn law_artifacts_in_request_order(e: Seq<EncodedArtifact>, a: Seq<VoiceArtifact>)
    requires
        artifacts_encoded(e, a),
    ensures
        e.len() == a.len(),
        forall|i: int| 0 <= i < a.len() ==> (#[trigger] e[i]).kind == a[i].kind,
        forall|i: int| 0 <= i < a.len() ==> (#[trigger] e[i]).id@ == a[i].id@,
        forall|i: int| 0 <= i < a.len() ==> (#[trigger] e[i]).payload_size == a[i].payload@.len(),
        forall|i: int| 0 <= i < a.len() ==> (#[trigger] e[i]).meta@ == a[i].meta@,
{
}


/// The first offending text of a list that starts with `x` is `x` when it
/// holds a NUL, otherwise the first of the rest.
proof fn lemma_first_nul_cons(x: Seq<char>, t: Seq<Seq<char>>)
    ensures
        first_nul_in(seq![x] + t) == match nul_position(x) {
            Some(p) => Some(p),
            None => first_nul_in(t),
        },
{
    assert((seq![x] + t).drop_first() =~= t);
    assert((seq![x] + t)[0] == x);
}

/// The first offending text of an optional text followed by more texts.
proof fn lemma_first_nul_opt(v: Option<String>, t: Seq<Seq<char>>)
    ensures
        first_nul_in(opt_texts(v) + t) == match v {
            Some(s) => match nul_position(s@) {
                Some(p) => Some(p),
                None => first_nul_in(t),
            },
            None => first_nul_in(t),
        },
{
    match v {
        Some(s) => {
            assert(opt_texts(v) == seq![s@]);
            lemma_first_nul_cons(s@, t);
        },
        None => {
            assert(opt_texts(v) + t =~= t);
        },
    }
}

/// The NUL that refuses a model-load request is that of the first offending
/// text in this order: the model path, the spec override, the family hint,
/// the config id, the weight id, then the loader options in key order.
pub proof fn law_load_request_check_order(r: ModelLoadRequest)
    ensures
        first_nul_in(load_request_texts(r)) == match nul_position(r.model_path@) {
            Some(p) => Some(p),
            None => match r.model_spec_override {
                Some(s) if nul_position(s@) is Some => nul_position(s@),
                _ => match r.family_hint {
                    Some(s) if nul_position(s@) is Some => nul_position(s@),
                    _ => match r.config_id {
                        Some(s) if nul_position(s@) is Some => nul_position(s@),
                        _ => match r.weight_id {
                            Some(s) if nul_position(s@) is Some => nul_position(s@),
                            _ => first_nul_in(map_text_list(r.options@)),
                        },
                    },
                },
            },
        },
{
    let m = map_text_list(r.options@);
    let w = opt_texts(r.weight_id) + m;
    let c = opt_texts(r.config_id) + w;
    let f = opt_texts(r.family_hint) + c;
    let o = opt_texts(r.model_spec_override) + f;
    assert(load_request_texts(r) =~= seq![r.model_path@] + o);
    lemma_first_nul_cons(r.model_path@, o);
    lemma_first_nul_opt(r.model_spec_override, f);
    lemma_first_nul_opt(r.family_hint, c);
    lemma_first_nul_opt(r.config_id, w);
    lemma_first_nul_opt(r.weight_id, m);
}

/// The texts of a transcript are checked text first, then language; a
/// voice condition's texts are the speaker's cached voice id, then the
/// style's language, then its emotion.
pub proof fn law_transcript_and_voice_texts(t: Transcript, c: VoiceCondition)
    ensures
        transcript_texts(Some(t)) == seq![t.text@, t.language@],
        transcript_texts(None) == Seq::<Seq<char>>::empty(),
        voice_texts(Some(c)) == (match c.speaker {
            Some(s) => opt_texts(s.cached_voice_id),
            None => Seq::empty(),
        }) + (match c.style {
            Some(st) => opt_texts(st.language) + opt_texts(st.emotion),
            None => Seq::empty(),
        }),
        voice_texts(None) == Seq::<Seq<char>>::empty(),
        style_tag_texts(Some(c)) == (match c.style {
            Some(st) => map_text_list(st.tags@),
            None => Seq::empty(),
        }),
        style_tag_texts(None) == Seq::<Seq<char>>::empty(),
{
}

/// An optional text is checked when present and adds nothing when absent.
pub proof fn law_opt_texts(s: String)
    ensures
        opt_texts(Some(s)) == seq![s@],
        opt_texts(None) == Seq::<Seq<char>>::empty(),
{
}

/// A task request is refused by the first offending text in this order: the
/// encoded options in key order, the style tags in key order, the
/// artifacts (each its metadata in key order, then its id), the transcript,
/// then the voice condition's texts.
pub proof fn law_task_request_check_order(r: TaskRequest)
    ensures
        first_nul_in(task_request_texts(r)) == match first_nul_in(map_text_list(encoded_options(r.options))) {
            Some(p) => Some(p),
            None => match first_nul_in(style_tag_texts(r.voice)) {
                Some(p) => Some(p),
                None => match first_nul_in(artifact_texts(r.artifacts@)) {
                    Some(p) => Some(p),
                    None => match first_nul_in(transcript_texts(r.text)) {
                        Some(p) => Some(p),
                        None => first_nul_in(voice_texts(r.voice)),
                    },
                },
            },
        },
{
    let a = map_text_list(encoded_options(r.options));
    let b = style_tag_texts(r.voice);
    let c = artifact_texts(r.artifacts@);
    let d = transcript_texts(r.text);
    let e = voice_texts(r.voice);
    assert(task_request_texts(r) =~= a + (b + (c + (d + e))));
    lemma_first_nul_concat(a, b + (c + (d + e)));
    lemma_first_nul_concat(b, c + (d + e));
    lemma_first_nul_concat(c, d + e);
    lemma_first_nul_concat(d, e);
}

/// A preparation request is refused by the first offending text in this
/// order: the options in key order, the style tags in key order, the
/// transcript, then the voice condition's texts.
pub proof fn law_prep_request_check_order(r: SessionPreparationRequest)
    ensures
        first_nul_in(prep_request_texts(r)) == match first_nul_in(map_text_list(r.options@)) {
            Some(p) => Some(p),
            None => match first_nul_in(style_tag_texts(r.voice)) {
                Some(p) => Some(p),
                None => match first_nul_in(transcript_texts(r.text)) {
                    Some(p) => Some(p),
                    None => first_nul_in(voice_texts(r.voice)),
                },
            },
        },
{
    let a = map_text_list(r.options@);
    let b = style_tag_texts(r.voice);
    let d = transcript_texts(r.text);
    let e = voice_texts(r.voice);
    assert(prep_request_texts(r) =~= a + (b + (d + e)));
    lemma_first_nul_concat(a, b + (d + e));
    lemma_first_nul_concat(b, d + e);
    lemma_first_nul_concat(d, e);
}

/// The artifacts' texts are checked artifact by artifact in request order,
/// each its metadata in key order and then its id.
pub proof fn law_artifact_texts(a: Seq<VoiceArtifact>, x: VoiceArtifact)
    ensures
        artifact_texts(Seq::empty()) == Seq::<Seq<char>>::empty(),
        artifact_texts(a.push(x)) == artifact_texts(a) + map_text_list(x.meta@) + seq![x.id@],
{
    assert(a.push(x).drop_last() =~= a);
}

} // verus!
