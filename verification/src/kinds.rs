//! Named enumerations of the runtime: task kinds, run modes, backends,
//! artifact kinds and streaming event classes, with their canonical names.

use vstd::prelude::*;

use crate::error::{check, spec_kind_of, Error, ErrorKind, Status};
use crate::text::{concat, find_nul, nul_position, same_text};

verus! {

/// The result of parsing a name with the runtime's own parser: the kind it
/// wrote when it reported success, otherwise its error with the runtime's
/// last error message.
pub fn runtime_parse_result<T>(status: Status, parsed: T, last_error: &str) -> (r: Result<T, Error>)
    ensures
        status == Status::Success ==> r == Ok::<T, Error>(parsed),
        status != Status::Success ==> (r matches Err(e) && e matches Error::Native { kind, message }
            && spec_kind_of(status) == Some(kind) && message@ == last_error@),
{
    match check(status, last_error) {
        Ok(()) => Ok(parsed),
        Err(e) => Err(e),
    }
}

/// `e` is the error that parsing `text` as a name of a `what` gives when no
/// name matches: an interior NUL is reported first, as `CString::new` does;
/// otherwise a native error of class `Unsupported`, the class the runtime's
/// parser reports for an unknown name. The message is this library's own
/// text naming the input, not the runtime's last-error text.
pub open spec fn is_name_error(e: Error, text: Seq<char>, what: Seq<char>) -> bool {
    match nul_position(text) {
        Some(p) => e == Error::Nul(p as usize),
        None => e matches Error::Native { kind, message } && kind == ErrorKind::Unsupported
            && message@ == "unknown "@ + what + " `"@ + text + "`"@,
    }
}

/// The error for a text that names no `what`.
fn name_error(text: &str, what: &str) -> (e: Error)
    ensures
        is_name_error(e, text@, what@),
{
    match find_nul(text) {
        Some(p) => Error::Nul(p),
        None => {
            let a = concat("unknown ", what);
            let b = concat(a.as_str(), " `");
            let c = concat(b.as_str(), text);
            let message = concat(c.as_str(), "`");
            Error::Native { kind: ErrorKind::Unsupported, message }
        },
    }
}

/// Voice task advertised by a model.
#[derive(Debug, Clone, Copy, PartialEq, Eq, Hash, Structural)]
#[non_exhaustive]
pub enum VoiceTaskKind {
    /// Upstream name `vad`.
    Vad,
    /// Upstream name `asr`.
    Asr,
    /// Upstream name `diar`.
    Diarization,
    /// Upstream name `sep`.
    SourceSeparation,
    /// Upstream name `gen`.
    AudioGeneration,
    /// Upstream name `tts`.
    Tts,
    /// Upstream name `clon`.
    VoiceCloning,
    /// Upstream name `vc`.
    VoiceConversion,
    /// Upstream name `s2s`.
    SpeechToSpeech,
    /// Upstream name `align`.
    Alignment,
    /// Upstream name `vdes`.
    VoiceDesign,
    /// Upstream name `spk`.
    SpeakerRecognition,
    /// Upstream name `svc`.
    Svc,
    /// Upstream name `midi`.
    Midi,
}

/// The canonical `audio.cpp` name of each voice task kind.
pub open spec fn voice_task_kind_name(k: VoiceTaskKind) -> Seq<char> {
    match k {
        VoiceTaskKind::Vad => "vad"@,
        VoiceTaskKind::Asr => "asr"@,
        VoiceTaskKind::Diarization => "diar"@,
        VoiceTaskKind::SourceSeparation => "sep"@,
        VoiceTaskKind::AudioGeneration => "gen"@,
        VoiceTaskKind::Tts => "tts"@,
        VoiceTaskKind::VoiceCloning => "clon"@,
        VoiceTaskKind::VoiceConversion => "vc"@,
        VoiceTaskKind::SpeechToSpeech => "s2s"@,
        VoiceTaskKind::Alignment => "align"@,
        VoiceTaskKind::VoiceDesign => "vdes"@,
        VoiceTaskKind::SpeakerRecognition => "spk"@,
        VoiceTaskKind::Svc => "svc"@,
        VoiceTaskKind::Midi => "midi"@,
    }
}

/// The voice task kind that a text names: a canonical name, or `None`.
pub open spec fn voice_task_kind_named(text: Seq<char>) -> Option<VoiceTaskKind> {
    if text == "vad"@ {
        Some(VoiceTaskKind::Vad)
    } else if text == "asr"@ {
        Some(VoiceTaskKind::Asr)
    } else if text == "diar"@ {
        Some(VoiceTaskKind::Diarization)
    } else if text == "sep"@ {
        Some(VoiceTaskKind::SourceSeparation)
    } else if text == "gen"@ {
        Some(VoiceTaskKind::AudioGeneration)
    } else if text == "tts"@ {
        Some(VoiceTaskKind::Tts)
    } else if text == "clon"@ {
        Some(VoiceTaskKind::VoiceCloning)
    } else if text == "vc"@ {
        Some(VoiceTaskKind::VoiceConversion)
    } else if text == "s2s"@ {
        Some(VoiceTaskKind::SpeechToSpeech)
    } else if text == "align"@ {
        Some(VoiceTaskKind::Alignment)
    } else if text == "vdes"@ {
        Some(VoiceTaskKind::VoiceDesign)
    } else if text == "spk"@ {
        Some(VoiceTaskKind::SpeakerRecognition)
    } else if text == "svc"@ {
        Some(VoiceTaskKind::Svc)
    } else if text == "midi"@ {
        Some(VoiceTaskKind::Midi)
    } else {
        None
    }
}

impl VoiceTaskKind {
    /// Canonical `audio.cpp` string name.
    pub fn as_str(self) -> (s: &'static str)
        ensures
            s@ == voice_task_kind_name(self),
    {
        match self {
            VoiceTaskKind::Vad => "vad",
            VoiceTaskKind::Asr => "asr",
            VoiceTaskKind::Diarization => "diar",
            VoiceTaskKind::SourceSeparation => "sep",
            VoiceTaskKind::AudioGeneration => "gen",
            VoiceTaskKind::Tts => "tts",
            VoiceTaskKind::VoiceCloning => "clon",
            VoiceTaskKind::VoiceConversion => "vc",
            VoiceTaskKind::SpeechToSpeech => "s2s",
            VoiceTaskKind::Alignment => "align",
            VoiceTaskKind::VoiceDesign => "vdes",
            VoiceTaskKind::SpeakerRecognition => "spk",
            VoiceTaskKind::Svc => "svc",
            VoiceTaskKind::Midi => "midi",
        }
    }

    /// Parses a canonical name. An unknown name gives an `Unsupported` error
    /// whose message is this library's own.
    pub fn parse(text: &str) -> (r: Result<VoiceTaskKind, Error>)
        ensures
            match voice_task_kind_named(text@) {
                Some(k) => r == Ok::<VoiceTaskKind, Error>(k),
                None => r matches Err(e) && is_name_error(e, text@, "voice task kind"@),
            },
    {
        if same_text(text, "vad") {
            return Ok(VoiceTaskKind::Vad);
        }
        if same_text(text, "asr") {
            return Ok(VoiceTaskKind::Asr);
        }
        if same_text(text, "diar") {
            return Ok(VoiceTaskKind::Diarization);
        }
        if same_text(text, "sep") {
            return Ok(VoiceTaskKind::SourceSeparation);
        }
        if same_text(text, "gen") {
            return Ok(VoiceTaskKind::AudioGeneration);
        }
        if same_text(text, "tts") {
            return Ok(VoiceTaskKind::Tts);
        }
        if same_text(text, "clon") {
            return Ok(VoiceTaskKind::VoiceCloning);
        }
        if same_text(text, "vc") {
            return Ok(VoiceTaskKind::VoiceConversion);
        }
        if same_text(text, "s2s") {
            return Ok(VoiceTaskKind::SpeechToSpeech);
        }
        if same_text(text, "align") {
            return Ok(VoiceTaskKind::Alignment);
        }
        if same_text(text, "vdes") {
            return Ok(VoiceTaskKind::VoiceDesign);
        }
        if same_text(text, "spk") {
            return Ok(VoiceTaskKind::SpeakerRecognition);
        }
        if same_text(text, "svc") {
            return Ok(VoiceTaskKind::Svc);
        }
        if same_text(text, "midi") {
            return Ok(VoiceTaskKind::Midi);
        }
        Err(name_error(text, "voice task kind"))
    }
}

impl std::str::FromStr for VoiceTaskKind {
    type Err = Error;

    fn from_str(s: &str) -> (r: Result<VoiceTaskKind, Error>)
        ensures
            match voice_task_kind_named(s@) {
                Some(k) => r == Ok::<VoiceTaskKind, Error>(k),
                None => r matches Err(e) && is_name_error(e, s@, "voice task kind"@),
            },
    {
        VoiceTaskKind::parse(s)
    }
}

/// Every voice task kind parses back from its canonical name, and a parsed name is
/// the canonical name of the result.
pub proof fn lemma_voice_task_kind_names(k: VoiceTaskKind, text: Seq<char>)
    ensures
        voice_task_kind_named(voice_task_kind_name(k)) == Some(k),
        voice_task_kind_named(text) matches Some(k2) ==> text == voice_task_kind_name(k2),
{
    reveal_strlit("vad");
    reveal_strlit("asr");
    reveal_strlit("diar");
    reveal_strlit("sep");
    reveal_strlit("gen");
    reveal_strlit("tts");
    reveal_strlit("clon");
    reveal_strlit("vc");
    reveal_strlit("s2s");
    reveal_strlit("align");
    reveal_strlit("vdes");
    reveal_strlit("spk");
    reveal_strlit("svc");
    reveal_strlit("midi");
    match k {
        VoiceTaskKind::Vad => {
        },
        VoiceTaskKind::Asr => {
            assert("asr"@[0] != "vad"@[0]);
        },
        VoiceTaskKind::Diarization => {
            assert("diar"@.len() != "vad"@.len());
            assert("diar"@.len() != "asr"@.len());
        },
        VoiceTaskKind::SourceSeparation => {
            assert("sep"@[0] != "vad"@[0]);
            assert("sep"@[0] != "asr"@[0]);
            assert("sep"@.len() != "diar"@.len());
        },
        VoiceTaskKind::AudioGeneration => {
            assert("gen"@[0] != "vad"@[0]);
            assert("gen"@[0] != "asr"@[0]);
            assert("gen"@.len() != "diar"@.len());
            assert("gen"@[0] != "sep"@[0]);
        },
        VoiceTaskKind::Tts => {
            assert("tts"@[0] != "vad"@[0]);
            assert("tts"@[0] != "asr"@[0]);
            assert("tts"@.len() != "diar"@.len());
            assert("tts"@[0] != "sep"@[0]);
            assert("tts"@[0] != "gen"@[0]);
        },
        VoiceTaskKind::VoiceCloning => {
            assert("clon"@.len() != "vad"@.len());
            assert("clon"@.len() != "asr"@.len());
            assert("clon"@[0] != "diar"@[0]);
            assert("clon"@.len() != "sep"@.len());
            assert("clon"@.len() != "gen"@.len());
            assert("clon"@.len() != "tts"@.len());
        },
        VoiceTaskKind::VoiceConversion => {
            assert("vc"@.len() != "vad"@.len());
            assert("vc"@.len() != "asr"@.len());
            assert("vc"@.len() != "diar"@.len());
            assert("vc"@.len() != "sep"@.len());
            assert("vc"@.len() != "gen"@.len());
            assert("vc"@.len() != "tts"@.len());
            assert("vc"@.len() != "clon"@.len());
        },
        VoiceTaskKind::SpeechToSpeech => {
            assert("s2s"@[0] != "vad"@[0]);
            assert("s2s"@[0] != "asr"@[0]);
            assert("s2s"@.len() != "diar"@.len());
            assert("s2s"@[1] != "sep"@[1]);
            assert("s2s"@[0] != "gen"@[0]);
            assert("s2s"@[0] != "tts"@[0]);
            assert("s2s"@.len() != "clon"@.len());
            assert("s2s"@.len() != "vc"@.len());
        },
        VoiceTaskKind::Alignment => {
            assert("align"@.len() != "vad"@.len());
            assert("align"@.len() != "asr"@.len());
            assert("align"@.len() != "diar"@.len());
            assert("align"@.len() != "sep"@.len());
            assert("align"@.len() != "gen"@.len());
            assert("align"@.len() != "tts"@.len());
            assert("align"@.len() != "clon"@.len());
            assert("align"@.len() != "vc"@.len());
            assert("align"@.len() != "s2s"@.len());
        },
        VoiceTaskKind::VoiceDesign => {
            assert("vdes"@.len() != "vad"@.len());
            assert("vdes"@.len() != "asr"@.len());
            assert("vdes"@[0] != "diar"@[0]);
            assert("vdes"@.len() != "sep"@.len());
            assert("vdes"@.len() != "gen"@.len());
            assert("vdes"@.len() != "tts"@.len());
            assert("vdes"@[0] != "clon"@[0]);
            assert("vdes"@.len() != "vc"@.len());
            assert("vdes"@.len() != "s2s"@.len());
            assert("vdes"@.len() != "align"@.len());
        },
        VoiceTaskKind::SpeakerRecognition => {
            assert("spk"@[0] != "vad"@[0]);
            assert("spk"@[0] != "asr"@[0]);
            assert("spk"@.len() != "diar"@.len());
            assert("spk"@[1] != "sep"@[1]);
            assert("spk"@[0] != "gen"@[0]);
            assert("spk"@[0] != "tts"@[0]);
            assert("spk"@.len() != "clon"@.len());
            assert("spk"@.len() != "vc"@.len());
            assert("spk"@[1] != "s2s"@[1]);
            assert("spk"@.len() != "align"@.len());
            assert("spk"@.len() != "vdes"@.len());
        },
        VoiceTaskKind::Svc => {
            assert("svc"@[0] != "vad"@[0]);
            assert("svc"@[0] != "asr"@[0]);
            assert("svc"@.len() != "diar"@.len());
            assert("svc"@[1] != "sep"@[1]);
            assert("svc"@[0] != "gen"@[0]);
            assert("svc"@[0] != "tts"@[0]);
            assert("svc"@.len() != "clon"@.len());
            assert("svc"@.len() != "vc"@.len());
            assert("svc"@[1] != "s2s"@[1]);
            assert("svc"@.len() != "align"@.len());
            assert("svc"@.len() != "vdes"@.len());
            assert("svc"@[1] != "spk"@[1]);
        },
        VoiceTaskKind::Midi => {
            assert("midi"@.len() != "vad"@.len());
            assert("midi"@.len() != "asr"@.len());
            assert("midi"@[0] != "diar"@[0]);
            assert("midi"@.len() != "sep"@.len());
            assert("midi"@.len() != "gen"@.len());
            assert("midi"@.len() != "tts"@.len());
            assert("midi"@[0] != "clon"@[0]);
            assert("midi"@.len() != "vc"@.len());
            assert("midi"@.len() != "s2s"@.len());
            assert("midi"@.len() != "align"@.len());
            assert("midi"@[0] != "vdes"@[0]);
            assert("midi"@.len() != "spk"@.len());
            assert("midi"@.len() != "svc"@.len());
        },
    }
}

/// Offline or streaming execution mode.
#[derive(Debug, Clone, Copy, PartialEq, Eq, Hash, Structural)]
#[non_exhaustive]
pub enum RunMode {
    /// Upstream name `offline`.
    Offline,
    /// Upstream name `streaming`.
    Streaming,
}

/// The canonical `audio.cpp` name of each run mode.
pub open spec fn run_mode_name(k: RunMode) -> Seq<char> {
    match k {
        RunMode::Offline => "offline"@,
        RunMode::Streaming => "streaming"@,
    }
}

/// The run mode that a text names: a canonical name, or `None`.
pub open spec fn run_mode_named(text: Seq<char>) -> Option<RunMode> {
    if text == "offline"@ {
        Some(RunMode::Offline)
    } else if text == "streaming"@ {
        Some(RunMode::Streaming)
    } else {
        None
    }
}

impl RunMode {
    /// Canonical `audio.cpp` string name.
    pub fn as_str(self) -> (s: &'static str)
        ensures
            s@ == run_mode_name(self),
    {
        match self {
            RunMode::Offline => "offline",
            RunMode::Streaming => "streaming",
        }
    }

    /// Parses a canonical name. An unknown name gives an `Unsupported` error
    /// whose message is this library's own.
    pub fn parse(text: &str) -> (r: Result<RunMode, Error>)
        ensures
            match run_mode_named(text@) {
                Some(k) => r == Ok::<RunMode, Error>(k),
                None => r matches Err(e) && is_name_error(e, text@, "run mode"@),
            },
    {
        if same_text(text, "offline") {
            return Ok(RunMode::Offline);
        }
        if same_text(text, "streaming") {
            return Ok(RunMode::Streaming);
        }
        Err(name_error(text, "run mode"))
    }
}

impl std::str::FromStr for RunMode {
    type Err = Error;

    fn from_str(s: &str) -> (r: Result<RunMode, Error>)
        ensures
            match run_mode_named(s@) {
                Some(k) => r == Ok::<RunMode, Error>(k),
                None => r matches Err(e) && is_name_error(e, s@, "run mode"@),
            },
    {
        RunMode::parse(s)
    }
}

/// Every run mode parses back from its canonical name, and a parsed name is
/// the canonical name of the result.
pub proof fn lemma_run_mode_names(k: RunMode, text: Seq<char>)
    ensures
        run_mode_named(run_mode_name(k)) == Some(k),
        run_mode_named(text) matches Some(k2) ==> text == run_mode_name(k2),
{
    reveal_strlit("offline");
    reveal_strlit("streaming");
    match k {
        RunMode::Offline => {
        },
        RunMode::Streaming => {
            assert("streaming"@.len() != "offline"@.len());
        },
    }
}

/// Compute backend requested for a session.
#[derive(Debug, Clone, Copy, PartialEq, Eq, Hash, Structural)]
#[non_exhaustive]
pub enum BackendType {
    /// Upstream name `cpu`.
    Cpu,
    /// Upstream name `cuda`.
    Cuda,
    /// Upstream name `hip`.
    Hip,
    /// Upstream name `vulkan`.
    Vulkan,
    /// Upstream name `metal`.
    Metal,
    /// Upstream name `best`.
    BestAvailable,
}

/// The canonical `audio.cpp` name of each backend type.
pub open spec fn backend_type_name(k: BackendType) -> Seq<char> {
    match k {
        BackendType::Cpu => "cpu"@,
        BackendType::Cuda => "cuda"@,
        BackendType::Hip => "hip"@,
        BackendType::Vulkan => "vulkan"@,
        BackendType::Metal => "metal"@,
        BackendType::BestAvailable => "best"@,
    }
}

/// The backend type that a text names: a canonical name and `rocm` for `Hip`, or `None`.
pub open spec fn backend_type_named(text: Seq<char>) -> Option<BackendType> {
    if text == "cpu"@ {
        Some(BackendType::Cpu)
    } else if text == "cuda"@ {
        Some(BackendType::Cuda)
    } else if text == "hip"@ {
        Some(BackendType::Hip)
    } else if text == "vulkan"@ {
        Some(BackendType::Vulkan)
    } else if text == "metal"@ {
        Some(BackendType::Metal)
    } else if text == "best"@ {
        Some(BackendType::BestAvailable)
    } else if text == "rocm"@ {
        Some(BackendType::Hip)
    } else {
        None
    }
}

impl BackendType {
    /// Canonical `audio.cpp` string name.
    pub fn as_str(self) -> (s: &'static str)
        ensures
            s@ == backend_type_name(self),
    {
        match self {
            BackendType::Cpu => "cpu",
            BackendType::Cuda => "cuda",
            BackendType::Hip => "hip",
            BackendType::Vulkan => "vulkan",
            BackendType::Metal => "metal",
            BackendType::BestAvailable => "best",
        }
    }

    /// Parses a name: the canonical names and `rocm` for `Hip`. An unknown name
    /// gives an `Unsupported` error whose message is this library's own.
    pub fn parse(text: &str) -> (r: Result<BackendType, Error>)
        ensures
            match backend_type_named(text@) {
                Some(k) => r == Ok::<BackendType, Error>(k),
                None => r matches Err(e) && is_name_error(e, text@, "backend type"@),
            },
    {
        if same_text(text, "cpu") {
            return Ok(BackendType::Cpu);
        }
        if same_text(text, "cuda") {
            return Ok(BackendType::Cuda);
        }
        if same_text(text, "hip") {
            return Ok(BackendType::Hip);
        }
        if same_text(text, "vulkan") {
            return Ok(BackendType::Vulkan);
        }
        if same_text(text, "metal") {
            return Ok(BackendType::Metal);
        }
        if same_text(text, "best") {
            return Ok(BackendType::BestAvailable);
        }
        if same_text(text, "rocm") {
            return Ok(BackendType::Hip);
        }
        Err(name_error(text, "backend type"))
    }
}

impl std::str::FromStr for BackendType {
    type Err = Error;

    fn from_str(s: &str) -> (r: Result<BackendType, Error>)
        ensures
            match backend_type_named(s@) {
                Some(k) => r == Ok::<BackendType, Error>(k),
                None => r matches Err(e) && is_name_error(e, s@, "backend type"@),
            },
    {
        BackendType::parse(s)
    }
}

/// Every backend type parses back from its canonical name, and a parsed name is
/// the canonical name of the result or an alias.
pub proof fn lemma_backend_type_names(k: BackendType, text: Seq<char>)
    ensures
        backend_type_named(backend_type_name(k)) == Some(k),
        backend_type_named(text) matches Some(k2) ==> text == backend_type_name(k2) || (text == "rocm"@ && k2 == BackendType::Hip),
{
    reveal_strlit("cpu");
    reveal_strlit("cuda");
    reveal_strlit("hip");
    reveal_strlit("vulkan");
    reveal_strlit("metal");
    reveal_strlit("best");
    reveal_strlit("rocm");
    match k {
        BackendType::Cpu => {
        },
        BackendType::Cuda => {
            assert("cuda"@.len() != "cpu"@.len());
        },
        BackendType::Hip => {
            assert("hip"@[0] != "cpu"@[0]);
            assert("hip"@.len() != "cuda"@.len());
        },
        BackendType::Vulkan => {
            assert("vulkan"@.len() != "cpu"@.len());
            assert("vulkan"@.len() != "cuda"@.len());
            assert("vulkan"@.len() != "hip"@.len());
        },
        BackendType::Metal => {
            assert("metal"@.len() != "cpu"@.len());
            assert("metal"@.len() != "cuda"@.len());
            assert("metal"@.len() != "hip"@.len());
            assert("metal"@.len() != "vulkan"@.len());
        },
        BackendType::BestAvailable => {
            assert("best"@.len() != "cpu"@.len());
            assert("best"@[0] != "cuda"@[0]);
            assert("best"@.len() != "hip"@.len());
            assert("best"@.len() != "vulkan"@.len());
            assert("best"@.len() != "metal"@.len());
        },
    }
}

/// Kind of opaque voice artifact.
#[derive(Debug, Clone, Copy, PartialEq, Eq, Hash, Structural)]
#[non_exhaustive]
pub enum ArtifactKind {
    /// Upstream name `speaker_embedding`.
    SpeakerEmbedding,
    /// Upstream name `style_embedding`.
    StyleEmbedding,
    /// Upstream name `prompt_embedding`.
    PromptEmbedding,
    /// Upstream name `acoustic_tokens`.
    AcousticTokens,
    /// Upstream name `midi`.
    Midi,
    /// Upstream name `transcript_alignment`.
    TranscriptAlignment,
    /// Upstream name `diarization_state`.
    DiarizationState,
    /// Upstream name `vad_state`.
    VadState,
    /// Upstream name `custom`.
    Custom,
}

/// The canonical `audio.cpp` name of each artifact kind.
pub open spec fn artifact_kind_name(k: ArtifactKind) -> Seq<char> {
    match k {
        ArtifactKind::SpeakerEmbedding => "speaker_embedding"@,
        ArtifactKind::StyleEmbedding => "style_embedding"@,
        ArtifactKind::PromptEmbedding => "prompt_embedding"@,
        ArtifactKind::AcousticTokens => "acoustic_tokens"@,
        ArtifactKind::Midi => "midi"@,
        ArtifactKind::TranscriptAlignment => "transcript_alignment"@,
        ArtifactKind::DiarizationState => "diarization_state"@,
        ArtifactKind::VadState => "vad_state"@,
        ArtifactKind::Custom => "custom"@,
    }
}

/// The artifact kind that a text names: a canonical name, or `None`.
pub open spec fn artifact_kind_named(text: Seq<char>) -> Option<ArtifactKind> {
    if text == "speaker_embedding"@ {
        Some(ArtifactKind::SpeakerEmbedding)
    } else if text == "style_embedding"@ {
        Some(ArtifactKind::StyleEmbedding)
    } else if text == "prompt_embedding"@ {
        Some(ArtifactKind::PromptEmbedding)
    } else if text == "acoustic_tokens"@ {
        Some(ArtifactKind::AcousticTokens)
    } else if text == "midi"@ {
        Some(ArtifactKind::Midi)
    } else if text == "transcript_alignment"@ {
        Some(ArtifactKind::TranscriptAlignment)
    } else if text == "diarization_state"@ {
        Some(ArtifactKind::DiarizationState)
    } else if text == "vad_state"@ {
        Some(ArtifactKind::VadState)
    } else if text == "custom"@ {
        Some(ArtifactKind::Custom)
    } else {
        None
    }
}

impl ArtifactKind {
    /// Canonical `audio.cpp` string name.
    pub fn as_str(self) -> (s: &'static str)
        ensures
            s@ == artifact_kind_name(self),
    {
        match self {
            ArtifactKind::SpeakerEmbedding => "speaker_embedding",
            ArtifactKind::StyleEmbedding => "style_embedding",
            ArtifactKind::PromptEmbedding => "prompt_embedding",
            ArtifactKind::AcousticTokens => "acoustic_tokens",
            ArtifactKind::Midi => "midi",
            ArtifactKind::TranscriptAlignment => "transcript_alignment",
            ArtifactKind::DiarizationState => "diarization_state",
            ArtifactKind::VadState => "vad_state",
            ArtifactKind::Custom => "custom",
        }
    }

    /// Parses a canonical name. An unknown name gives an `Unsupported` error
    /// whose message is this library's own.
    pub fn parse(text: &str) -> (r: Result<ArtifactKind, Error>)
        ensures
            match artifact_kind_named(text@) {
                Some(k) => r == Ok::<ArtifactKind, Error>(k),
                None => r matches Err(e) && is_name_error(e, text@, "artifact kind"@),
            },
    {
        if same_text(text, "speaker_embedding") {
            return Ok(ArtifactKind::SpeakerEmbedding);
        }
        if same_text(text, "style_embedding") {
            return Ok(ArtifactKind::StyleEmbedding);
        }
        if same_text(text, "prompt_embedding") {
            return Ok(ArtifactKind::PromptEmbedding);
        }
        if same_text(text, "acoustic_tokens") {
            return Ok(ArtifactKind::AcousticTokens);
        }
        if same_text(text, "midi") {
            return Ok(ArtifactKind::Midi);
        }
        if same_text(text, "transcript_alignment") {
            return Ok(ArtifactKind::TranscriptAlignment);
        }
        if same_text(text, "diarization_state") {
            return Ok(ArtifactKind::DiarizationState);
        }
        if same_text(text, "vad_state") {
            return Ok(ArtifactKind::VadState);
        }
        if same_text(text, "custom") {
            return Ok(ArtifactKind::Custom);
        }
        Err(name_error(text, "artifact kind"))
    }
}

impl std::str::FromStr for ArtifactKind {
    type Err = Error;

    fn from_str(s: &str) -> (r: Result<ArtifactKind, Error>)
        ensures
            match artifact_kind_named(s@) {
                Some(k) => r == Ok::<ArtifactKind, Error>(k),
                None => r matches Err(e) && is_name_error(e, s@, "artifact kind"@),
            },
    {
        ArtifactKind::parse(s)
    }
}

/// Every artifact kind parses back from its canonical name, and a parsed name is
/// the canonical name of the result.
pub proof fn lemma_artifact_kind_names(k: ArtifactKind, text: Seq<char>)
    ensures
        artifact_kind_named(artifact_kind_name(k)) == Some(k),
        artifact_kind_named(text) matches Some(k2) ==> text == artifact_kind_name(k2),
{
    reveal_strlit("speaker_embedding");
    reveal_strlit("style_embedding");
    reveal_strlit("prompt_embedding");
    reveal_strlit("acoustic_tokens");
    reveal_strlit("midi");
    reveal_strlit("transcript_alignment");
    reveal_strlit("diarization_state");
    reveal_strlit("vad_state");
    reveal_strlit("custom");
    match k {
        ArtifactKind::SpeakerEmbedding => {
        },
        ArtifactKind::StyleEmbedding => {
            assert("style_embedding"@.len() != "speaker_embedding"@.len());
        },
        ArtifactKind::PromptEmbedding => {
            assert("prompt_embedding"@.len() != "speaker_embedding"@.len());
            assert("prompt_embedding"@.len() != "style_embedding"@.len());
        },
        ArtifactKind::AcousticTokens => {
            assert("acoustic_tokens"@.len() != "speaker_embedding"@.len());
            assert("acoustic_tokens"@[0] != "style_embedding"@[0]);
            assert("acoustic_tokens"@.len() != "prompt_embedding"@.len());
        },
        ArtifactKind::Midi => {
            assert("midi"@.len() != "speaker_embedding"@.len());
            assert("midi"@.len() != "style_embedding"@.len());
            assert("midi"@.len() != "prompt_embedding"@.len());
            assert("midi"@.len() != "acoustic_tokens"@.len());
        },
        ArtifactKind::TranscriptAlignment => {
            assert("transcript_alignment"@.len() != "speaker_embedding"@.len());
            assert("transcript_alignment"@.len() != "style_embedding"@.len());
            assert("transcript_alignment"@.len() != "prompt_embedding"@.len());
            assert("transcript_alignment"@.len() != "acoustic_tokens"@.len());
            assert("transcript_alignment"@.len() != "midi"@.len());
        },
        ArtifactKind::DiarizationState => {
            assert("diarization_state"@[0] != "speaker_embedding"@[0]);
            assert("diarization_state"@.len() != "style_embedding"@.len());
            assert("diarization_state"@.len() != "prompt_embedding"@.len());
            assert("diarization_state"@.len() != "acoustic_tokens"@.len());
            assert("diarization_state"@.len() != "midi"@.len());
            assert("diarization_state"@.len() != "transcript_alignment"@.len());
        },
        ArtifactKind::VadState => {
            assert("vad_state"@.len() != "speaker_embedding"@.len());
            assert("vad_state"@.len() != "style_embedding"@.len());
            assert("vad_state"@.len() != "prompt_embedding"@.len());
            assert("vad_state"@.len() != "acoustic_tokens"@.len());
            assert("vad_state"@.len() != "midi"@.len());
            assert("vad_state"@.len() != "transcript_alignment"@.len());
            assert("vad_state"@.len() != "diarization_state"@.len());
        },
        ArtifactKind::Custom => {
            assert("custom"@.len() != "speaker_embedding"@.len());
            assert("custom"@.len() != "style_embedding"@.len());
            assert("custom"@.len() != "prompt_embedding"@.len());
            assert("custom"@.len() != "acoustic_tokens"@.len());
            assert("custom"@.len() != "midi"@.len());
            assert("custom"@.len() != "transcript_alignment"@.len());
            assert("custom"@.len() != "diarization_state"@.len());
            assert("custom"@.len() != "vad_state"@.len());
        },
    }
}

/// How a streaming session consumes input.
#[derive(Debug, Clone, Copy, PartialEq, Eq, Hash, Structural)]
#[non_exhaustive]
pub enum StreamingInputKind {
    /// The session does not consume audio chunks (upstream `NONE`).
    NoInput,
    /// The session accepts incremental PCM chunks.
    AudioChunks,
}

/// How a streaming session produces output.
#[derive(Debug, Clone, Copy, PartialEq, Eq, Hash, Structural)]
#[non_exhaustive]
pub enum StreamingOutputKind {
    /// Only the final task result is meaningful.
    FinalResult,
    /// Intermediate events can be pulled or delivered via callback.
    PullEvents,
}

/// Voice-activity event class.
#[derive(Debug, Clone, Copy, PartialEq, Eq, Hash, Structural)]
#[non_exhaustive]
pub enum VadEventKind {
    /// Speech onset.
    SpeechStart,
    /// Speech offset.
    SpeechEnd,
    /// A completed speech segment.
    SpeechSegment,
}

/// The upstream name of every [`VoiceTaskKind`], and each name parses back to its
/// variant: `as_str` returns these texts and `parse` accepts them.
/// No other text parses.
pub proof fn law_voice_task_kind_name_table()
    ensures
        voice_task_kind_name(VoiceTaskKind::Vad) == "vad"@,
        voice_task_kind_name(VoiceTaskKind::Asr) == "asr"@,
        voice_task_kind_name(VoiceTaskKind::Diarization) == "diar"@,
        voice_task_kind_name(VoiceTaskKind::SourceSeparation) == "sep"@,
        voice_task_kind_name(VoiceTaskKind::AudioGeneration) == "gen"@,
        voice_task_kind_name(VoiceTaskKind::Tts) == "tts"@,
        voice_task_kind_name(VoiceTaskKind::VoiceCloning) == "clon"@,
        voice_task_kind_name(VoiceTaskKind::VoiceConversion) == "vc"@,
        voice_task_kind_name(VoiceTaskKind::SpeechToSpeech) == "s2s"@,
        voice_task_kind_name(VoiceTaskKind::Alignment) == "align"@,
        voice_task_kind_name(VoiceTaskKind::VoiceDesign) == "vdes"@,
        voice_task_kind_name(VoiceTaskKind::SpeakerRecognition) == "spk"@,
        voice_task_kind_name(VoiceTaskKind::Svc) == "svc"@,
        voice_task_kind_name(VoiceTaskKind::Midi) == "midi"@,
        voice_task_kind_named("vad"@) == Some(VoiceTaskKind::Vad),
        voice_task_kind_named("asr"@) == Some(VoiceTaskKind::Asr),
        voice_task_kind_named("diar"@) == Some(VoiceTaskKind::Diarization),
        voice_task_kind_named("sep"@) == Some(VoiceTaskKind::SourceSeparation),
        voice_task_kind_named("gen"@) == Some(VoiceTaskKind::AudioGeneration),
        voice_task_kind_named("tts"@) == Some(VoiceTaskKind::Tts),
        voice_task_kind_named("clon"@) == Some(VoiceTaskKind::VoiceCloning),
        voice_task_kind_named("vc"@) == Some(VoiceTaskKind::VoiceConversion),
        voice_task_kind_named("s2s"@) == Some(VoiceTaskKind::SpeechToSpeech),
        voice_task_kind_named("align"@) == Some(VoiceTaskKind::Alignment),
        voice_task_kind_named("vdes"@) == Some(VoiceTaskKind::VoiceDesign),
        voice_task_kind_named("spk"@) == Some(VoiceTaskKind::SpeakerRecognition),
        voice_task_kind_named("svc"@) == Some(VoiceTaskKind::Svc),
        voice_task_kind_named("midi"@) == Some(VoiceTaskKind::Midi),
        forall|t: Seq<char>| #[trigger] voice_task_kind_named(t) is Some ==> t == "vad"@ || t == "asr"@ || t == "diar"@ || t == "sep"@ || t == "gen"@ || t == "tts"@ || t == "clon"@ || t == "vc"@ || t == "s2s"@ || t == "align"@ || t == "vdes"@ || t == "spk"@ || t == "svc"@ || t == "midi"@,
{
    lemma_voice_task_kind_names(VoiceTaskKind::Vad, "vad"@);
    lemma_voice_task_kind_names(VoiceTaskKind::Asr, "asr"@);
    lemma_voice_task_kind_names(VoiceTaskKind::Diarization, "diar"@);
    lemma_voice_task_kind_names(VoiceTaskKind::SourceSeparation, "sep"@);
    lemma_voice_task_kind_names(VoiceTaskKind::AudioGeneration, "gen"@);
    lemma_voice_task_kind_names(VoiceTaskKind::Tts, "tts"@);
    lemma_voice_task_kind_names(VoiceTaskKind::VoiceCloning, "clon"@);
    lemma_voice_task_kind_names(VoiceTaskKind::VoiceConversion, "vc"@);
    lemma_voice_task_kind_names(VoiceTaskKind::SpeechToSpeech, "s2s"@);
    lemma_voice_task_kind_names(VoiceTaskKind::Alignment, "align"@);
    lemma_voice_task_kind_names(VoiceTaskKind::VoiceDesign, "vdes"@);
    lemma_voice_task_kind_names(VoiceTaskKind::SpeakerRecognition, "spk"@);
    lemma_voice_task_kind_names(VoiceTaskKind::Svc, "svc"@);
    lemma_voice_task_kind_names(VoiceTaskKind::Midi, "midi"@);
    assert forall|t: Seq<char>| #[trigger] voice_task_kind_named(t) is Some implies t == "vad"@ || t == "asr"@ || t == "diar"@ || t == "sep"@ || t == "gen"@ || t == "tts"@ || t == "clon"@ || t == "vc"@ || t == "s2s"@ || t == "align"@ || t == "vdes"@ || t == "spk"@ || t == "svc"@ || t == "midi"@ by {
        lemma_voice_task_kind_names(VoiceTaskKind::Vad, t);
    }
}

/// The upstream name of every [`RunMode`], and each name parses back to its
/// variant: `as_str` returns these texts and `parse` accepts them.
/// No other text parses.
pub proof fn law_run_mode_name_table()
    ensures
        run_mode_name(RunMode::Offline) == "offline"@,
        run_mode_name(RunMode::Streaming) == "streaming"@,
        run_mode_named("offline"@) == Some(RunMode::Offline),
        run_mode_named("streaming"@) == Some(RunMode::Streaming),
        forall|t: Seq<char>| #[trigger] run_mode_named(t) is Some ==> t == "offline"@ || t == "streaming"@,
{
    lemma_run_mode_names(RunMode::Offline, "offline"@);
    lemma_run_mode_names(RunMode::Streaming, "streaming"@);
    assert forall|t: Seq<char>| #[trigger] run_mode_named(t) is Some implies t == "offline"@ || t == "streaming"@ by {
        lemma_run_mode_names(RunMode::Offline, t);
    }
}

/// The upstream name of every [`BackendType`], and each name parses back to its
/// variant: `as_str` returns these texts and `parse` accepts them.
/// Besides them only `rocm` parses, to `Hip`.
pub proof fn law_backend_type_name_table()
    ensures
        backend_type_name(BackendType::Cpu) == "cpu"@,
        backend_type_name(BackendType::Cuda) == "cuda"@,
        backend_type_name(BackendType::Hip) == "hip"@,
        backend_type_name(BackendType::Vulkan) == "vulkan"@,
        backend_type_name(BackendType::Metal) == "metal"@,
        backend_type_name(BackendType::BestAvailable) == "best"@,
        backend_type_named("cpu"@) == Some(BackendType::Cpu),
        backend_type_named("cuda"@) == Some(BackendType::Cuda),
        backend_type_named("hip"@) == Some(BackendType::Hip),
        backend_type_named("vulkan"@) == Some(BackendType::Vulkan),
        backend_type_named("metal"@) == Some(BackendType::Metal),
        backend_type_named("best"@) == Some(BackendType::BestAvailable),
        backend_type_named("rocm"@) == Some(BackendType::Hip),
        forall|t: Seq<char>| #[trigger] backend_type_named(t) is Some ==> t == "cpu"@ || t == "cuda"@ || t == "hip"@ || t == "vulkan"@ || t == "metal"@ || t == "best"@ || t == "rocm"@,
{
    reveal_strlit("rocm");
    reveal_strlit("cpu");
    reveal_strlit("cuda");
    reveal_strlit("hip");
    reveal_strlit("vulkan");
    reveal_strlit("metal");
    reveal_strlit("best");
    assert("rocm"@.len() != "cpu"@.len());
    assert("rocm"@[0] != "cuda"@[0]);
    assert("rocm"@.len() != "hip"@.len());
    assert("rocm"@.len() != "vulkan"@.len());
    assert("rocm"@.len() != "metal"@.len());
    assert("rocm"@[0] != "best"@[0]);
    lemma_backend_type_names(BackendType::Cpu, "cpu"@);
    lemma_backend_type_names(BackendType::Cuda, "cuda"@);
    lemma_backend_type_names(BackendType::Hip, "hip"@);
    lemma_backend_type_names(BackendType::Vulkan, "vulkan"@);
    lemma_backend_type_names(BackendType::Metal, "metal"@);
    lemma_backend_type_names(BackendType::BestAvailable, "best"@);
    assert forall|t: Seq<char>| #[trigger] backend_type_named(t) is Some implies t == "cpu"@ || t == "cuda"@ || t == "hip"@ || t == "vulkan"@ || t == "metal"@ || t == "best"@ || t == "rocm"@ by {
        lemma_backend_type_names(BackendType::Cpu, t);
    }
}

/// The upstream name of every [`ArtifactKind`], and each name parses back to its
/// variant: `as_str` returns these texts and `parse` accepts them.
/// No other text parses.
pub proof fn law_artifact_kind_name_table()
    ensures
        artifact_kind_name(ArtifactKind::SpeakerEmbedding) == "speaker_embedding"@,
        artifact_kind_name(ArtifactKind::StyleEmbedding) == "style_embedding"@,
        artifact_kind_name(ArtifactKind::PromptEmbedding) == "prompt_embedding"@,
        artifact_kind_name(ArtifactKind::AcousticTokens) == "acoustic_tokens"@,
        artifact_kind_name(ArtifactKind::Midi) == "midi"@,
        artifact_kind_name(ArtifactKind::TranscriptAlignment) == "transcript_alignment"@,
        artifact_kind_name(ArtifactKind::DiarizationState) == "diarization_state"@,
        artifact_kind_name(ArtifactKind::VadState) == "vad_state"@,
        artifact_kind_name(ArtifactKind::Custom) == "custom"@,
        artifact_kind_named("speaker_embedding"@) == Some(ArtifactKind::SpeakerEmbedding),
        artifact_kind_named("style_embedding"@) == Some(ArtifactKind::StyleEmbedding),
        artifact_kind_named("prompt_embedding"@) == Some(ArtifactKind::PromptEmbedding),
        artifact_kind_named("acoustic_tokens"@) == Some(ArtifactKind::AcousticTokens),
        artifact_kind_named("midi"@) == Some(ArtifactKind::Midi),
        artifact_kind_named("transcript_alignment"@) == Some(ArtifactKind::TranscriptAlignment),
        artifact_kind_named("diarization_state"@) == Some(ArtifactKind::DiarizationState),
        artifact_kind_named("vad_state"@) == Some(ArtifactKind::VadState),
        artifact_kind_named("custom"@) == Some(ArtifactKind::Custom),
        forall|t: Seq<char>| #[trigger] artifact_kind_named(t) is Some ==> t == "speaker_embedding"@ || t == "style_embedding"@ || t == "prompt_embedding"@ || t == "acoustic_tokens"@ || t == "midi"@ || t == "transcript_alignment"@ || t == "diarization_state"@ || t == "vad_state"@ || t == "custom"@,
{
    lemma_artifact_kind_names(ArtifactKind::SpeakerEmbedding, "speaker_embedding"@);
    lemma_artifact_kind_names(ArtifactKind::StyleEmbedding, "style_embedding"@);
    lemma_artifact_kind_names(ArtifactKind::PromptEmbedding, "prompt_embedding"@);
    lemma_artifact_kind_names(ArtifactKind::AcousticTokens, "acoustic_tokens"@);
    lemma_artifact_kind_names(ArtifactKind::Midi, "midi"@);
    lemma_artifact_kind_names(ArtifactKind::TranscriptAlignment, "transcript_alignment"@);
    lemma_artifact_kind_names(ArtifactKind::DiarizationState, "diarization_state"@);
    lemma_artifact_kind_names(ArtifactKind::VadState, "vad_state"@);
    lemma_artifact_kind_names(ArtifactKind::Custom, "custom"@);
    assert forall|t: Seq<char>| #[trigger] artifact_kind_named(t) is Some implies t == "speaker_embedding"@ || t == "style_embedding"@ || t == "prompt_embedding"@ || t == "acoustic_tokens"@ || t == "midi"@ || t == "transcript_alignment"@ || t == "diarization_state"@ || t == "vad_state"@ || t == "custom"@ by {
        lemma_artifact_kind_names(ArtifactKind::SpeakerEmbedding, t);
    }
}

} // verus!
