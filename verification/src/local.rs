//! Local speech to text with whisper.cpp: the checks before a run, the
//! language setting, and how the recognised segments become one transcript.

use vstd::prelude::*;

use crate::stt::{language_is_set, requested_language, should_include_language};
use crate::text::{trim_text, trimmed};

verus! {

/// The file name of the local model in the application's data directory.
pub const MODEL_FILE_NAME: &'static str = "ggml-base.bin";

/// The number of threads whisper.cpp runs with.
pub const WHISPER_THREADS: i32 = 4;

/// The sample rate whisper.cpp expects.
pub const WHISPER_SAMPLE_RATE: u32 = 16000;

/// Reported when there are no samples to transcribe.
pub const NO_AUDIO_ERROR: &'static str = "Kein Audio fuer lokale Transkription";

/// Reported when the model file is not on disk.
pub const MODEL_MISSING_ERROR: &'static str = "Whisper-Modell nicht gefunden — bitte herunterladen";

/// Reported when the model path is no valid UTF-8 text.
pub const INVALID_MODEL_PATH_ERROR: &'static str = "Ungültiger Modell-Pfad";

/// The steps of a local run that can fail, each with its own message.
pub enum WhisperStage {
    LoadModel,
    CreateState,
    Transcribe,
    CountSegments,
}

/// The start of the message for a failure in `stage`.
pub open spec fn stage_prefix(stage: WhisperStage) -> Seq<char> {
    match stage {
        WhisperStage::LoadModel => "Modell laden fehlgeschlagen: "@,
        WhisperStage::CreateState => "Whisper-State Fehler: "@,
        WhisperStage::Transcribe => "Transkription fehlgeschlagen: "@,
        WhisperStage::CountSegments => "Segment-Fehler: "@,
    }
}

/// The message for a failure of whisper.cpp in `stage`, with its `detail`.
pub fn whisper_failure(stage: WhisperStage, detail: &str) -> (r: String)
    ensures
        r@ == stage_prefix(stage) + detail@,
{
    let prefix = match stage {
        WhisperStage::LoadModel => String::from_str("Modell laden fehlgeschlagen: "),
        WhisperStage::CreateState => String::from_str("Whisper-State Fehler: "),
        WhisperStage::Transcribe => String::from_str("Transkription fehlgeschlagen: "),
        WhisperStage::CountSegments => String::from_str("Segment-Fehler: "),
    };
    prefix.concat(detail)
}

/// Refuses a run without samples.
pub fn check_local_audio(sample_count: usize) -> (r: Result<(), String>)
    ensures
        r is Err <==> sample_count == 0,
        r matches Err(e) ==> e@ == NO_AUDIO_ERROR@,
{
    if sample_count == 0 {
        Err(String::from_str(NO_AUDIO_ERROR))
    } else {
        Ok(())
    }
}

/// Refuses a run when the model file is not on disk.
pub fn check_model_present(present: bool) -> (r: Result<(), String>)
    ensures
        r is Err <==> !present,
        r matches Err(e) ==> e@ == MODEL_MISSING_ERROR@,
{
    if present {
        Ok(())
    } else {
        Err(String::from_str(MODEL_MISSING_ERROR))
    }
}

/// The language whisper.cpp is told to use: the setting, unless it is empty or
/// `auto`, which leave the choice to the recogniser.
pub fn normalize_language(lang: &str) -> (r: Option<String>)
    ensures
        r is Some <==> language_is_set(lang@),
        r matches Some(l) ==> l@ == lang@,
{
    if should_include_language(lang) {
        Some(String::from_str(lang))
    } else {
        None
    }
}

/// The local recogniser is told a language exactly when the cloud request
/// carries one, and it is the same language: both pass the setting on unless it
/// is empty or `auto`.
pub proof fn lemma_engines_agree_on_language(lang: &str)
    ensures
        requested_language(Some(lang)) is Some <==> language_is_set(lang@),
        requested_language(Some(lang)) matches Some(l) ==> l == lang@,
{
}

/// The texts of the segments that could be read, in order.
pub open spec fn readable_texts(segments: Seq<Option<String>>) -> Seq<Seq<char>>
    decreases segments.len(),
{
    if segments.len() == 0 {
        Seq::empty()
    } else {
        let rest = readable_texts(segments.drop_last());
        match segments.last() {
            Some(t) => rest.push(t@),
            None => rest,
        }
    }
}

/// The segment could be read.
pub open spec fn is_readable(segment: Option<String>) -> bool {
    segment is Some
}

/// The text of a segment that could be read.
pub open spec fn segment_text(segment: Option<String>) -> Seq<char> {
    match segment {
        Some(t) => t@,
        None => Seq::empty(),
    }
}

/// Every segment that could be read gives its text, in order, and no other
/// segment gives one: the readable texts are the segments kept by
/// `Seq::filter` on readability, each taken by its text.
pub proof fn lemma_readable_texts_keep_every_segment(segments: Seq<Option<String>>)
    ensures
        readable_texts(segments) == segments.filter(|s: Option<String>| is_readable(s)).map_values(
            |s: Option<String>| segment_text(s),
        ),
        readable_texts(segments).len() == segments.filter(|s: Option<String>| is_readable(s)).len(),
    decreases segments.len(),
{
    reveal(Seq::filter);
    let pred = |s: Option<String>| is_readable(s);
    let f = |s: Option<String>| segment_text(s);
    if segments.len() > 0 {
        let init = segments.drop_last();
        lemma_readable_texts_keep_every_segment(init);
        let kept = init.filter(pred);
        if segments.last() is Some {
            assert(kept.push(segments.last()).map_values(f) =~= kept.map_values(f).push(
                f(segments.last()),
            ));
        }
    } else {
        assert(segments.filter(pred).map_values(f) =~= Seq::<Seq<char>>::empty());
    }
}

/// The total length of the texts.
pub open spec fn total_len(texts: Seq<Seq<char>>) -> nat
    decreases texts.len(),
{
    if texts.len() == 0 {
        0
    } else {
        total_len(texts.drop_last()) + texts.last().len()
    }
}

/// Joining keeps every character of every text and adds exactly one space
/// between each two texts, and it ends with the last text.
pub proof fn lemma_join_keeps_all_text(texts: Seq<Seq<char>>)
    ensures
        texts.len() > 0 ==> join_with_spaces(texts).len() == total_len(texts) + texts.len() - 1,
        texts.len() == 0 ==> join_with_spaces(texts).len() == 0,
        texts.len() > 0 ==> join_with_spaces(texts).subrange(
            join_with_spaces(texts).len() - texts.last().len(),
            join_with_spaces(texts).len() as int,
        ) == texts.last(),
    decreases texts.len(),
{
    if texts.len() > 1 {
        let init = texts.drop_last();
        lemma_join_keeps_all_text(init);
        reveal_strlit(" ");
        let j = join_with_spaces(texts);
        assert(j.subrange(j.len() - texts.last().len(), j.len() as int) =~= texts.last());
    } else if texts.len() == 1 {
        assert(total_len(texts.drop_last()) == 0);
        assert(texts[0] == texts.last());
        assert(texts[0].subrange(0, texts[0].len() as int) =~= texts[0]);
    }
}

/// The texts joined with one space between each two.
pub open spec fn join_with_spaces(texts: Seq<Seq<char>>) -> Seq<char>
    decreases texts.len(),
{
    if texts.len() == 0 {
        Seq::empty()
    } else if texts.len() == 1 {
        texts[0]
    } else {
        join_with_spaces(texts.drop_last()) + " "@ + texts.last()
    }
}

/// The transcript of a run: the readable segment texts joined with spaces and
/// trimmed of surrounding white space. Segments that could not be read are left
/// out.
pub fn join_segments(segments: &Vec<Option<String>>) -> (r: String)
    ensures
        r@ == trimmed(join_with_spaces(readable_texts(segments@))),
{
    let mut joined = String::new();
    let mut count: usize = 0;
    let n: usize = segments.len();
    let mut i: usize = 0;
    while i < n
        invariant
            n == segments@.len(),
            i <= n,
            count == readable_texts(segments@.take(i as int)).len(),
            count <= i,
            joined@ == join_with_spaces(readable_texts(segments@.take(i as int))),
        decreases n - i,
    {
        proof {
            assert(segments@.take(i + 1).drop_last() =~= segments@.take(i as int));
        }
        match &segments[i] {
            Some(t) => {
                let ghost rest = readable_texts(segments@.take(i as int));
                proof {
                    assert(rest.push(t@).drop_last() =~= rest);
                }
                if count > 0 {
                    joined.append(" ");
                }
                joined.append(t.as_str());
                count = count + 1;
            },
            None => {},
        }
        i = i + 1;
    }
    proof {
        assert(segments@.take(n as int) =~= segments@);
    }
    trim_text(joined.as_str())
}

} // verus!
