//! Speech to text through the OpenAI transcription API: the checks before the
//! request, the language field, and how the answer is judged.

use vstd::prelude::*;

use crate::json::{json_at, json_lookup, JsonFound};
use crate::text::{is_blank, is_blank_text, same_text, trim_text, trimmed};

verus! {

/// The endpoint of the OpenAI transcription API.
pub const TRANSCRIPTION_URL: &'static str = "https://api.openai.com/v1/audio/transcriptions";

/// The transcription model.
pub const TRANSCRIPTION_MODEL: &'static str = "whisper-1";

/// The answer format asked for.
pub const RESPONSE_FORMAT: &'static str = "json";

/// The file name under which the recording is uploaded.
pub const AUDIO_FILE_NAME: &'static str = "audio.wav";

/// The MIME type of the uploaded recording.
pub const AUDIO_MIME_TYPE: &'static str = "audio/wav";

/// Seconds after which a transcription request is abandoned.
pub const TRANSCRIPTION_TIMEOUT_SECS: u64 = 30;

/// Reported when the OpenAI key is missing, blank or refused.
pub const OPENAI_KEY_ERROR: &'static str = "API-Key fehlt oder ungueltig";

/// Reported when the request fails on the way or the API answers with an error.
pub const TRANSCRIPTION_NETWORK_ERROR: &'static str = "Netzwerkfehler — Transkription fehlgeschlagen";

/// Where the transcript stands in the API's answer.
pub const TEXT_POINTER: &'static str = "/text";

/// The setting value that leaves the language to the recogniser.
pub const AUTO_LANGUAGE: &'static str = "auto";

/// A language setting is passed on when it is neither empty nor `auto`.
pub open spec fn language_is_set(lang: Seq<char>) -> bool {
    lang.len() > 0 && lang != AUTO_LANGUAGE@
}

/// The language passed on for an optional setting.
pub open spec fn requested_language(lang: Option<&str>) -> Option<Seq<char>> {
    match lang {
        Some(l) => if language_is_set(l@) {
            Some(l@)
        } else {
            None
        },
        None => None,
    }
}

/// Tells whether the language setting `lang` is sent with the request.
pub fn should_include_language(lang: &str) -> (r: bool)
    ensures
        r == language_is_set(lang@),
{
    lang.unicode_len() > 0 && !same_text(lang, AUTO_LANGUAGE)
}

/// Refuses an OpenAI key that is empty or white space only.
pub fn validate_api_key(key: &str) -> (r: Result<(), String>)
    ensures
        r is Err <==> is_blank(key@),
        r is Err <==> trimmed(key@).len() == 0,
        r matches Err(e) ==> e@ == OPENAI_KEY_ERROR@,
{
    if is_blank_text(key) {
        Err(String::from_str(OPENAI_KEY_ERROR))
    } else {
        Ok(())
    }
}

/// Judges the HTTP status of the transcription answer: 401 and 403 mean a
/// refused key, any other status outside 200..=299 a failed request.
pub fn handle_http_status(status: u16) -> (r: Result<(), String>)
    ensures
        r is Ok <==> 200 <= status <= 299,
        r matches Err(e) ==> (e@ == if status == 401 || status == 403 {
            OPENAI_KEY_ERROR@
        } else {
            TRANSCRIPTION_NETWORK_ERROR@
        }),
{
    if status == 401 || status == 403 {
        return Err(String::from_str(OPENAI_KEY_ERROR));
    }
    if status < 200 || status >= 300 {
        return Err(String::from_str(TRANSCRIPTION_NETWORK_ERROR));
    }
    Ok(())
}

/// The outcome of a request that failed on the way (no connection, timeout):
/// always the network error, with no detail that could leak the key.
pub fn handle_network_error() -> (r: Result<(), String>)
    ensures
        r matches Err(e) && e@ == TRANSCRIPTION_NETWORK_ERROR@,
{
    Err(String::from_str(TRANSCRIPTION_NETWORK_ERROR))
}

/// What a transcription request is made of once its inputs were checked.
pub struct TranscriptionRequest {
    /// The value of the `Authorization` header: `Bearer ` and the trimmed key.
    pub authorization: String,
    /// The language field of the form, when one is sent.
    pub language: Option<String>,
}

/// Checks the key and decides the header and the language field of a
/// transcription request.
pub fn prepare_transcription_request(api_key: &str, language: Option<&str>) -> (r: Result<
    TranscriptionRequest,
    String,
>)
    ensures
        r is Err <==> is_blank(api_key@),
        r matches Err(e) ==> e@ == OPENAI_KEY_ERROR@,
        r matches Ok(req) ==> req.authorization@ == "Bearer "@ + trimmed(api_key@) && (match req.language {
            Some(l) => requested_language(language) == Some(l@),
            None => requested_language(language) is None,
        }),
{
    validate_api_key(api_key)?;
    let key = trim_text(api_key);
    let authorization = String::from_str("Bearer ").concat(key.as_str());
    let lang = match language {
        Some(l) => if should_include_language(l) {
            Some(String::from_str(l))
        } else {
            None
        },
        None => None,
    };
    Ok(TranscriptionRequest { authorization, language: lang })
}

/// The transcript in the API's answer `body`: `None` when `body` is no JSON,
/// and otherwise the string at `text`, if one stands there.
pub open spec fn whisper_reply(body: Seq<char>) -> Option<Option<Seq<char>>> {
    match json_lookup(body, TEXT_POINTER@) {
        None => None,
        Some(found) => Some(found.0),
    }
}

/// The transcript, from what stands at `text`: that string, or the empty text
/// when no string stands there.
pub fn whisper_reply_from(found: JsonFound) -> (r: String)
    ensures
        found.text matches Some(t) ==> r == t,
        found.text is None ==> r@.len() == 0,
{
    match found.text {
        None => String::new(),
        Some(s) => s,
    }
}

/// Reads the transcript out of the API's JSON answer: the string at `text`,
/// or the empty text when there is none. Text that is no JSON gives the
/// parser's message.
pub fn parse_whisper_response(body: &str) -> (r: Result<String, String>)
    ensures
        r is Err <==> whisper_reply(body@) is None,
        whisper_reply(body@) == Some(None::<Seq<char>>) ==> (r matches Ok(s) && s@.len() == 0),
        forall|t: Seq<char>| whisper_reply(body@) == Some(Some(t)) ==> (r matches Ok(s) && s@ == t),
{
    match json_at(body, TEXT_POINTER) {
        Err(e) => Err(e.to_string()),
        Ok(found) => Ok(whisper_reply_from(found)),
    }
}

} // verus!
