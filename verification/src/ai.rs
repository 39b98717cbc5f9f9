//! AI commands: the system prompt of each command, the checks made before a
//! request to the Anthropic Messages API, and how its answer is judged.

use vstd::prelude::*;

use crate::json::{json_at, json_lookup, JsonFound};
use crate::text::{is_blank, is_blank_text, same_text, trim_text, trimmed};

verus! {

/// The endpoint of the Anthropic Messages API.
pub const ANTHROPIC_URL: &'static str = "https://api.anthropic.com/v1/messages";

/// The API version sent in the `anthropic-version` header.
pub const ANTHROPIC_VERSION: &'static str = "2023-06-01";

/// The token limit of one answer.
pub const CLAUDE_MAX_TOKENS: u32 = 4096;

/// Seconds after which a request to the API is abandoned.
pub const CLAUDE_TIMEOUT_SECS: u64 = 15;

/// Reported when the Anthropic key is missing, blank or refused.
pub const ANTHROPIC_KEY_ERROR: &'static str = "Anthropic API-Key fehlt oder ungueltig";

/// Reported when the request fails on the way or the API answers with an error.
pub const CLAUDE_NETWORK_ERROR: &'static str = "Netzwerkfehler — AI-Umformulierung fehlgeschlagen";

/// Reported when the answer holds no text at `content[0].text`.
pub const CLAUDE_REPLY_ERROR: &'static str = "Ungueltiger AI-Response";

/// The start of the message for a command id that has no prompt.
pub const UNKNOWN_COMMAND_PREFIX: &'static str = "Unbekannter AI-Command: ";

/// The list of content blocks in the API's answer.
pub const CLAUDE_CONTENT_POINTER: &'static str = "/content";

/// Where the rewritten text stands in the API's answer.
pub const CLAUDE_TEXT_POINTER: &'static str = "/content/0/text";

/// The prompt of `formal`: a more formal wording.
pub const FORMAL_PROMPT: &'static str = "Formuliere den folgenden Text professioneller und formeller um. Behalte den Inhalt bei, aber verwende eine gehobene, sachliche Sprache. Antworte nur mit dem umformulierten Text, ohne Erlaeuterungen.";

/// The prompt of `kuerzer`: a shorter text.
pub const SHORTER_PROMPT: &'static str = "Kuerze den folgenden Text auf das Wesentliche. Behalte alle wichtigen Informationen, entferne aber Wiederholungen und unnoetige Details. Antworte nur mit dem gekuerzten Text.";

/// The prompt of `translate_en_de`: a German translation.
pub const TO_GERMAN_PROMPT: &'static str = "Uebersetze den folgenden Text ins Deutsche. Achte auf natuerliche, idiomatische Sprache. Antworte nur mit der Uebersetzung.";

/// The prompt of `translate_de_en`: an English translation.
pub const TO_ENGLISH_PROMPT: &'static str = "Translate the following text into English. Use natural, idiomatic language. Respond only with the translation.";

/// The prompt of `email`: the text as an e-mail.
pub const EMAIL_PROMPT: &'static str = "Forme den folgenden Text in eine professionelle E-Mail um. Fuege eine passende Anrede und einen Abschluss hinzu. Antworte nur mit dem E-Mail-Text.";

/// The prompt of `slack`: the text as a chat message.
pub const SLACK_PROMPT: &'static str = "Forme den folgenden Text in eine lockere, praegnante Slack-Nachricht um. Nutze informelle Sprache, halte sie kurz. Antworte nur mit dem Slack-Text.";

/// The system prompt of each known command id; `None` for any other id.
pub open spec fn prompt_for(id: Seq<char>) -> Option<Seq<char>> {
    if id == "formal"@ {
        Some(FORMAL_PROMPT@)
    } else if id == "kuerzer"@ {
        Some(SHORTER_PROMPT@)
    } else if id == "translate_en_de"@ {
        Some(TO_GERMAN_PROMPT@)
    } else if id == "translate_de_en"@ {
        Some(TO_ENGLISH_PROMPT@)
    } else if id == "email"@ {
        Some(EMAIL_PROMPT@)
    } else if id == "slack"@ {
        Some(SLACK_PROMPT@)
    } else {
        None
    }
}

/// The message for a command id without a prompt.
pub open spec fn unknown_command_message(id: Seq<char>) -> Seq<char> {
    UNKNOWN_COMMAND_PREFIX@ + id
}

/// The six command ids that the application offers.
pub open spec fn is_known_command(id: Seq<char>) -> bool {
    id == "formal"@ || id == "kuerzer"@ || id == "translate_en_de"@ || id == "translate_de_en"@
        || id == "email"@ || id == "slack"@
}

/// The six offered commands are exactly the ids that have a prompt, and none of
/// their prompts is empty.
pub proof fn lemma_known_commands_have_prompts(id: Seq<char>)
    ensures
        is_known_command(id) <==> prompt_for(id) is Some,
        prompt_for(id) matches Some(p) ==> p.len() > 0,
{
    reveal_strlit("Formuliere den folgenden Text professioneller und formeller um. Behalte den Inhalt bei, aber verwende eine gehobene, sachliche Sprache. Antworte nur mit dem umformulierten Text, ohne Erlaeuterungen.");
    reveal_strlit("Kuerze den folgenden Text auf das Wesentliche. Behalte alle wichtigen Informationen, entferne aber Wiederholungen und unnoetige Details. Antworte nur mit dem gekuerzten Text.");
    reveal_strlit("Uebersetze den folgenden Text ins Deutsche. Achte auf natuerliche, idiomatische Sprache. Antworte nur mit der Uebersetzung.");
    reveal_strlit("Translate the following text into English. Use natural, idiomatic language. Respond only with the translation.");
    reveal_strlit("Forme den folgenden Text in eine professionelle E-Mail um. Fuege eine passende Anrede und einen Abschluss hinzu. Antworte nur mit dem E-Mail-Text.");
    reveal_strlit("Forme den folgenden Text in eine lockere, praegnante Slack-Nachricht um. Nutze informelle Sprache, halte sie kurz. Antworte nur mit dem Slack-Text.");
    assert(FORMAL_PROMPT@.len() > 0);
    assert(SHORTER_PROMPT@.len() > 0);
    assert(TO_GERMAN_PROMPT@.len() > 0);
    assert(TO_ENGLISH_PROMPT@.len() > 0);
    assert(EMAIL_PROMPT@.len() > 0);
    assert(SLACK_PROMPT@.len() > 0);
}

/// `word` occurs somewhere in `text`.
pub open spec fn mentions(text: Seq<char>, word: Seq<char>) -> bool {
    exists|i: int| 0 <= i && i + word.len() <= text.len() && #[trigger] text.subrange(i, i + word.len()) == word
}

/// Each command asks for what its id names: the prompt of `slack` speaks of a
/// Slack message, that of `email` of an e-mail, the translations of German and
/// English, `kuerzer` of shortening and `formal` of a more formal wording. No
/// two commands share a prompt.
pub proof fn lemma_each_command_has_its_own_prompt()
    ensures
        prompt_for("formal"@) matches Some(p) && mentions(p, "formeller"@),
        prompt_for("kuerzer"@) matches Some(p) && mentions(p, "Kuerze"@),
        prompt_for("translate_en_de"@) matches Some(p) && mentions(p, "Deutsche"@),
        prompt_for("translate_de_en"@) matches Some(p) && mentions(p, "English"@),
        prompt_for("email"@) matches Some(p) && mentions(p, "E-Mail"@),
        prompt_for("slack"@) matches Some(p) && mentions(p, "Slack"@),
        forall|a: Seq<char>, b: Seq<char>|
            #![trigger prompt_for(a), prompt_for(b)]
            prompt_for(a) is Some && prompt_for(a) == prompt_for(b) ==> a == b,
{
    reveal_strlit("Formuliere den folgenden Text professioneller und formeller um. Behalte den Inhalt bei, aber verwende eine gehobene, sachliche Sprache. Antworte nur mit dem umformulierten Text, ohne Erlaeuterungen.");
    reveal_strlit("Kuerze den folgenden Text auf das Wesentliche. Behalte alle wichtigen Informationen, entferne aber Wiederholungen und unnoetige Details. Antworte nur mit dem gekuerzten Text.");
    reveal_strlit("Uebersetze den folgenden Text ins Deutsche. Achte auf natuerliche, idiomatische Sprache. Antworte nur mit der Uebersetzung.");
    reveal_strlit("Translate the following text into English. Use natural, idiomatic language. Respond only with the translation.");
    reveal_strlit("Forme den folgenden Text in eine professionelle E-Mail um. Fuege eine passende Anrede und einen Abschluss hinzu. Antworte nur mit dem E-Mail-Text.");
    reveal_strlit("Forme den folgenden Text in eine lockere, praegnante Slack-Nachricht um. Nutze informelle Sprache, halte sie kurz. Antworte nur mit dem Slack-Text.");
    reveal_strlit("formeller");
    reveal_strlit("Kuerze");
    reveal_strlit("Deutsche");
    reveal_strlit("English");
    reveal_strlit("E-Mail");
    reveal_strlit("Slack");
    reveal_strlit("formal");
    reveal_strlit("kuerzer");
    reveal_strlit("translate_en_de");
    reveal_strlit("translate_de_en");
    reveal_strlit("email");
    reveal_strlit("slack");
    assert(prompt_for("formal"@) == Some(FORMAL_PROMPT@));
    assert("kuerzer"@ != "formal"@) by {
        if "kuerzer"@ == "formal"@ {
            assert("kuerzer"@.len() == "formal"@.len());
        }
    }
    assert(prompt_for("kuerzer"@) == Some(SHORTER_PROMPT@));
    assert("translate_en_de"@ != "formal"@) by {
        if "translate_en_de"@ == "formal"@ {
            assert("translate_en_de"@.len() == "formal"@.len());
        }
    }
    assert("translate_en_de"@ != "kuerzer"@) by {
        if "translate_en_de"@ == "kuerzer"@ {
            assert("translate_en_de"@.len() == "kuerzer"@.len());
        }
    }
    assert(prompt_for("translate_en_de"@) == Some(TO_GERMAN_PROMPT@));
    assert("translate_de_en"@ != "formal"@) by {
        if "translate_de_en"@ == "formal"@ {
            assert("translate_de_en"@.len() == "formal"@.len());
        }
    }
    assert("translate_de_en"@ != "kuerzer"@) by {
        if "translate_de_en"@ == "kuerzer"@ {
            assert("translate_de_en"@.len() == "kuerzer"@.len());
        }
    }
    assert("translate_de_en"@ != "translate_en_de"@) by {
        if "translate_de_en"@ == "translate_en_de"@ {
            assert("translate_de_en"@[10] == "translate_en_de"@[10]);
        }
    }
    assert(prompt_for("translate_de_en"@) == Some(TO_ENGLISH_PROMPT@));
    assert("email"@ != "formal"@) by {
        if "email"@ == "formal"@ {
            assert("email"@.len() == "formal"@.len());
        }
    }
    assert("email"@ != "kuerzer"@) by {
        if "email"@ == "kuerzer"@ {
            assert("email"@.len() == "kuerzer"@.len());
        }
    }
    assert("email"@ != "translate_en_de"@) by {
        if "email"@ == "translate_en_de"@ {
            assert("email"@.len() == "translate_en_de"@.len());
        }
    }
    assert("email"@ != "translate_de_en"@) by {
        if "email"@ == "translate_de_en"@ {
            assert("email"@.len() == "translate_de_en"@.len());
        }
    }
    assert(prompt_for("email"@) == Some(EMAIL_PROMPT@));
    assert("slack"@ != "formal"@) by {
        if "slack"@ == "formal"@ {
            assert("slack"@.len() == "formal"@.len());
        }
    }
    assert("slack"@ != "kuerzer"@) by {
        if "slack"@ == "kuerzer"@ {
            assert("slack"@.len() == "kuerzer"@.len());
        }
    }
    assert("slack"@ != "translate_en_de"@) by {
        if "slack"@ == "translate_en_de"@ {
            assert("slack"@.len() == "translate_en_de"@.len());
        }
    }
    assert("slack"@ != "translate_de_en"@) by {
        if "slack"@ == "translate_de_en"@ {
            assert("slack"@.len() == "translate_de_en"@.len());
        }
    }
    assert("slack"@ != "email"@) by {
        if "slack"@ == "email"@ {
            assert("slack"@[0] == "email"@[0]);
        }
    }
    assert(prompt_for("slack"@) == Some(SLACK_PROMPT@));
    assert(FORMAL_PROMPT@.subrange(50int, 50int + "formeller"@.len()) =~= "formeller"@);
    assert(SHORTER_PROMPT@.subrange(0int, 0int + "Kuerze"@.len()) =~= "Kuerze"@);
    assert(TO_GERMAN_PROMPT@.subrange(34int, 34int + "Deutsche"@.len()) =~= "Deutsche"@);
    assert(TO_ENGLISH_PROMPT@.subrange(34int, 34int + "English"@.len()) =~= "English"@);
    assert(EMAIL_PROMPT@.subrange(48int, 48int + "E-Mail"@.len()) =~= "E-Mail"@);
    assert(SLACK_PROMPT@.subrange(53int, 53int + "Slack"@.len()) =~= "Slack"@);
}

/// Returns the system prompt of the AI command `command_id`. An unknown id is
/// refused, so that it never reaches the API.
pub fn get_system_prompt(command_id: &str) -> (r: Result<String, String>)
    ensures
        r is Ok <==> prompt_for(command_id@) is Some,
        r matches Ok(p) ==> prompt_for(command_id@) == Some(p@),
        r matches Err(e) ==> e@ == unknown_command_message(command_id@),
{
    if same_text(command_id, "formal") {
        Ok(String::from_str(FORMAL_PROMPT))
    } else if same_text(command_id, "kuerzer") {
        Ok(String::from_str(SHORTER_PROMPT))
    } else if same_text(command_id, "translate_en_de") {
        Ok(String::from_str(TO_GERMAN_PROMPT))
    } else if same_text(command_id, "translate_de_en") {
        Ok(String::from_str(TO_ENGLISH_PROMPT))
    } else if same_text(command_id, "email") {
        Ok(String::from_str(EMAIL_PROMPT))
    } else if same_text(command_id, "slack") {
        Ok(String::from_str(SLACK_PROMPT))
    } else {
        Err(String::from_str(UNKNOWN_COMMAND_PREFIX).concat(command_id))
    }
}

/// Refuses an Anthropic key that is empty or white space only.
pub fn validate_anthropic_key(key: &str) -> (r: Result<(), String>)
    ensures
        r is Err <==> is_blank(key@),
        r is Err <==> trimmed(key@).len() == 0,
        r matches Err(e) ==> e@ == ANTHROPIC_KEY_ERROR@,
{
    if is_blank_text(key) {
        Err(String::from_str(ANTHROPIC_KEY_ERROR))
    } else {
        Ok(())
    }
}

/// Judges the HTTP status of the API's answer: 401 and 403 mean a refused key,
/// any other status outside 200..=299 a failed request.
pub fn handle_http_status_anthropic(status: u16) -> (r: Result<(), String>)
    ensures
        r is Ok <==> 200 <= status <= 299,
        r matches Err(e) ==> (e@ == if status == 401 || status == 403 {
            ANTHROPIC_KEY_ERROR@
        } else {
            CLAUDE_NETWORK_ERROR@
        }),
{
    if status == 401 || status == 403 {
        return Err(String::from_str(ANTHROPIC_KEY_ERROR));
    }
    if status < 200 || status >= 300 {
        return Err(String::from_str(CLAUDE_NETWORK_ERROR));
    }
    Ok(())
}

/// The outcome of a request that failed on the way (no connection, timeout):
/// always the network error, with no detail that could leak the key.
pub fn handle_network_error_anthropic() -> (r: Result<(), String>)
    ensures
        r matches Err(e) && e@ == CLAUDE_NETWORK_ERROR@,
{
    Err(String::from_str(CLAUDE_NETWORK_ERROR))
}

/// What a request to the API is made of once its inputs were checked: the
/// `x-api-key` header and the body's `max_tokens`, `system` and the one user
/// message.
pub struct ClaudeRequest {
    /// The key without its surrounding white space.
    pub api_key: String,
    /// The token limit of the answer.
    pub max_tokens: u32,
    /// The system prompt of the command.
    pub system_prompt: String,
    /// The content of the single message, sent with the role `user`.
    pub user_text: String,
}

/// Checks what a rewrite of `text` needs, in the order the application checks
/// it: first the key, then the command id; then describes the request.
pub fn prepare_claude_request(api_key: &str, command_id: &str, text: &str) -> (r: Result<
    ClaudeRequest,
    String,
>)
    ensures
        is_blank(api_key@) ==> (r matches Err(e) && e@ == ANTHROPIC_KEY_ERROR@),
        !is_blank(api_key@) && prompt_for(command_id@) is None ==> (r matches Err(e) && e@
            == unknown_command_message(command_id@)),
        r is Ok <==> !is_blank(api_key@) && prompt_for(command_id@) is Some,
        r matches Ok(req) ==> req.api_key@ == trimmed(api_key@) && Some(req.system_prompt@)
            == prompt_for(command_id@) && req.max_tokens == CLAUDE_MAX_TOKENS && req.user_text@
            == text@,
{
    validate_anthropic_key(api_key)?;
    let system_prompt = get_system_prompt(command_id)?;
    Ok(ClaudeRequest {
        api_key: trim_text(api_key),
        max_tokens: CLAUDE_MAX_TOKENS,
        system_prompt,
        user_text: String::from_str(text),
    })
}

/// The text in the API's answer, given what stands at `content` and at
/// `content[0].text`: `None` when `content` is no array or no string stands at
/// `content[0].text`.
pub open spec fn claude_text(content: (Option<Seq<char>>, Option<nat>), block: (
    Option<Seq<char>>,
    Option<nat>,
)) -> Option<Seq<char>> {
    if content.1 is None {
        None
    } else {
        block.0
    }
}

/// The text of the API's answer `body`: `None` when `body` is no JSON, and
/// otherwise `claude_text` of what stands at `content` and `content[0].text`.
pub open spec fn claude_reply(body: Seq<char>) -> Option<Option<Seq<char>>> {
    match (json_lookup(body, CLAUDE_CONTENT_POINTER@), json_lookup(body, CLAUDE_TEXT_POINTER@)) {
        (Some(content), Some(block)) => Some(claude_text(content, block)),
        _ => None,
    }
}

/// The answer's text, from what stands at `content` and at `content[0].text`:
/// the string at `content[0].text` when `content` is an array, and
/// `CLAUDE_REPLY_ERROR` otherwise.
pub fn claude_reply_from(content: JsonFound, block: JsonFound) -> (r: Result<String, String>)
    ensures
        content.items is None ==> (r matches Err(e) && e@ == CLAUDE_REPLY_ERROR@),
        content.items is Some && block.text is None ==> (r matches Err(e) && e@
            == CLAUDE_REPLY_ERROR@),
        content.items is Some && block.text is Some ==> r == Ok::<String, String>(
            block.text.unwrap(),
        ),
{
    if content.items.is_none() {
        return Err(String::from_str(CLAUDE_REPLY_ERROR));
    }
    match block.text {
        None => Err(String::from_str(CLAUDE_REPLY_ERROR)),
        Some(s) => Ok(s),
    }
}

/// Reads the rewritten text out of the API's JSON answer: the string at
/// `content[0].text`, where `content` must be an array. Text that is no JSON
/// gives the parser's message; JSON without that string gives
/// `CLAUDE_REPLY_ERROR`.
pub fn parse_claude_response(body: &str) -> (r: Result<String, String>)
    ensures
        claude_reply(body@) is None ==> r is Err,
        claude_reply(body@) == Some(None::<Seq<char>>) ==> (r matches Err(e) && e@
            == CLAUDE_REPLY_ERROR@),
        forall|t: Seq<char>| claude_reply(body@) == Some(Some(t)) ==> (r matches Ok(s) && s@ == t),
{
    let content = match json_at(body, CLAUDE_CONTENT_POINTER) {
        Err(e) => return Err(e.to_string()),
        Ok(found) => found,
    };
    let block = match json_at(body, CLAUDE_TEXT_POINTER) {
        Err(e) => return Err(e.to_string()),
        Ok(found) => found,
    };
    claude_reply_from(content, block)
}

} // verus!
