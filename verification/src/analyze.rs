//! The intelligence report: the chat-completion request that asks for it and
//! the reading of the report out of the response.

use vstd::prelude::*;
use crate::types::JsonValue;

verus! {

/// The chat-completions endpoint that writes the report.
pub const OPENAI_CHAT_COMPLETIONS_URL: &'static str = "https://api.openai.com/v1/chat/completions";

/// The model that writes the report.
pub const ANALYSIS_MODEL: &'static str = "gpt-4o-mini";

/// The instructions given to the model.
pub const ANALYSIS_SYSTEM_PROMPT: &'static str = "You are an elite quantitative financial analyst. Review the provided scraped JSON data from various web sources. Synthesize the data, identify the top 3 macro market trends, note any conflicting reports, and output a highly structured, professional Markdown report. Do not include pleasantries.";

/// The error when the response holds no report.
pub const MISSING_REPORT: &'static str = "OpenAI response did not include choices[0].message.content";

/// One message of a chat.
#[derive(Debug, Clone)]
pub struct ChatMessage {
    pub role: String,
    pub content: String,
}

/// A chat-completion request.
#[derive(Debug, Clone)]
pub struct ChatRequest {
    pub model: String,
    pub messages: Vec<ChatMessage>,
}

/// The request for a report on `aggregated_data`: the analysis model, the
/// system instructions, then the data as the user's message.
pub fn analysis_request(aggregated_data: &str) -> (r: ChatRequest)
    ensures
        r.model@ == ANALYSIS_MODEL@,
        r.messages@.len() == 2,
        r.messages@[0].role@ == "system"@,
        r.messages@[0].content@ == ANALYSIS_SYSTEM_PROMPT@,
        r.messages@[1].role@ == "user"@,
        r.messages@[1].content@ == aggregated_data@,
{
    let system = ChatMessage {
        role: "system".to_owned(),
        content: ANALYSIS_SYSTEM_PROMPT.to_owned(),
    };
    let user = ChatMessage { role: "user".to_owned(), content: aggregated_data.to_owned() };
    ChatRequest { model: ANALYSIS_MODEL.to_owned(), messages: vec![system, user] }
}

/// The value of the first member named `key` among `members`.
pub open spec fn lookup(members: Seq<(String, JsonValue)>, key: Seq<char>) -> Option<JsonValue>
    decreases members.len(),
{
    if members.len() == 0 {
        None
    } else if members[0].0@ == key {
        Some(members[0].1)
    } else {
        lookup(members.drop_first(), key)
    }
}

/// No two members share a name, as in every object parsed from JSON text.
pub open spec fn distinct_names(members: Seq<(String, JsonValue)>) -> bool {
    forall|i: int, j: int|
        0 <= i < j < members.len() ==> #[trigger] members[i].0@ != #[trigger] members[j].0@
}

/// Among members with distinct names, looking a name up finds the member of
/// that name wherever it stands.
pub proof fn lookup_finds_the_named_member(members: Seq<(String, JsonValue)>, i: int)
    requires
        distinct_names(members),
        0 <= i < members.len(),
    ensures
        lookup(members, members[i].0@) == Some(members[i].1),
    decreases i,
{
    if i > 0 {
        let rest = members.drop_first();
        assert(members[0].0@ != members[i].0@);
        assert forall|a: int, b: int| 0 <= a < b < rest.len() implies #[trigger] rest[a].0@
            != #[trigger] rest[b].0@ by {
            assert(rest[a] == members[a + 1]);
            assert(rest[b] == members[b + 1]);
        }
        assert(rest[i - 1] == members[i]);
        lookup_finds_the_named_member(rest, i - 1);
    }
}

/// `Value::get` with a key: the member `key` of an object; nothing for other
/// values.
pub open spec fn member_of(v: JsonValue, key: Seq<char>) -> Option<JsonValue> {
    match v {
        JsonValue::Object(members) => lookup(members@, key),
        _ => None,
    }
}

/// `Value::get` with an index: the element `i` of an array; nothing for
/// other values.
pub open spec fn element_of(v: JsonValue, i: int) -> Option<JsonValue> {
    match v {
        JsonValue::Array(items) => if 0 <= i < items@.len() {
            Some(items@[i])
        } else {
            None
        },
        _ => None,
    }
}

/// `Value::as_str`: the text of a string.
pub open spec fn text_of(v: JsonValue) -> Option<Seq<char>> {
    match v {
        JsonValue::String(s) => Some(s@),
        _ => None,
    }
}

/// `choices[0].message.content` of a response, when it is a string.
pub open spec fn report_text(response: JsonValue) -> Option<Seq<char>> {
    match member_of(response, "choices"@) {
        Some(choices) => match element_of(choices, 0) {
            Some(choice) => match member_of(choice, "message"@) {
                Some(message) => match member_of(message, "content"@) {
                    Some(content) => text_of(content),
                    None => None,
                },
                None => None,
            },
            None => None,
        },
        None => None,
    }
}

/// The member `key` of an object.
pub fn member<'a>(v: &'a JsonValue, key: &str) -> (r: Option<&'a JsonValue>)
    ensures
        match r {
            Some(x) => member_of(*v, key@) == Some(*x),
            None => member_of(*v, key@) is None,
        },
{
    match v {
        JsonValue::Object(members) => {
            let mut k: usize = 0;
            assert(members@.skip(0) =~= members@);
            while k < members.len()
                invariant
                    k <= members@.len(),
                    member_of(*v, key@) == lookup(members@, key@),
                    lookup(members@, key@) == lookup(members@.skip(k as int), key@),
                decreases members.len() - k,
            {
                assert(members@.skip(k as int).drop_first() =~= members@.skip(k + 1));
                assert(members@.skip(k as int)[0] == members@[k as int]);
                if same_text(members[k].0.as_str(), key) {
                    let found = &members[k];
                    assert(found == members@[k as int]);
                    assert(lookup(members@.skip(k as int), key@) == Some(found.1));
                    return Some(&found.1);
                }
                k = k + 1;
            }
            None
        },
        _ => None,
    }
}

/// Whether two strings hold the same characters.
fn same_text(a: &str, b: &str) -> (r: bool)
    ensures
        r == (a@ == b@),
{
    let n = a.unicode_len();
    if n != b.unicode_len() {
        return false;
    }
    let mut i: usize = 0;
    while i < n
        invariant
            n == a@.len(),
            n == b@.len(),
            i <= n,
            forall|j: int| 0 <= j < i ==> a@[j] == b@[j],
        decreases n - i,
    {
        if a.get_char(i) != b.get_char(i) {
            return false;
        }
        i = i + 1;
    }
    assert(a@ =~= b@);
    true
}

/// The element `i` of an array.
pub fn element<'a>(v: &'a JsonValue, i: usize) -> (r: Option<&'a JsonValue>)
    ensures
        match r {
            Some(x) => element_of(*v, i as int) == Some(*x),
            None => element_of(*v, i as int) is None,
        },
{
    match v {
        JsonValue::Array(items) => {
            if i < items.len() {
                Some(&items[i])
            } else {
                None
            }
        },
        _ => None,
    }
}

/// The report in a chat-completion response: `choices[0].message.content`,
/// which must be a string.
pub fn report_content(response: &JsonValue) -> (r: Result<String, String>)
    ensures
        match report_text(*response) {
            Some(t) => r matches Ok(s) && s@ == t,
            None => r matches Err(e) && e@ == MISSING_REPORT@,
        },
{
    proof {
        reveal_strlit("choices");
        reveal_strlit("message");
        reveal_strlit("content");
    }
    let missing = Err(MISSING_REPORT.to_owned());
    let choices = match member(response, "choices") {
        Some(c) => c,
        None => return missing,
    };
    let choice = match element(choices, 0) {
        Some(c) => c,
        None => return missing,
    };
    let message = match member(choice, "message") {
        Some(m) => m,
        None => return missing,
    };
    let content = match member(message, "content") {
        Some(c) => c,
        None => return missing,
    };
    match content {
        JsonValue::String(text) => Ok(text.clone()),
        _ => missing,
    }
}

} // verus!
