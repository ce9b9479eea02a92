//! The note insertion protocol of the notes database (a PostgREST endpoint).
//!
//! A note is inserted by a `POST` to `<project url>/rest/v1/notes` with the
//! anonymous key as `apikey` and as bearer token, a JSON body holding the
//! note's `source`, `transcript` and `context`, and no representation asked
//! back. The database must be configured: both the URL and the key are needed.
//! JSON objects are written compactly with their keys in sorted order, as
//! serde_json writes them.

use vstd::prelude::*;
use crate::text::{decimal, decimal_text};

verus! {

/// `s` without the `/` characters that end it.
pub open spec fn without_trailing_slashes(s: Seq<char>) -> Seq<char>
    decreases s.len(),
{
    if s.len() > 0 && s.last() == '/' {
        without_trailing_slashes(s.drop_last())
    } else {
        s
    }
}

/// The notes endpoint of a project URL.
pub open spec fn notes_endpoint_of(url: Seq<char>) -> Seq<char> {
    without_trailing_slashes(url) + "/rest/v1/notes"@
}

/// The headers of an insertion made with the anonymous key `key`, in order.
pub open spec fn insert_headers(key: Seq<char>) -> Seq<(Seq<char>, Seq<char>)> {
    seq![
        ("apikey"@, key),
        ("Authorization"@, "Bearer "@ + key),
        ("Content-Type"@, "application/json"@),
        ("Prefer"@, "return=minimal"@),
    ]
}

/// serde_json's writing of `text` as a JSON string literal: quoted, with the
/// characters JSON requires escaped.
pub uninterp spec fn json_string_text(text: Seq<char>) -> Seq<char>;

/// `text` as a JSON string literal, written by `serde_json::to_string`.
///
/// The contract says that the result is serde_json's writing of the text and
/// nothing of its form. `serde_json::to_string` fails only when the writer
/// fails, and it writes into a `Vec`, which never fails (serde_json's
/// `to_string`, `to_vec` and `serialize_str`), so the error arm is never taken.
#[verifier::external_body]
fn json_string(text: &str) -> (r: String)
    ensures
        r@ == json_string_text(text@),
{
    match serde_json::to_string(text) {
        Ok(t) => t,
        Err(_) => String::new(),
    }
}

/// The JSON context of a note: the operating system, and the active
/// application and window title when a window is in the foreground.
pub open spec fn context_json_text(os: Seq<char>, app_window: Option<(Seq<char>, Seq<char>)>) -> Seq<
    char,
> {
    match app_window {
        None => "{\"os\":"@ + json_string_text(os) + "}"@,
        Some((app, window)) => "{\"app\":"@ + json_string_text(app) + ",\"os\":"@ + json_string_text(
            os,
        ) + ",\"window\":"@ + json_string_text(window) + "}"@,
    }
}

/// The JSON body of an insertion: the context (an empty object when none was
/// captured), the source and the transcript.
pub open spec fn note_body_text(source: Seq<char>, transcript: Seq<char>, context: Option<Seq<char>>) -> Seq<
    char,
> {
    "{\"context\":"@ + match context {
        Some(c) => c,
        None => "{}"@,
    } + ",\"source\":"@ + json_string_text(source) + ",\"transcript\":"@ + json_string_text(
        transcript,
    ) + "}"@
}

/// The JSON context of a note (see [`context_json_text`]).
pub fn active_context_json(os: &str, app_window: Option<(&str, &str)>) -> (r: String)
    ensures
        app_window is None ==> r@ == "{\"os\":"@ + json_string_text(os@) + "}"@,
        app_window matches Some((a, w)) ==> r@ == "{\"app\":"@ + json_string_text(a@)
            + ",\"os\":"@ + json_string_text(os@) + ",\"window\":"@ + json_string_text(w@) + "}"@,
        r@ == context_json_text(
            os@,
            match app_window {
                Some((a, w)) => Some((a@, w@)),
                None => None,
            },
        ),
{
    let os_text = json_string(os);
    match app_window {
        None => {
            let mut r = String::from_str("{\"os\":");
            r.append(os_text.as_str());
            r.append("}");
            r
        },
        Some((app, window)) => {
            let app_text = json_string(app);
            let window_text = json_string(window);
            let mut r = String::from_str("{\"app\":");
            r.append(app_text.as_str());
            r.append(",\"os\":");
            r.append(os_text.as_str());
            r.append(",\"window\":");
            r.append(window_text.as_str());
            r.append("}");
            r
        },
    }
}

/// The JSON body of an insertion (see [`note_body_text`]).
pub fn note_body(source: &str, transcript: &str, context: Option<&str>) -> (r: String)
    ensures
        r@ == "{\"context\":"@ + match context {
            Some(c) => c@,
            None => "{}"@,
        } + ",\"source\":"@ + json_string_text(source@) + ",\"transcript\":"@ + json_string_text(
            transcript@,
        ) + "}"@,
        r@ == note_body_text(
            source@,
            transcript@,
            match context {
                Some(c) => Some(c@),
                None => None,
            },
        ),
{
    let mut r = String::from_str("{\"context\":");
    match context {
        Some(c) => r.append(c),
        None => r.append("{}"),
    }
    r.append(",\"source\":");
    let source_text = json_string(source);
    r.append(source_text.as_str());
    r.append(",\"transcript\":");
    let transcript_text = json_string(transcript);
    r.append(transcript_text.as_str());
    r.append("}");
    r
}

/// The error given when the database is not configured.
pub open spec fn not_configured_message() -> Seq<char> {
    "Supabase not configured"@
}

/// The text of an HTTP status: its code, a space, and its reason phrase.
pub open spec fn status_line(code: u16, reason: Option<Seq<char>>) -> Seq<char> {
    decimal(code as nat) + " "@ + match reason {
        Some(r) => r,
        None => "<unknown status code>"@,
    }
}

/// The error given when the database answers with a status outside 200-299.
pub open spec fn rejected_message(code: u16, reason: Option<Seq<char>>, body: Seq<char>) -> Seq<char> {
    "Supabase error ("@ + status_line(code, reason) + "): "@ + body
}

/// The error given when the request could not be sent or answered.
pub open spec fn request_failed_message(error: Seq<char>) -> Seq<char> {
    "Supabase request failed: "@ + error
}

/// An insertion to send.
#[derive(Debug)]
pub struct NoteRequest {
    /// The endpoint to `POST` to.
    pub url: String,
    /// The request's headers, as (name, value) pairs.
    pub headers: Vec<(String, String)>,
    /// The request's JSON body.
    pub body: String,
}

impl NoteRequest {
    /// The headers taken by their characters.
    pub open spec fn header_texts(self) -> Seq<(Seq<char>, Seq<char>)> {
        self.headers@.map_values(|h: (String, String)| (h.0@, h.1@))
    }
}

/// The notes endpoint of a project URL: the URL without its trailing `/`
/// characters, followed by `/rest/v1/notes`.
pub fn notes_endpoint(supabase_url: &str) -> (r: String)
    ensures
        r@ == notes_endpoint_of(supabase_url@),
{
    let n = supabase_url.unicode_len();
    let mut end = n;
    assert(supabase_url@.subrange(0, n as int) =~= supabase_url@);
    while end > 0 && supabase_url.get_char(end - 1) == '/'
        invariant
            n == supabase_url@.len(),
            end <= n,
            without_trailing_slashes(supabase_url@) == without_trailing_slashes(
                supabase_url@.subrange(0, end as int),
            ),
        decreases end,
    {
        assert(supabase_url@.subrange(0, end as int).drop_last() =~= supabase_url@.subrange(
            0,
            end - 1,
        ));
        end = end - 1;
    }
    let base = supabase_url.substring_char(0, end);
    let mut r = String::from_str(base);
    r.append("/rest/v1/notes");
    r
}

/// Prepares the insertion of a note, with its JSON `context` if one was
/// captured, or says that the database is not configured when the project
/// URL or the anonymous key is empty.
pub fn prepare_insert(
    supabase_url: &str,
    anon_key: &str,
    transcript: &str,
    source: &str,
    context: Option<&str>,
) -> (r: Result<NoteRequest, String>)
    ensures
        r is Err <==> (supabase_url@.len() == 0 || anon_key@.len() == 0),
        r matches Err(e) ==> e@ == not_configured_message(),
        r matches Ok(q) ==> {
            &&& q.url@ == notes_endpoint_of(supabase_url@)
            &&& q.header_texts() == insert_headers(anon_key@)
            &&& q.body@ == "{\"context\":"@ + match context {
                Some(c) => c@,
                None => "{}"@,
            } + ",\"source\":"@ + json_string_text(source@) + ",\"transcript\":"@
                + json_string_text(transcript@) + "}"@
            &&& q.body@ == note_body_text(
                source@,
                transcript@,
                match context {
                    Some(c) => Some(c@),
                    None => None,
                },
            )
        },
{
    if supabase_url.is_empty() || anon_key.is_empty() {
        return Err(String::from_str("Supabase not configured"));
    }
    let url = notes_endpoint(supabase_url);
    let mut headers: Vec<(String, String)> = Vec::new();
    headers.push((String::from_str("apikey"), String::from_str(anon_key)));
    let bearer = String::from_str("Bearer ").concat(anon_key);
    headers.push((String::from_str("Authorization"), bearer));
    headers.push((String::from_str("Content-Type"), String::from_str("application/json")));
    headers.push((String::from_str("Prefer"), String::from_str("return=minimal")));
    let body = note_body(source, transcript, context);
    let q = NoteRequest { url, headers, body };
    assert(q.header_texts() =~= insert_headers(anon_key@));
    Ok(q)
}

/// The outcome of an insertion from the database's answer: success for a
/// status in 200-299, else an error holding the status line and the answer's body.
pub fn insert_outcome(status_code: u16, reason: Option<&str>, body: &str) -> (r: Result<(), String>)
    ensures
        r is Ok <==> 200 <= status_code <= 299,
        r matches Err(e) ==> e@ == rejected_message(
            status_code,
            match reason {
                Some(t) => Some(t@),
                None => None,
            },
            body@,
        ),
{
    if 200 <= status_code && status_code <= 299 {
        return Ok(());
    }
    let mut e = String::from_str("Supabase error (");
    let code = decimal_text(status_code as u32);
    e.append(code.as_str());
    e.append(" ");
    match reason {
        Some(t) => e.append(t),
        None => e.append("<unknown status code>"),
    }
    e.append("): ");
    e.append(body);
    Err(e)
}

/// The error given when the request could not be sent or answered.
pub fn request_failed(error: &str) -> (e: String)
    ensures
        e@ == request_failed_message(error@),
{
    String::from_str("Supabase request failed: ").concat(error)
}

/// The note's body ends with the JSON writing of the whole transcript, for
/// transcripts of any length, and begins with the context (`{}` when none).
pub proof fn lemma_body_carries_whole_transcript(
    source: Seq<char>,
    transcript: Seq<char>,
    context: Option<Seq<char>>,
)
    ensures
        ({
            let body = note_body_text(source, transcript, context);
            let tail = json_string_text(transcript) + "}"@;
            let ctx = match context {
                Some(c) => c,
                None => "{}"@,
            };
            let head = "{\"context\":"@ + ctx;
            &&& body.len() >= tail.len() + head.len()
            &&& body.subrange(body.len() - tail.len(), body.len() as int) == tail
            &&& body.subrange(0, head.len() as int) == head
        }),
{
    let ctx = match context {
        Some(c) => c,
        None => "{}"@,
    };
    let head = "{\"context\":"@ + ctx;
    let mid = ",\"source\":"@ + json_string_text(source) + ",\"transcript\":"@;
    let tail = json_string_text(transcript) + "}"@;
    let body = note_body_text(source, transcript, context);
    assert(body =~= head + mid + tail);
    assert(body.subrange(body.len() - tail.len(), body.len() as int) =~= tail);
    assert(body.subrange(0, head.len() as int) =~= head);
}

/// Two notes with the same source and context have the same body exactly
/// when serde_json writes their transcripts the same: nothing of a
/// transcript is dropped from the body.
pub proof fn lemma_body_determined_by_transcript(
    source: Seq<char>,
    first: Seq<char>,
    second: Seq<char>,
    context: Option<Seq<char>>,
)
    ensures
        (note_body_text(source, first, context) == note_body_text(source, second, context)) <==> (
        json_string_text(first) == json_string_text(second)),
{
    let ctx = match context {
        Some(c) => c,
        None => "{}"@,
    };
    let head = "{\"context\":"@ + ctx + ",\"source\":"@ + json_string_text(source)
        + ",\"transcript\":"@;
    let b1 = note_body_text(source, first, context);
    let b2 = note_body_text(source, second, context);
    assert(b1 =~= head + (json_string_text(first) + "}"@));
    assert(b2 =~= head + (json_string_text(second) + "}"@));
    reveal_strlit("}");
    if b1 == b2 {
        let t1 = json_string_text(first) + "}"@;
        let t2 = json_string_text(second) + "}"@;
        assert(b1.subrange(head.len() as int, b1.len() as int) =~= t1);
        assert(b2.subrange(head.len() as int, b2.len() as int) =~= t2);
        assert(t1.len() == t2.len());
        assert(t1.subrange(0, t1.len() - 1) =~= json_string_text(first));
        assert(t2.subrange(0, t2.len() - 1) =~= json_string_text(second));
    }
}

/// The context of a note with an active window ends with the JSON writing of
/// the whole window title, whatever its length, and begins with the whole
/// application name.
pub proof fn lemma_context_carries_whole_window(os: Seq<char>, app: Seq<char>, window: Seq<char>)
    ensures
        ({
            let text = context_json_text(os, Some((app, window)));
            let tail = json_string_text(window) + "}"@;
            let head = "{\"app\":"@ + json_string_text(app);
            &&& text.len() >= tail.len() + head.len()
            &&& text.subrange(text.len() - tail.len(), text.len() as int) == tail
            &&& text.subrange(0, head.len() as int) == head
        }),
{
    let head = "{\"app\":"@ + json_string_text(app);
    let mid = ",\"os\":"@ + json_string_text(os) + ",\"window\":"@;
    let tail = json_string_text(window) + "}"@;
    let text = context_json_text(os, Some((app, window)));
    assert(text =~= head + mid + tail);
    assert(text.subrange(text.len() - tail.len(), text.len() as int) =~= tail);
    assert(text.subrange(0, head.len() as int) =~= head);
}

} // verus!
