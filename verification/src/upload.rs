//! Sending an adapter to the server, and what is said about it.
use vstd::prelude::*;
use vstd::string::*;
use vstd::utf8::{
    decode_utf8, decode_utf8_encode_utf8, decode_utf8_split, encode_utf8, encode_utf8_decode_utf8,
    encode_utf8_valid_utf8, is_char_boundary, is_char_boundary_start_end_of_seq, valid_utf8_split,
};
use crate::adapters::{
    authorization, authorization_header, is_success, HttpRequest, HttpRequestView, Method,
};
use crate::json::{
    entries_text, escaped, json_text, law_written_string_reads_back, quoted, single_entry,
    unescaped, value_single_entry, value_text, Json,
};
use crate::text::{join2, join4, opt_str, text_or, text_pairs};

verus! {

/// What to do with an adapter.
pub enum UploadPlan {
    /// Leave it here, and say why.
    Skip { line: String },
    /// Say what happens, and send the request.
    Send { line: String, request: HttpRequest },
}

/// What an [`UploadPlan`] says.
pub enum UploadPlanView {
    Skip { line: Seq<char> },
    Send { line: Seq<char>, request: HttpRequestView },
}

impl View for UploadPlan {
    type V = UploadPlanView;

    open spec fn view(&self) -> UploadPlanView {
        match *self {
            UploadPlan::Skip { line } => UploadPlanView::Skip { line: line@ },
            UploadPlan::Send { line, request } => UploadPlanView::Send {
                line: line@,
                request: request@,
            },
        }
    }
}

/// The body in which an adapter is sent: an object with the adapter as its `config`.
pub open spec fn upload_body(yaml: Seq<char>) -> Seq<char> {
    json_text(single_entry("config"@, yaml))
}

/// What to do with an adapter: it is sent where there is a token, to the address that
/// the environment names or else to the server on this machine.
pub open spec fn upload_plan(
    token: Option<Seq<char>>,
    api_url: Option<Seq<char>>,
    yaml: Seq<char>,
) -> UploadPlanView {
    match token {
        None => UploadPlanView::Skip {
            line: "⏭️  No autocli-token configured, skipping upload. Run: opencli-rs auth --token <token>"@,
        },
        Some(token) => UploadPlanView::Send {
            line: "☁️  Uploading adapter..."@,
            request: HttpRequestView {
                method: Method::Post,
                url: text_or(api_url, "http://127.0.0.1:8001/api/sites/upload"@),
                headers: seq![authorization(token), ("Content-Type"@, "application/json"@)],
                body: Some(upload_body(yaml)),
                timeout_seconds: 30,
            },
        },
    }
}

/// What to do with an adapter.
pub fn upload_adapter(token: Option<&str>, api_url: Option<&str>, yaml: &str) -> (r: UploadPlan)
    ensures
        r@ == upload_plan(opt_str(token), opt_str(api_url), yaml@),
        match token {
            None => r matches UploadPlan::Skip { line } && line@
                == "⏭️  No autocli-token configured, skipping upload. Run: opencli-rs auth --token <token>"@,
            Some(token) => r matches UploadPlan::Send { line, request } && line@
                == "☁️  Uploading adapter..."@ && request.method == Method::Post && request.url@
                == (match api_url {
                Some(url) => url@,
                None => "http://127.0.0.1:8001/api/sites/upload"@,
            }) && request.headers.len() == 2 && request.headers[0].0@ == "Authorization"@
                && request.headers[0].1@ == "Bearer "@ + token@ && request.headers[1].0@
                == "Content-Type"@ && request.headers[1].1@ == "application/json"@
                && request.body is Some && (request.body->0)@ == json_text(
                Json::Object(seq![("config"@, Json::Str(yaml@))]),
            ) && request.timeout_seconds == 30,
        },
{
    let token = match token {
        Some(token) => token,
        None => {
            return UploadPlan::Skip {
                line: "⏭️  No autocli-token configured, skipping upload. Run: opencli-rs auth --token <token>".to_owned(),
            };
        },
    };
    let url = match api_url {
        Some(url) => url,
        None => "http://127.0.0.1:8001/api/sites/upload",
    };
    let mut headers: Vec<(String, String)> = Vec::new();
    headers.push(authorization_header(token));
    headers.push(("Content-Type".to_owned(), "application/json".to_owned()));
    assert(text_pairs(headers@) =~= seq![
        authorization(token@),
        ("Content-Type"@, "application/json"@),
    ]);
    let body = value_text(&value_single_entry("config", yaml));
    UploadPlan::Send {
        line: "☁️  Uploading adapter...".to_owned(),
        request: HttpRequest {
            method: Method::Post,
            url: url.to_owned(),
            headers,
            body: Some(body),
            timeout_seconds: 30,
        },
    }
}

/// What came of the upload request.
pub enum UploadReply {
    /// There was nothing to send it with.
    NoClient(String),
    /// It could not be sent.
    Unreachable(String),
    /// The server has answered.
    Answered { status: u16, status_text: String, body: String },
}

/// How many bytes of an answer are shown.
pub open spec fn shown_bytes(body: Seq<char>) -> int {
    if encode_utf8(body).len() < 200 {
        encode_utf8(body).len() as int
    } else {
        200
    }
}

/// Whether what is shown of an answer ends between two characters.
pub open spec fn excerpt_is_text(body: Seq<char>) -> bool {
    is_char_boundary(encode_utf8(body), shown_bytes(body))
}

/// Whether what is shown of an answer ends between two characters.
pub fn excerpt_fits(body: &str) -> (r: bool)
    ensures
        r == excerpt_is_text(body@),
        r == is_char_boundary(
            encode_utf8(body@),
            if encode_utf8(body@).len() < 200 {
                encode_utf8(body@).len() as int
            } else {
                200
            },
        ),
{
    let bytes = body.as_bytes();
    let n: usize = if bytes.len() < 200 {
        bytes.len()
    } else {
        200
    };
    body.is_char_boundary(n)
}

/// What is shown of an answer: its first bytes, 200 at most.
pub open spec fn excerpt_of(body: Seq<char>) -> Seq<char> {
    decode_utf8(encode_utf8(body).subrange(0, shown_bytes(body)))
}

/// What is said after an upload.
pub fn upload_result(reply: &UploadReply) -> (r: String)
    requires
        reply matches UploadReply::Answered { status, body, .. } ==> (200 <= *status < 300)
            || excerpt_is_text(body@),
    ensures
        match *reply {
            UploadReply::NoClient(detail) => r@ == "❌ Failed to create HTTP client: "@ + detail@,
            UploadReply::Unreachable(detail) => r@ == "❌ Upload failed: "@ + detail@,
            UploadReply::Answered { status, status_text, body } => if 200 <= status < 300 {
                r@ == "✅ Adapter uploaded successfully"@
            } else {
                r@ == "❌ Upload failed ("@ + status_text@ + "): "@ + excerpt_of(body@)
            },
        },
        reply matches UploadReply::Answered { status, status_text, body } ==> (!(200 <= *status
            < 300) ==> exists|shown: Seq<char>, rest: Seq<char>| #[trigger]
            (shown + rest) == body@ && r@ == "❌ Upload failed ("@ + status_text@ + "): "@ + shown
                && encode_utf8(shown).len() == (if encode_utf8(body@).len() < 200 {
                encode_utf8(body@).len() as int
            } else {
                200
            })),
{
    match reply {
        UploadReply::NoClient(detail) => join2(
            "❌ Failed to create HTTP client: ",
            detail.as_str(),
        ),
        UploadReply::Unreachable(detail) => join2("❌ Upload failed: ", detail.as_str()),
        UploadReply::Answered { status, status_text, body } => {
            if is_success(*status) {
                "✅ Adapter uploaded successfully".to_owned()
            } else {
                let bytes = body.as_str().as_bytes();
                let n: usize = if bytes.len() < 200 {
                    bytes.len()
                } else {
                    200
                };
                let (excerpt, _) = body.as_str().split_at(n);
                proof {
                    encode_utf8_decode_utf8(excerpt@);
                    law_the_beginning_of_an_answer_is_shown(body@);
                    let shown = excerpt_of(body@);
                    assert(shown + body@.skip(shown.len() as int) =~= body@);
                }
                join4("❌ Upload failed (", status_text.as_str(), "): ", excerpt)
            }
        },
    }
}

/// An answer of at most 200 bytes is shown whole.
pub proof fn law_short_answers_are_shown_whole(body: Seq<char>)
    requires
        encode_utf8(body).len() <= 200,
    ensures
        excerpt_is_text(body),
        excerpt_of(body) == body,
{
    encode_utf8_decode_utf8(body);
    encode_utf8_valid_utf8(body);
    is_char_boundary_start_end_of_seq(encode_utf8(body));
    assert(encode_utf8(body).subrange(0, shown_bytes(body)) =~= encode_utf8(body));
}

/// The adapter can be read out of the body in which it is sent.
pub proof fn law_sent_adapter_reads_back(yaml: Seq<char>)
    ensures
        ({
            let body = upload_body(yaml);
            let head = seq!['{'] + quoted("config"@) + seq![':', '"'];
            &&& head.is_prefix_of(body)
            &&& seq!['"', '}'].is_suffix_of(body)
            &&& unescaped(body.subrange(head.len() as int, body.len() - 2)) == yaml
        }),
{
    reveal_with_fuel(json_text, 2);
    reveal_with_fuel(entries_text, 2);
    let body = upload_body(yaml);
    let head = seq!['{'] + quoted("config"@) + seq![':', '"'];
    assert(body =~= head + escaped(yaml) + seq!['"', '}']);
    assert(head =~= body.subrange(0, head.len() as int));
    assert(seq!['"', '}'] =~= body.subrange(body.len() - 2, body.len() as int));
    assert(body.subrange(head.len() as int, body.len() - 2) =~= escaped(yaml));
    law_written_string_reads_back(yaml);
}

/// The views hold what stands there.
pub proof fn law_views_hold_plans(plan: UploadPlan)
    ensures
        match plan {
            UploadPlan::Skip { line } => plan@ == (UploadPlanView::Skip { line: line@ }),
            UploadPlan::Send { line, request } => plan@ == (UploadPlanView::Send {
                line: line@,
                request: request@,
            }),
        },
{
}

/// What is shown of an answer is its beginning: all of it up to 200 bytes, and 200 bytes
/// of a longer one, unless that would end within a character.
pub proof fn law_the_beginning_of_an_answer_is_shown(body: Seq<char>)
    ensures
        excerpt_is_text(body) <==> is_char_boundary(
            encode_utf8(body),
            if encode_utf8(body).len() < 200 {
                encode_utf8(body).len() as int
            } else {
                200
            },
        ),
        excerpt_is_text(body) ==> excerpt_of(body).len() <= body.len() && excerpt_of(body)
            == body.take(excerpt_of(body).len() as int) && encode_utf8(excerpt_of(body)).len() == (
        if encode_utf8(body).len() < 200 {
            encode_utf8(body).len() as int
        } else {
            200
        }),
{
    if excerpt_is_text(body) {
        let bytes = encode_utf8(body);
        let n = shown_bytes(body);
        encode_utf8_valid_utf8(body);
        encode_utf8_decode_utf8(body);
        valid_utf8_split(bytes, n);
        decode_utf8_split(bytes, n);
        decode_utf8_encode_utf8(bytes.subrange(0, n));
        let rest = decode_utf8(bytes.subrange(n, bytes.len() as int));
        assert(body == excerpt_of(body) + rest);
        assert(excerpt_of(body) =~= body.take(excerpt_of(body).len() as int));
    }
}

/// An adapter is sent exactly where there is a token, and then whole, under the token, as
/// the `config` of a JSON object, to the given address or else to the one on this machine.
pub proof fn law_an_adapter_is_sent_with_the_token(
    token: Option<Seq<char>>,
    api_url: Option<Seq<char>>,
    yaml: Seq<char>,
)
    ensures
        match token {
            None => upload_plan(token, api_url, yaml) is Skip,
            Some(t) => upload_plan(token, api_url, yaml) matches UploadPlanView::Send {
                request,
                ..
            } && request.method == Method::Post && request.url == (match api_url {
                Some(url) => url,
                None => "http://127.0.0.1:8001/api/sites/upload"@,
            }) && request.headers == seq![
                ("Authorization"@, "Bearer "@ + t),
                ("Content-Type"@, "application/json"@),
            ] && request.body == Some(
                json_text(Json::Object(seq![("config"@, Json::Str(yaml))])),
            ) && request.timeout_seconds == 30,
        },
{
}

} // verus!
