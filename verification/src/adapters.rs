//! Looking for adapters on the server: the request, what the reply offers, and what
//! the user chooses from it.
use vstd::prelude::*;
use vstd::string::*;
use vstd::utf8::encode_utf8;
use crate::json::{
    get, get_text, get_text_in, json_parsed, json_view, json_views, text_at, text_in, value_array,
    value_from_slice, value_get, Json,
};
use crate::percent::{law_encoding_is_undone_by_decoding, percent_encoded, url_encode};
use crate::text::{
    begins_with, contains_text, has_text, join2, join3, occurs_at, opt_str, opt_text, same_text,
    text_or, text_pairs, texts,
};

verus! {

/// What a request asks the server to do.
#[derive(Clone, Copy, Debug, PartialEq, Eq, Structural)]
pub enum Method {
    /// Hand something out.
    Get,
    /// Take something in.
    Post,
}

/// A request to the server.
pub struct HttpRequest {
    pub method: Method,
    pub url: String,
    /// The headers, by name.
    pub headers: Vec<(String, String)>,
    /// What is sent along.
    pub body: Option<String>,
    /// How many seconds it may take.
    pub timeout_seconds: u64,
}

/// What an [`HttpRequest`] says.
pub struct HttpRequestView {
    pub method: Method,
    pub url: Seq<char>,
    pub headers: Seq<(Seq<char>, Seq<char>)>,
    pub body: Option<Seq<char>>,
    pub timeout_seconds: nat,
}

impl View for HttpRequest {
    type V = HttpRequestView;

    open spec fn view(&self) -> HttpRequestView {
        HttpRequestView {
            method: self.method,
            url: self.url@,
            headers: text_pairs(self.headers@),
            body: opt_text(self.body),
            timeout_seconds: self.timeout_seconds as nat,
        }
    }
}

/// The header that shows the token.
pub open spec fn authorization(token: Seq<char>) -> (Seq<char>, Seq<char>) {
    ("Authorization"@, "Bearer "@ + token)
}

/// The URL under which adapters for a pattern of URLs are looked for.
pub open spec fn search_url(api_base: Option<Seq<char>>, pattern: Seq<char>) -> Seq<char> {
    text_or(api_base, "http://127.0.0.1:8001"@) + "/api/sites/cli/search?url="@ + percent_encoded(
        encode_utf8(pattern),
    )
}

/// The header that shows the token.
pub fn authorization_header(token: &str) -> (r: (String, String))
    ensures
        (r.0@, r.1@) == authorization(token@),
        r.0@ == "Authorization"@,
        r.1@ == "Bearer "@ + token@,
{
    ("Authorization".to_owned(), join2("Bearer ", token))
}

/// The request that looks for adapters for a pattern of URLs, at the server that the
/// environment names or else at the one on this machine.
pub fn search_request(api_base: Option<&str>, pattern: &str, token: &str) -> (r: HttpRequest)
    ensures
        r@ == (HttpRequestView {
            method: Method::Get,
            url: search_url(opt_str(api_base), pattern@),
            headers: seq![authorization(token@)],
            body: None,
            timeout_seconds: 10,
        }),
        r.method == Method::Get,
        r.url@ == (match api_base {
            Some(base) => base@,
            None => "http://127.0.0.1:8001"@,
        }) + "/api/sites/cli/search?url="@ + percent_encoded(encode_utf8(pattern@)),
        r.headers.len() == 1,
        r.headers[0].0@ == "Authorization"@,
        r.headers[0].1@ == "Bearer "@ + token@,
        r.body is None,
        r.timeout_seconds == 10,
{
    let base = match api_base {
        Some(base) => base,
        None => "http://127.0.0.1:8001",
    };
    let mut headers: Vec<(String, String)> = Vec::new();
    headers.push(authorization_header(token));
    assert(text_pairs(headers@) =~= seq![authorization(token@)]);
    HttpRequest {
        method: Method::Get,
        url: join3(base, "/api/sites/cli/search?url=", url_encode(pattern).as_str()),
        headers,
        body: None,
        timeout_seconds: 10,
    }
}

/// The search URL tells the pattern: at one server, two patterns with the same URL
/// are the same.
pub proof fn law_search_url_tells_the_pattern(
    api_base: Option<Seq<char>>,
    p: Seq<char>,
    q: Seq<char>,
)
    requires
        search_url(api_base, p) == search_url(api_base, q),
    ensures
        p == q,
{
    let head = text_or(api_base, "http://127.0.0.1:8001"@) + "/api/sites/cli/search?url="@;
    let ep = percent_encoded(encode_utf8(p));
    let eq = percent_encoded(encode_utf8(q));
    assert(search_url(api_base, p).skip(head.len() as int) =~= ep);
    assert(search_url(api_base, q).skip(head.len() as int) =~= eq);
    law_encoding_is_undone_by_decoding(encode_utf8(p));
    law_encoding_is_undone_by_decoding(encode_utf8(q));
    vstd::utf8::encode_utf8_decode_utf8(p);
    vstd::utf8::encode_utf8_decode_utf8(q);
}

/// An adapter that the server offers.
pub struct AdapterMatch {
    pub match_type: String,
    pub site_name: String,
    pub cmd_name: String,
    pub description: String,
    pub author: String,
    pub config: String,
}

/// What an [`AdapterMatch`] says.
pub struct AdapterMatchView {
    pub match_type: Seq<char>,
    pub site_name: Seq<char>,
    pub cmd_name: Seq<char>,
    pub description: Seq<char>,
    pub author: Seq<char>,
    pub config: Seq<char>,
}

impl View for AdapterMatch {
    type V = AdapterMatchView;

    open spec fn view(&self) -> AdapterMatchView {
        AdapterMatchView {
            match_type: self.match_type@,
            site_name: self.site_name@,
            cmd_name: self.cmd_name@,
            description: self.description@,
            author: self.author@,
            config: self.config@,
        }
    }
}

/// What a list of offered adapters says.
pub open spec fn match_views(list: Seq<AdapterMatch>) -> Seq<AdapterMatchView> {
    list.map_values(|m: AdapterMatch| m@)
}

/// What an element of the reply offers. What is missing, or is no string, counts as
/// empty. The author is that of the command, or else that of the element.
pub open spec fn offered(m: Json) -> AdapterMatchView {
    let none = Seq::<char>::empty();
    AdapterMatchView {
        match_type: text_or(get_text(m, "match_type"@), none),
        site_name: text_or(get_text_in(m, "site"@, "name"@), none),
        cmd_name: text_or(get_text_in(m, "command"@, "cmd_name"@), none),
        description: text_or(get_text_in(m, "command"@, "description"@), none),
        author: text_or(
            get_text_in(m, "command"@, "author"@),
            text_or(get_text(m, "author"@), none),
        ),
        config: text_or(get_text_in(m, "command"@, "config"@), none),
    }
}

/// What the elements of the reply offer, in order, without those that have no
/// configuration.
pub open spec fn usable(list: Seq<Json>) -> Seq<AdapterMatchView>
    decreases list.len(),
{
    if list.len() == 0 {
        Seq::empty()
    } else {
        let before = usable(list.drop_last());
        let m = offered(list.last());
        if m.config.len() > 0 {
            before.push(m)
        } else {
            before
        }
    }
}

/// What a reply offers: the usable elements of the array `matches`, if it has one.
pub open spec fn offers(body: Json) -> Seq<AdapterMatchView> {
    match get(body, "matches"@) {
        Some(Json::Array(list)) => usable(list),
        _ => Seq::empty(),
    }
}

fn owned_or_empty(text: Option<&str>) -> (r: String)
    ensures
        r@ == text_or(opt_str(text), Seq::empty()),
{
    match text {
        Some(t) => t.to_owned(),
        None => String::new(),
    }
}

fn read_match(m: &serde_json::Value) -> (r: AdapterMatch)
    ensures
        r@ == offered(json_view(*m)),
{
    let author = match text_in(m, "command", "author") {
        Some(author) => Some(author),
        None => text_at(m, "author"),
    };
    AdapterMatch {
        match_type: owned_or_empty(text_at(m, "match_type")),
        site_name: owned_or_empty(text_in(m, "site", "name")),
        cmd_name: owned_or_empty(text_in(m, "command", "cmd_name")),
        description: owned_or_empty(text_in(m, "command", "description")),
        author: owned_or_empty(author),
        config: owned_or_empty(text_in(m, "command", "config")),
    }
}

/// What a reply offers.
pub fn read_matches(body: &serde_json::Value) -> (r: Vec<AdapterMatch>)
    ensures
        match_views(r@) == offers(json_view(*body)),
        forall|k: int| 0 <= k < r.len() ==> (#[trigger] r[k]).config@.len() > 0,
{
    let mut r: Vec<AdapterMatch> = Vec::new();
    assert(match_views(r@) =~= Seq::empty());
    let list = match value_get(body, "matches") {
        Some(v) => match value_array(v) {
            Some(list) => list,
            None => {
                return r;
            },
        },
        None => {
            return r;
        },
    };
    let ghost all = json_views(list@);
    assert(all.take(0) =~= Seq::empty());
    for i in 0..list.len()
        invariant
            all == json_views(list@),
            match_views(r@) == usable(all.take(i as int)),
            forall|k: int| 0 <= k < r.len() ==> (#[trigger] r[k]).config@.len() > 0,
    {
        let ghost before = r@;
        assert(all.take(i + 1).drop_last() =~= all.take(i as int));
        let m = read_match(&list[i]);
        assert(m@ == offered(all[i as int]));
        if !m.config.as_str().is_empty() {
            r.push(m);
            assert(match_views(r@) =~= match_views(before).push(m@));
        }
    }
    assert(all.take(list.len() as int) =~= all);
    r
}

/// What came of the search request.
pub enum SearchReply {
    /// There was nothing to send it with.
    NoClient(String),
    /// The server was not reached.
    Unreachable,
    /// The server has answered with a status that is no success.
    Rejected { status: String },
    /// The body of the answer did not arrive.
    Unreadable(String),
    /// The body of the answer.
    Body(Vec<u8>),
}

/// Whether a status is a success.
pub fn is_success(status: u16) -> (r: bool)
    ensures
        r == (200 <= status < 300),
{
    200 <= status && status < 300
}

/// What an answer of the server comes to: its body, as far as that arrived, where the
/// status is a success; otherwise the status alone, whatever the body.
pub open spec fn answer(
    status: u16,
    status_text: String,
    body: Result<Vec<u8>, String>,
) -> SearchReply {
    if 200 <= status < 300 {
        match body {
            Ok(bytes) => SearchReply::Body(bytes),
            Err(detail) => SearchReply::Unreadable(detail),
        }
    } else {
        SearchReply::Rejected { status: status_text }
    }
}

/// What an answer of the server comes to.
pub fn search_reply(status: u16, status_text: String, body: Result<Vec<u8>, String>) -> (r:
    SearchReply)
    ensures
        r == answer(status, status_text, body),
        status < 200 || status >= 300 ==> r == (SearchReply::Rejected { status: status_text }),
        200 <= status < 300 ==> (body matches Ok(bytes) ==> r == SearchReply::Body(bytes)),
        200 <= status < 300 ==> (body matches Err(detail) ==> r == SearchReply::Unreadable(detail)),
{
    if !is_success(status) {
        return SearchReply::Rejected { status: status_text };
    }
    match body {
        Ok(bytes) => SearchReply::Body(bytes),
        Err(detail) => SearchReply::Unreadable(detail),
    }
}

/// The message for an answer that cannot be read.
pub open spec fn unreadable_message(detail: Seq<char>) -> Seq<char> {
    "Failed to parse response: "@ + detail
}

/// The message for a search that has failed; nothing where it has not.
pub open spec fn search_failure(reply: SearchReply) -> Option<Seq<char>> {
    match reply {
        SearchReply::NoClient(detail) => Some("Failed to create HTTP client: "@ + detail@),
        SearchReply::Unreachable => Some("❌ 服务器连接失败，请稍后再试"@),
        SearchReply::Rejected { status } => Some("❌ 服务器返回错误: "@ + status@),
        SearchReply::Unreadable(detail) => Some(unreadable_message(detail@)),
        SearchReply::Body(bytes) => match json_parsed(bytes@) {
            Some(_) => None,
            None => Some(unreadable_message("error decoding response body"@)),
        },
    }
}

/// What a search has found: the adapters that the reply offers, or what went wrong.
pub fn search_existing_adapters(reply: SearchReply) -> (r: Result<Vec<AdapterMatch>, String>)
    ensures
        match r {
            Ok(list) => search_failure(reply) is None && (reply matches SearchReply::Body(bytes)
                && match_views(list@) == offers(json_parsed(bytes@)->0)),
            Err(message) => search_failure(reply) == Some(message@),
        },
        match reply {
            SearchReply::NoClient(detail) => r is Err && (r->Err_0)@
                == "Failed to create HTTP client: "@ + detail@,
            SearchReply::Unreachable => r is Err && (r->Err_0)@
                == "❌ 服务器连接失败，请稍后再试"@,
            SearchReply::Rejected { status } => r is Err && (r->Err_0)@
                == "❌ 服务器返回错误: "@ + status@,
            SearchReply::Unreadable(detail) => r is Err && (r->Err_0)@
                == "Failed to parse response: "@ + detail@,
            SearchReply::Body(bytes) => match json_parsed(bytes@) {
                Some(body) => r is Ok && match_views((r->Ok_0)@) == offers(body),
                None => r is Err && (r->Err_0)@ == "Failed to parse response: "@
                    + "error decoding response body"@,
            },
        },
{
    match reply {
        SearchReply::NoClient(detail) => Err(
            join2("Failed to create HTTP client: ", detail.as_str()),
        ),
        SearchReply::Unreachable => Err("❌ 服务器连接失败，请稍后再试".to_owned()),
        SearchReply::Rejected { status } => Err(
            join2("❌ 服务器返回错误: ", status.as_str()),
        ),
        SearchReply::Unreadable(detail) => Err(
            join2("Failed to parse response: ", detail.as_str()),
        ),
        SearchReply::Body(bytes) => match value_from_slice(bytes.as_slice()) {
            Some(body) => Ok(read_matches(&body)),
            None => Err(join2("Failed to parse response: ", "error decoding response body")),
        },
    }
}

/// A search that the server refuses fails with a message that tells the status,
/// whatever the body of the answer; one that it grants fails only where the body did
/// not arrive or is no JSON text.
pub proof fn law_a_refused_search_tells_the_status(
    status: u16,
    status_text: String,
    body: Result<Vec<u8>, String>,
)
    ensures
        search_failure(answer(status, status_text, body)) == (if 200 <= status < 300 {
            match body {
                Ok(bytes) => if json_parsed(bytes@) is Some {
                    None
                } else {
                    Some(unreadable_message("error decoding response body"@))
                },
                Err(detail) => Some(unreadable_message(detail@)),
            }
        } else {
            Some("❌ 服务器返回错误: "@ + status_text@)
        }),
{
}

/// Every adapter that a search finds has a configuration, and no element of the
/// reply that has one is lost.
pub proof fn law_found_adapters_are_those_with_a_configuration(list: Seq<Json>)
    ensures
        forall|k: int|
            0 <= k < usable(list).len() ==> (#[trigger] usable(list)[k]).config.len() > 0,
        forall|k: int|
            0 <= k < list.len() && offered(#[trigger] list[k]).config.len() > 0 ==> usable(
                list,
            ).contains(offered(list[k])),
    decreases list.len(),
{
    if list.len() > 0 {
        let before = usable(list.drop_last());
        law_found_adapters_are_those_with_a_configuration(list.drop_last());
        assert forall|k: int|
            0 <= k < list.len() && offered(#[trigger] list[k]).config.len() > 0 implies usable(
            list,
        ).contains(offered(list[k])) by {
            let m = offered(list[k]);
            if k < list.len() - 1 {
                assert(list.drop_last()[k] == list[k]);
                let j = choose|j: int| 0 <= j < before.len() && before[j] == m;
                assert(usable(list)[j] == m);
            } else {
                assert(usable(list)[usable(list).len() - 1] == m);
            }
        }
    }
}

/// How well an adapter fits, as it is shown.
pub open spec fn fit_tag(match_type: Seq<char>) -> Seq<char> {
    if match_type == "exact"@ {
        "[exact]  "@
    } else if match_type == "partial"@ {
        "[partial]"@
    } else if match_type == "domain"@ {
        "[domain] "@
    } else {
        "[other]  "@
    }
}

/// `before`, the text and `after`; nothing where the text is empty.
pub open spec fn wrapped(before: Seq<char>, text: Seq<char>, after: Seq<char>) -> Seq<char> {
    if text.len() == 0 {
        Seq::empty()
    } else {
        before + text + after
    }
}

/// The line under which an adapter is offered.
pub open spec fn adapter_label(m: AdapterMatchView) -> Seq<char> {
    fit_tag(m.match_type) + " "@ + m.site_name + " "@ + m.cmd_name + wrapped(
        " (by "@,
        m.author,
        ")"@,
    ) + wrapped(" - "@, m.description, Seq::empty())
}

/// The line under which a new adapter is offered.
pub open spec fn regenerate_label() -> Seq<char> {
    "🔄 重新生成 (使用 AI 分析)"@
}

/// What the user chooses from: a line for each adapter, and one for a new one.
pub open spec fn choices(matches: Seq<AdapterMatchView>) -> Seq<Seq<char>> {
    matches.map_values(|m: AdapterMatchView| adapter_label(m)).push(regenerate_label())
}

fn tag_text(match_type: &str) -> (r: &'static str)
    ensures
        r@ == fit_tag(match_type@),
{
    if same_text(match_type, "exact") {
        "[exact]  "
    } else if same_text(match_type, "partial") {
        "[partial]"
    } else if same_text(match_type, "domain") {
        "[domain] "
    } else {
        "[other]  "
    }
}

fn wrap(before: &str, text: &str, after: &str) -> (r: String)
    ensures
        r@ == wrapped(before@, text@, after@),
{
    if text.is_empty() {
        String::new()
    } else {
        join3(before, text, after)
    }
}

/// The line under which an adapter is offered.
pub fn label(m: &AdapterMatch) -> (r: String)
    ensures
        r@ == adapter_label(m@),
        r@ == (if m.match_type@ == "exact"@ {
            "[exact]  "@
        } else if m.match_type@ == "partial"@ {
            "[partial]"@
        } else if m.match_type@ == "domain"@ {
            "[domain] "@
        } else {
            "[other]  "@
        }) + " "@ + m.site_name@ + " "@ + m.cmd_name@ + (if m.author@.len() == 0 {
            Seq::<char>::empty()
        } else {
            " (by "@ + m.author@ + ")"@
        }) + (if m.description@.len() == 0 {
            Seq::<char>::empty()
        } else {
            " - "@ + m.description@
        }),
{
    let head = join3(tag_text(m.match_type.as_str()), " ", m.site_name.as_str());
    let head = join3(head.as_str(), " ", m.cmd_name.as_str());
    let author = wrap(" (by ", m.author.as_str(), ")");
    let desc = wrap(" - ", m.description.as_str(), "");
    proof {
        reveal_strlit("");
        assert(""@ =~= Seq::empty());
    }
    proof {
        if m.description@.len() > 0 {
            assert(desc@ =~= " - "@ + m.description@);
        }
    }
    join3(head.as_str(), author.as_str(), desc.as_str())
}

/// What the user chooses from.
pub fn choice_lines(matches: &Vec<AdapterMatch>) -> (r: Vec<String>)
    ensures
        texts(r@) == choices(match_views(matches@)),
        r.len() == matches.len() + 1,
        forall|k: int|
            0 <= k < matches.len() ==> (#[trigger] r[k])@ == adapter_label(matches[k]@),
        r[r.len() - 1]@ == "🔄 重新生成 (使用 AI 分析)"@,
{
    let ghost all = match_views(matches@);
    let mut r: Vec<String> = Vec::new();
    for i in 0..matches.len()
        invariant
            all == match_views(matches@),
            texts(r@) =~= Seq::new(i as nat, |k: int| adapter_label(all[k])),
            r.len() == i,
            forall|k: int| 0 <= k < i ==> (#[trigger] r[k])@ == adapter_label(matches[k]@),
    {
        let ghost before = r@;
        r.push(label(&matches[i]));
        assert(texts(r@) =~= texts(before).push(adapter_label(all[i as int])));
    }
    let ghost before = r@;
    r.push("🔄 重新生成 (使用 AI 分析)".to_owned());
    assert(texts(r@) =~= texts(before).push(regenerate_label()));
    assert(texts(r@) =~= choices(all));
    r
}

/// The names of an adapter's site and command both stand in the chosen line.
pub open spec fn fits(m: AdapterMatchView, chosen: Seq<char>) -> bool {
    contains_text(chosen, m.cmd_name) && contains_text(chosen, m.site_name)
}

/// The place of the first adapter, from `from` on, that fits the chosen line.
pub open spec fn first_fit(matches: Seq<AdapterMatchView>, chosen: Seq<char>, from: int) -> Option<
    int,
>
    decreases matches.len() - from,
{
    if from < 0 || from >= matches.len() {
        None
    } else if fits(matches[from], chosen) {
        Some(from)
    } else {
        first_fit(matches, chosen, from + 1)
    }
}

/// The adapter that is used for the chosen line; nothing where a new one is to be
/// generated, which is so too where no adapter fits.
pub open spec fn chosen_adapter(matches: Seq<AdapterMatchView>, chosen: Seq<char>) -> Option<int> {
    if "🔄"@.is_prefix_of(chosen) {
        None
    } else {
        first_fit(matches, chosen, 0)
    }
}

/// The adapter that is used for the chosen line.
pub fn choose_adapter(matches: &Vec<AdapterMatch>, chosen: &str) -> (r: Option<usize>)
    ensures
        match r {
            Some(i) => chosen_adapter(match_views(matches@), chosen@) == Some(i as int),
            None => chosen_adapter(match_views(matches@), chosen@) is None,
        },
        r matches Some(i) ==> i < matches.len() && !"🔄"@.is_prefix_of(chosen@) && contains_text(
            chosen@,
            matches[i as int].cmd_name@,
        ) && contains_text(chosen@, matches[i as int].site_name@) && (forall|j: int|
            0 <= j < i ==> !(contains_text(chosen@, (#[trigger] matches[j]).cmd_name@)
                && contains_text(chosen@, matches[j].site_name@))),
        r is None ==> "🔄"@.is_prefix_of(chosen@) || (forall|j: int|
            0 <= j < matches.len() ==> !(contains_text(chosen@, (#[trigger] matches[j]).cmd_name@)
                && contains_text(chosen@, matches[j].site_name@))),
{
    if begins_with(chosen, "🔄") {
        return None;
    }
    let ghost all = match_views(matches@);
    for i in 0..matches.len()
        invariant
            all == match_views(matches@),
            !"🔄"@.is_prefix_of(chosen@),
            first_fit(all, chosen@, 0) == first_fit(all, chosen@, i as int),
            forall|j: int|
                0 <= j < i ==> !(contains_text(chosen@, (#[trigger] matches[j]).cmd_name@)
                    && contains_text(chosen@, matches[j].site_name@)),
    {
        assert(all[i as int] == matches[i as int]@);
        if has_text(chosen, matches[i].cmd_name.as_str()) && has_text(
            chosen,
            matches[i].site_name.as_str(),
        ) {
            return Some(i);
        }
    }
    None
}

/// The place that [`first_fit`] gives is the first that fits.
pub proof fn lemma_first_fit(matches: Seq<AdapterMatchView>, chosen: Seq<char>, from: int)
    requires
        0 <= from <= matches.len(),
    ensures
        match first_fit(matches, chosen, from) {
            Some(i) => from <= i < matches.len() && fits(matches[i], chosen) && forall|k: int|
                from <= k < i ==> !fits(#[trigger] matches[k], chosen),
            None => forall|k: int|
                from <= k < matches.len() ==> !fits(#[trigger] matches[k], chosen),
        },
    decreases matches.len() - from,
{
    if from < matches.len() && !fits(matches[from], chosen) {
        lemma_first_fit(matches, chosen, from + 1);
    }
}

/// The adapter that is used is the first of which both names, that of the command and
/// that of the site, stand in the chosen line; and none is used where the line begins
/// with the sign for a new one, or where no adapter has both its names there.
pub proof fn law_both_names_stand_in_the_chosen_line(
    matches: Seq<AdapterMatchView>,
    chosen: Seq<char>,
)
    ensures
        match chosen_adapter(matches, chosen) {
            Some(i) => 0 <= i < matches.len() && !"🔄"@.is_prefix_of(chosen) && contains_text(
                chosen,
                matches[i].cmd_name,
            ) && contains_text(chosen, matches[i].site_name) && (forall|j: int|
                0 <= j < i ==> !(contains_text(chosen, (#[trigger] matches[j]).cmd_name)
                    && contains_text(chosen, matches[j].site_name))),
            None => "🔄"@.is_prefix_of(chosen) || (forall|j: int|
                0 <= j < matches.len() ==> !(contains_text(chosen, (#[trigger] matches[j]).cmd_name)
                    && contains_text(chosen, matches[j].site_name))),
        },
{
    lemma_first_fit(matches, chosen, 0);
    match chosen_adapter(matches, chosen) {
        Some(i) => {
            assert forall|j: int| 0 <= j < i implies !(contains_text(
                chosen,
                (#[trigger] matches[j]).cmd_name,
            ) && contains_text(chosen, matches[j].site_name)) by {
                assert(!fits(matches[j], chosen));
            }
        },
        None => {
            if !"🔄"@.is_prefix_of(chosen) {
                assert forall|j: int| 0 <= j < matches.len() implies !(contains_text(
                    chosen,
                    (#[trigger] matches[j]).cmd_name,
                ) && contains_text(chosen, matches[j].site_name)) by {
                    assert(!fits(matches[j], chosen));
                }
            }
        },
    }
}

/// Whoever chooses the line of an adapter gets that adapter, unless one before it has
/// both its command's and its site's name in that line.
pub proof fn law_choosing_a_line_uses_its_adapter(matches: Seq<AdapterMatchView>, k: int)
    requires
        0 <= k < matches.len(),
        forall|j: int|
            0 <= j < k ==> !(contains_text(choices(matches)[k], (#[trigger] matches[j]).cmd_name)
                && contains_text(choices(matches)[k], matches[j].site_name)),
    ensures
        chosen_adapter(matches, choices(matches)[k]) == Some(k),
{
    law_choosing_an_adapter_uses_one(matches, k);
    law_both_names_stand_in_the_chosen_line(matches, choices(matches)[k]);
    let i = chosen_adapter(matches, choices(matches)[k])->0;
    if i < k {
        assert(contains_text(choices(matches)[k], matches[i].cmd_name));
    }
}

proof fn lemma_label_fits(m: AdapterMatchView)
    ensures
        fits(m, adapter_label(m)),
        adapter_label(m).len() > 0 && adapter_label(m)[0] == '[',
{
    let tag = fit_tag(m.match_type);
    reveal_strlit("[exact]  ");
    reveal_strlit("[partial]");
    reveal_strlit("[domain] ");
    reveal_strlit("[other]  ");
    let label = adapter_label(m);
    let at: int = (tag.len() + " "@.len()) as int;
    let next: int = at + m.site_name.len() + " "@.len();
    assert(label.subrange(at, at + m.site_name.len()) =~= m.site_name);
    assert(occurs_at(label, m.site_name, at));
    assert(label.subrange(next, next + m.cmd_name.len()) =~= m.cmd_name);
    assert(occurs_at(label, m.cmd_name, next));
}

/// Whoever chooses an adapter gets an adapter: the first whose site and command both
/// stand in the chosen line, which is the chosen one or one before it.
pub proof fn law_choosing_an_adapter_uses_one(matches: Seq<AdapterMatchView>, k: int)
    requires
        0 <= k < matches.len(),
    ensures
        chosen_adapter(matches, choices(matches)[k]) matches Some(i) && 0 <= i <= k && fits(
            matches[i],
            choices(matches)[k],
        ),
{
    let chosen = choices(matches)[k];
    assert(chosen == adapter_label(matches[k]));
    lemma_label_fits(matches[k]);
    lemma_first_fit(matches, chosen, 0);
    reveal_strlit("🔄");
    assert(!"🔄"@.is_prefix_of(chosen)) by {
        if "🔄"@.is_prefix_of(chosen) {
            assert("🔄"@[0] == chosen.subrange(0, "🔄"@.len() as int)[0]);
        }
    }
}

/// Whoever chooses an adapter gets that one, unless the site and the command of one
/// before it both stand in the chosen line too.
pub proof fn law_the_chosen_adapter_is_used(matches: Seq<AdapterMatchView>, k: int)
    requires
        0 <= k < matches.len(),
        forall|j: int| 0 <= j < k ==> !fits(#[trigger] matches[j], choices(matches)[k]),
    ensures
        chosen_adapter(matches, choices(matches)[k]) == Some(k),
{
    law_choosing_an_adapter_uses_one(matches, k);
}

/// Whoever chooses the last line gets a new adapter.
pub proof fn law_choosing_the_last_line_generates(matches: Seq<AdapterMatchView>)
    ensures
        choices(matches).len() == matches.len() + 1,
        chosen_adapter(matches, choices(matches).last()) is None,
{
    reveal_strlit("🔄");
    reveal_strlit("🔄 重新生成 (使用 AI 分析)");
    assert("🔄"@ =~= regenerate_label().subrange(0, "🔄"@.len() as int));
}

/// The views hold every field, and the view of a list every element in its place.
pub proof fn law_views_hold_requests_and_adapters(
    request: HttpRequest,
    adapter: AdapterMatch,
    list: Seq<AdapterMatch>,
)
    ensures
        request@.method == request.method,
        request@.url == request.url@,
        request@.headers.len() == request.headers.len(),
        forall|k: int|
            0 <= k < request.headers.len() ==> (#[trigger] request@.headers[k]).0
                == request.headers[k].0@ && request@.headers[k].1 == request.headers[k].1@,
        request@.body is Some <==> request.body is Some,
        request.body is Some ==> request@.body->0 == (request.body->0)@,
        request@.timeout_seconds == request.timeout_seconds,
        adapter@.match_type == adapter.match_type@,
        adapter@.site_name == adapter.site_name@,
        adapter@.cmd_name == adapter.cmd_name@,
        adapter@.description == adapter.description@,
        adapter@.author == adapter.author@,
        adapter@.config == adapter.config@,
        match_views(list).len() == list.len(),
        forall|k: int| 0 <= k < list.len() ==> #[trigger] match_views(list)[k] == list[k]@,
{
}

/// Each field of what an element of the reply offers is the string at its own place in
/// the element, and empty where no string stands there; the author is the command's own
/// where that is a string, even an empty one, and the element's otherwise.
pub proof fn law_each_field_has_its_place_in_the_reply(m: Json)
    ensures
        match get(m, "match_type"@) {
            Some(Json::Str(s)) => offered(m).match_type == s,
            _ => offered(m).match_type == Seq::<char>::empty(),
        },
        match get(m, "site"@) {
            Some(object) => match get(object, "name"@) {
                Some(Json::Str(s)) => offered(m).site_name == s,
                _ => offered(m).site_name == Seq::<char>::empty(),
            },
            None => offered(m).site_name == Seq::<char>::empty(),
        },
        match get(m, "command"@) {
            Some(object) => match get(object, "cmd_name"@) {
                Some(Json::Str(s)) => offered(m).cmd_name == s,
                _ => offered(m).cmd_name == Seq::<char>::empty(),
            },
            None => offered(m).cmd_name == Seq::<char>::empty(),
        },
        match get(m, "command"@) {
            Some(object) => match get(object, "description"@) {
                Some(Json::Str(s)) => offered(m).description == s,
                _ => offered(m).description == Seq::<char>::empty(),
            },
            None => offered(m).description == Seq::<char>::empty(),
        },
        match get(m, "command"@) {
            Some(object) => match get(object, "config"@) {
                Some(Json::Str(s)) => offered(m).config == s,
                _ => offered(m).config == Seq::<char>::empty(),
            },
            None => offered(m).config == Seq::<char>::empty(),
        },
        get(m, "command"@) is Some && get(get(m, "command"@)->0, "author"@) is Some && get(
            get(m, "command"@)->0,
            "author"@,
        )->0 is Str ==> Json::Str(offered(m).author) == get(get(m, "command"@)->0, "author"@)->0,
        get(m, "command"@) is None || get(get(m, "command"@)->0, "author"@) is None || get(
            get(m, "command"@)->0,
            "author"@,
        )->0 !is Str ==> (match get(m, "author"@) {
            Some(Json::Str(s)) => offered(m).author == s,
            _ => offered(m).author == Seq::<char>::empty(),
        }),
{
}

/// What two lists of elements offer together is what each offers, one after the other;
/// one element offers itself exactly where it has a configuration.
pub proof fn law_offers_add_up(a: Seq<Json>, b: Seq<Json>, m: Json)
    ensures
        usable(a + b) == usable(a) + usable(b),
        usable(Seq::empty()) == Seq::<AdapterMatchView>::empty(),
        usable(seq![m]) == (if offered(m).config.len() > 0 {
            seq![offered(m)]
        } else {
            Seq::empty()
        }),
    decreases b.len(),
{
    assert(seq![m].drop_last() =~= Seq::<Json>::empty());
    assert(usable(seq![m].drop_last()) =~= Seq::empty());
    assert(usable(seq![m]) =~= (if offered(m).config.len() > 0 {
        seq![offered(m)]
    } else {
        Seq::empty()
    }));
    if b.len() == 0 {
        assert(a + b =~= a);
        assert(usable(a + b) =~= usable(a) + usable(b));
    } else {
        law_offers_add_up(a, b.drop_last(), m);
        assert((a + b).drop_last() =~= a + b.drop_last());
        assert((a + b).last() == b.last());
        assert(usable(a + b) =~= usable(a) + usable(b));
    }
}

/// A reply offers what its array `matches` offers, and nothing without such an array.
pub proof fn law_a_reply_offers_its_matches(body: Json, list: Seq<Json>)
    ensures
        get(body, "matches"@) == Some(Json::Array(list)) ==> offers(body) == usable(list),
        get(body, "matches"@) is None || get(body, "matches"@)->0 !is Array ==> offers(body)
            == Seq::<AdapterMatchView>::empty(),
{
}

/// The line of an adapter holds how well it fits, its site, its command, its author and
/// its description, in that order; an author or a description that is empty leaves
/// nothing behind. After the adapters comes the line for a new one.
pub proof fn law_lines_tell_the_adapters(matches: Seq<AdapterMatchView>, k: int)
    requires
        0 <= k < matches.len(),
    ensures
        choices(matches).len() == matches.len() + 1,
        choices(matches)[k] == (if matches[k].match_type == "exact"@ {
            "[exact]  "@
        } else if matches[k].match_type == "partial"@ {
            "[partial]"@
        } else if matches[k].match_type == "domain"@ {
            "[domain] "@
        } else {
            "[other]  "@
        }) + " "@ + matches[k].site_name + " "@ + matches[k].cmd_name + (
        if matches[k].author.len() == 0 {
            Seq::<char>::empty()
        } else {
            " (by "@ + matches[k].author + ")"@
        }) + (if matches[k].description.len() == 0 {
            Seq::<char>::empty()
        } else {
            " - "@ + matches[k].description
        }),
        choices(matches).last() == "🔄 重新生成 (使用 AI 分析)"@,
{
    let m = matches[k];
    assert(choices(matches)[k] == adapter_label(m));
    if m.description.len() > 0 {
        assert(wrapped(" - "@, m.description, Seq::empty()) =~= " - "@ + m.description);
    }
}

} // verus!
