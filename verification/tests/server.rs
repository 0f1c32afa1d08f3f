use opencli_rs::adapters::{
    choice_lines, choose_adapter, is_success, label, read_matches, search_existing_adapters,
    search_reply, search_request, AdapterMatch, Method, SearchReply,
};
use opencli_rs::json::{text_at, text_in, value_plain_text};
use opencli_rs::storage::{
    adapter_dirs, adapter_file_name, home_dir, save_adapter, SaveOutcome,
};
use opencli_rs::upload::{
    excerpt_fits, upload_adapter, upload_result, UploadPlan, UploadReply,
};
use serde_json::Value;

fn adapter(match_type: &str, site: &str, cmd: &str, author: &str, description: &str) -> AdapterMatch {
    AdapterMatch {
        match_type: match_type.to_string(),
        site_name: site.to_string(),
        cmd_name: cmd.to_string(),
        description: description.to_string(),
        author: author.to_string(),
        config: format!("config of {} {}", site, cmd),
    }
}

fn failure(reply: SearchReply) -> String {
    match search_existing_adapters(reply) {
        Ok(_) => panic!("failure expected"),
        Err(message) => message,
    }
}

#[test]
fn the_search_request_is_exact() {
    let request = search_request(None, "https://x.com/a b?c=é&d=~1", "acli_1");
    assert_eq!(
        request.url,
        "http://127.0.0.1:8001/api/sites/cli/search?url=https%3A%2F%2Fx.com%2Fa%20b%3Fc%3D%C3%A9%26d%3D~1"
    );
    assert_eq!(
        request.headers,
        vec![("Authorization".to_string(), "Bearer acli_1".to_string())]
    );
    assert_eq!(request.body, None);
    assert_eq!(request.timeout_seconds, 10);
    assert_eq!(request.method, Method::Get);
    let request = search_request(Some("https://api"), "*", "t");
    assert_eq!(request.url, "https://api/api/sites/cli/search?url=%2A");
}

#[test]
fn every_byte_is_encoded_one_way() {
    let all: String = ('\0'..='\u{ff}').collect();
    let url = search_request(Some(""), &all, "").url;
    let encoded = url.strip_prefix("/api/sites/cli/search?url=").unwrap();
    let mut expected = String::new();
    for b in all.bytes() {
        if b.is_ascii_alphanumeric() || b == b'-' || b == b'.' || b == b'_' || b == b'~' {
            expected.push(b as char);
        } else {
            expected.push_str(&format!("%{:02X}", b));
        }
    }
    assert_eq!(encoded, expected);
    assert_eq!(urlencoding::decode(encoded).unwrap(), all);
}

#[test]
fn different_patterns_have_different_urls() {
    let a = search_request(None, "a%20b", "t").url;
    let b = search_request(None, "a b", "t").url;
    assert_ne!(a, b);
}

#[test]
fn a_reply_offers_what_has_a_configuration() {
    let body = r#"{"matches":[
        {"match_type":"exact","site":{"name":"zhihu"},
         "command":{"cmd_name":"hot","description":"d","author":"ann","config":"c1"},"author":"bob"},
        {"match_type":"partial","site":{"name":"x"},"command":{"cmd_name":"y","config":""}},
        {"match_type":"domain","site":{"name":"x"},"command":{"cmd_name":"y"}},
        {"site":"no object","command":{"config":"c2","author":5},"author":"bob"},
        {"match_type":7,"command":{"config":"c3"}},
        "no object"
    ]}"#;
    let found = search_existing_adapters(SearchReply::Body(body.as_bytes().to_vec())).unwrap();
    assert_eq!(found.len(), 3);
    assert_eq!(found[0].match_type, "exact");
    assert_eq!(found[0].site_name, "zhihu");
    assert_eq!(found[0].cmd_name, "hot");
    assert_eq!(found[0].description, "d");
    assert_eq!(found[0].author, "ann");
    assert_eq!(found[0].config, "c1");
    assert_eq!(found[1].site_name, "");
    assert_eq!(found[1].author, "bob");
    assert_eq!(found[1].config, "c2");
    assert_eq!(found[2].match_type, "");
    assert_eq!(found[2].cmd_name, "");
    assert_eq!(found[2].author, "");
}

#[test]
fn a_reply_without_a_list_offers_nothing() {
    for body in ["{}", "[]", "null", "{\"matches\":null}", "{\"matches\":{}}", "{\"matches\":[]}"] {
        let value: Value = serde_json::from_str(body).unwrap();
        assert!(read_matches(&value).is_empty());
        let found = search_existing_adapters(SearchReply::Body(body.as_bytes().to_vec()));
        assert!(found.unwrap().is_empty());
    }
}

#[test]
fn failed_searches_say_why() {
    assert_eq!(
        failure(SearchReply::NoClient("tls".to_string())),
        "Failed to create HTTP client: tls"
    );
    assert_eq!(failure(SearchReply::Unreachable), "❌ 服务器连接失败，请稍后再试");
    assert_eq!(
        failure(SearchReply::Rejected { status: "401 Unauthorized".to_string() }),
        "❌ 服务器返回错误: 401 Unauthorized"
    );
    assert_eq!(
        failure(SearchReply::Unreadable("cut off".to_string())),
        "Failed to parse response: cut off"
    );
    for bytes in [&b""[..], &b"<html>"[..], &b"{\"matches\":[]} x"[..], &b"\"\xff\""[..]] {
        assert_eq!(
            failure(SearchReply::Body(bytes.to_vec())),
            "Failed to parse response: error decoding response body"
        );
    }
}

#[test]
fn the_status_decides_what_an_answer_comes_to() {
    let body = || Ok(b"{\"matches\":[{\"command\":{\"config\":\"c\"}}]}".to_vec());
    for status in [200, 204, 299] {
        let found = search_existing_adapters(search_reply(status, "fine".to_string(), body()));
        assert_eq!(found.unwrap()[0].config, "c");
        let cut = search_reply(status, "fine".to_string(), Err("cut off".to_string()));
        assert_eq!(failure(cut), "Failed to parse response: cut off");
    }
    for status in [100, 199, 300, 401, 500] {
        let refused = search_reply(status, "no entry".to_string(), body());
        assert_eq!(failure(refused), "❌ 服务器返回错误: no entry");
        let cut = search_reply(status, "no entry".to_string(), Err("cut off".to_string()));
        assert_eq!(failure(cut), "❌ 服务器返回错误: no entry");
    }
}

#[test]
fn success_is_the_two_hundreds() {
    assert!(!is_success(199));
    assert!(is_success(200));
    assert!(is_success(204));
    assert!(is_success(299));
    assert!(!is_success(300));
    assert!(!is_success(404));
}

#[test]
fn adapters_are_offered_under_labels() {
    assert_eq!(
        label(&adapter("exact", "zhihu", "hot", "ann", "Hot list")),
        "[exact]   zhihu hot (by ann) - Hot list"
    );
    assert_eq!(label(&adapter("partial", "a", "b", "", "")), "[partial] a b");
    assert_eq!(label(&adapter("domain", "a", "b", "ann", "")), "[domain]  a b (by ann)");
    assert_eq!(label(&adapter("fuzzy", "a", "b", "", "d")), "[other]   a b - d");
    let lines = choice_lines(&vec![adapter("partial", "a", "b", "", "")]);
    assert_eq!(lines, vec!["[partial] a b", "🔄 重新生成 (使用 AI 分析)"]);
    assert_eq!(choice_lines(&vec![]), vec!["🔄 重新生成 (使用 AI 分析)"]);
}

#[test]
fn the_chosen_adapter_is_found() {
    let list = vec![
        adapter("exact", "zhihu", "hot", "", ""),
        adapter("exact", "zhihu", "search", "", ""),
        adapter("domain", "bilibili", "rank", "", ""),
    ];
    let lines = choice_lines(&list);
    assert_eq!(choose_adapter(&list, &lines[0]), Some(0));
    assert_eq!(choose_adapter(&list, &lines[1]), Some(1));
    assert_eq!(choose_adapter(&list, &lines[2]), Some(2));
    assert_eq!(choose_adapter(&list, &lines[3]), None);
    assert_eq!(choose_adapter(&list, "something else"), None);
}

#[test]
fn an_earlier_adapter_goes_before_one_whose_line_holds_its_names() {
    let list = vec![adapter("exact", "a", "hot", "", ""), adapter("exact", "ab", "hotter", "", "")];
    let lines = choice_lines(&list);
    assert_eq!(choose_adapter(&list, &lines[1]), Some(0));
    let nameless = vec![adapter("exact", "", "", "", "")];
    assert_eq!(choose_adapter(&nameless, "anything"), Some(0));
}

#[test]
fn values_are_read_out_of_json() {
    let v: Value = serde_json::from_str(r#"{"a":"x","o":{"b":"y","n":1}}"#).unwrap();
    assert_eq!(text_at(&v, "a"), Some("x"));
    assert_eq!(text_at(&v, "o"), None);
    assert_eq!(text_at(&v, "z"), None);
    assert_eq!(text_in(&v, "o", "b"), Some("y"));
    assert_eq!(text_in(&v, "o", "n"), None);
    assert_eq!(text_in(&v, "a", "b"), None);
    assert_eq!(text_in(&v, "z", "b"), None);
    assert_eq!(value_plain_text(&v), r#"{"a":"x","o":{"b":"y","n":1}}"#);
    assert_eq!(value_plain_text(&Value::from("a\"b")), "a\"b");
}

#[test]
fn an_adapter_is_sent_where_there_is_a_token() {
    let yaml = "a: \"b\\c\"\n\t\r\u{8}\u{c}\u{0}\u{1f}é/\u{7f}🔄";
    let (line, request) = match upload_adapter(Some("acli_1"), None, yaml) {
        UploadPlan::Send { line, request } => (line, request),
        UploadPlan::Skip { .. } => panic!("request expected"),
    };
    assert_eq!(line, "☁️  Uploading adapter...");
    assert_eq!(request.url, "http://127.0.0.1:8001/api/sites/upload");
    assert_eq!(
        request.headers,
        vec![
            ("Authorization".to_string(), "Bearer acli_1".to_string()),
            ("Content-Type".to_string(), "application/json".to_string()),
        ]
    );
    assert_eq!(request.timeout_seconds, 30);
    assert_eq!(request.method, Method::Post);
    let body = request.body.unwrap();
    assert_eq!(
        body,
        "{\"config\":\"a: \\\"b\\\\c\\\"\\n\\t\\r\\b\\f\\u0000\\u001fé/\u{7f}🔄\"}"
    );
    let read: Value = serde_json::from_str(&body).unwrap();
    assert_eq!(text_at(&read, "config"), Some(yaml));
}

#[test]
fn the_environment_names_the_address() {
    match upload_adapter(Some("t"), Some("https://api/up"), "y") {
        UploadPlan::Send { request, .. } => assert_eq!(request.url, "https://api/up"),
        UploadPlan::Skip { .. } => panic!("request expected"),
    }
}

#[test]
fn without_a_token_nothing_is_sent() {
    match upload_adapter(None, Some("https://api/up"), "y") {
        UploadPlan::Skip { line } => assert_eq!(
            line,
            "⏭️  No autocli-token configured, skipping upload. Run: opencli-rs auth --token <token>"
        ),
        UploadPlan::Send { .. } => panic!("nothing should be sent"),
    }
}

fn answered(status: u16, status_text: &str, body: &str) -> String {
    upload_result(&UploadReply::Answered {
        status,
        status_text: status_text.to_string(),
        body: body.to_string(),
    })
}

#[test]
fn uploads_say_what_came_of_them() {
    assert_eq!(
        upload_result(&UploadReply::NoClient("tls".to_string())),
        "❌ Failed to create HTTP client: tls"
    );
    assert_eq!(
        upload_result(&UploadReply::Unreachable("refused".to_string())),
        "❌ Upload failed: refused"
    );
    assert_eq!(answered(201, "201 Created", "x"), "✅ Adapter uploaded successfully");
    assert_eq!(
        answered(403, "403 Forbidden", "no"),
        "❌ Upload failed (403 Forbidden): no"
    );
    assert_eq!(answered(500, "500", ""), "❌ Upload failed (500): ");
}

#[test]
fn long_answers_are_cut() {
    let short = "a".repeat(200);
    assert_eq!(answered(500, "500", &short), format!("❌ Upload failed (500): {}", short));
    let long = "a".repeat(201);
    assert_eq!(answered(500, "500", &long), format!("❌ Upload failed (500): {}", short));
    let wide = "é".repeat(150);
    assert!(excerpt_fits(&wide));
    assert_eq!(answered(500, "500", &wide), format!("❌ Upload failed (500): {}", "é".repeat(100)));
}

#[test]
fn a_cut_inside_a_character_is_noticed() {
    assert!(excerpt_fits(""));
    assert!(!excerpt_fits(&"字".repeat(100)));
    assert!(excerpt_fits(&"字".repeat(66)));
    assert!(!excerpt_fits(&format!("{}é", "a".repeat(199))));
    assert!(excerpt_fits(&format!("{}é", "a".repeat(198))));
}

#[test]
fn adapters_stand_below_the_home_directory() {
    assert_eq!(home_dir(Some("/home/a"), Some("C:\\a")), "/home/a");
    assert_eq!(home_dir(None, Some("C:\\a")), "C:\\a");
    assert_eq!(home_dir(None, None), ".");
    assert_eq!(adapter_dirs("zhihu"), vec![".opencli-rs", "adapters", "zhihu"]);
    assert_eq!(adapter_file_name("hot"), "hot.yaml");
    assert_ne!(adapter_file_name("hot"), adapter_file_name("hot.yaml"));
}

#[test]
fn a_kept_adapter_is_reported() {
    let outcome = SaveOutcome::Saved { path: "/h/zhihu/hot.yaml".to_string() };
    let report = save_adapter("zhihu", "hot", "y", &outcome);
    assert_eq!(
        report.lines,
        vec![
            "✅ Generated adapter: zhihu hot",
            "   Saved to: /h/zhihu/hot.yaml",
            "",
            "   Run it now:",
            "   opencli-rs zhihu hot",
        ]
    );
    assert_eq!(report.output, None);
}

#[test]
fn an_adapter_that_is_not_kept_is_printed() {
    let outcome = SaveOutcome::Failed { detail: "disk full".to_string() };
    let report = save_adapter("zhihu", "hot", "site: zhihu", &outcome);
    assert_eq!(report.lines, vec!["Generated adapter but failed to save: disk full", ""]);
    assert_eq!(report.output.as_deref(), Some("site: zhihu"));
}
