use asoul_weekly::command::{Command, Error};
use asoul_weekly::dispatch::{dispatch_reply, error_reply, init, message};
use asoul_weekly::executor::{interpret_response, plan_request, Method};

fn chars(s: &str) -> Vec<char> {
    s.chars().collect()
}

fn text(v: &[char]) -> String {
    v.iter().collect()
}

#[test]
fn test_plan_mutations() {
    let base = chars("http://svc");
    let add = Command::Add { id: chars("BV1AR4y147gy"), category: chars("翻唱") };
    let p = plan_request(&add, &base);
    assert_eq!(p.method, Method::Post);
    assert_eq!(text(&p.url), "http://svc/items/BV1AR4y147gy/category");
    assert_eq!(p.body.map(|b| text(&b)), Some("{\"category\":\"翻唱\"}".to_string()));

    let del = Command::Delete { id: chars("587803185410047312") };
    let p = plan_request(&del, &base);
    assert_eq!(p.method, Method::Delete);
    assert_eq!(text(&p.url), "http://svc/items/587803185410047312/category");
    assert!(p.body.is_none());

    let change = Command::Change { id: chars("BV1AR4y147gy"), category: chars("其他") };
    let p = plan_request(&change, &base);
    assert_eq!(p.method, Method::Patch);
    assert_eq!(p.body.map(|b| text(&b)), Some("{\"category\":\"其他\"}".to_string()));

    let query = Command::Query { id: chars("BV1AR4y147gy") };
    let p = plan_request(&query, &base);
    assert_eq!(p.method, Method::Get);
    assert_eq!(text(&p.url), "http://svc/items/BV1AR4y147gy/category");
    assert!(p.body.is_none());
}

#[test]
fn test_body_escaping_matches_the_service_encoder() {
    // The built body must be byte-for-byte what serde_json itself writes
    // for the same category value.
    let tricky = "a\"b\\c\ncontrol\u{1}和\t空";
    let cmd = Command::Add { id: chars("x"), category: chars(tricky) };
    let p = plan_request(&cmd, &chars("http://svc"));
    let mut m = serde_json::Map::new();
    m.insert(
        "category".to_string(),
        serde_json::Value::String(tricky.to_string()),
    );
    let expected = serde_json::Value::Object(m).to_string();
    assert_eq!(p.body.map(|b| text(&b)), Some(expected));
}

#[test]
fn test_plan_dates() {
    let base = chars("http://svc");
    let p = plan_request(&Command::Summary { date: 0 }, &base);
    assert_eq!(text(&p.url), "http://svc/summary?t=1970-01-01T00:00:00Z");
    assert_eq!(p.method, Method::Get);
    let p = plan_request(&Command::Kpi { date: 1_431_648_000 }, &base);
    assert_eq!(text(&p.url), "http://svc/kpi?t=2015-05-15T00:00:00Z");
}

#[test]
fn test_success_messages() {
    let add = Command::Add { id: chars("BV1"), category: chars("翻唱") };
    let r = interpret_response(&add, 200, &chars("")).unwrap();
    assert_eq!(text(&r), "新建 id BV1 为 翻唱 成功");
    let del = Command::Delete { id: chars("BV1") };
    let r = interpret_response(&del, 200, &chars("")).unwrap();
    assert_eq!(text(&r), "删除 id BV1 分类成功");
    let change = Command::Change { id: chars("BV1"), category: chars("其他") };
    let r = interpret_response(&change, 200, &chars("")).unwrap();
    assert_eq!(text(&r), "修改 id BV1 为 其他 成功");
    // Any success status counts, not only 200.
    let r = interpret_response(&del, 204, &chars("")).unwrap();
    assert_eq!(text(&r), "删除 id BV1 分类成功");
}

#[test]
fn test_business_error_is_plain_reply_text() {
    // A 400 with an error envelope surfaces the service's own words, not
    // a transport failure.
    let del = Command::Delete { id: chars("BV1") };
    let r = interpret_response(&del, 400, &chars("{\"error\":\"duplicate\"}")).unwrap();
    assert_eq!(text(&r), "duplicate");
}

#[test]
fn test_envelope_without_error_field_is_rendered_back() {
    let del = Command::Delete { id: chars("BV1") };
    let r = interpret_response(&del, 500, &chars(" {\"a\": 1} ")).unwrap();
    assert_eq!(text(&r), "{\"a\":1}");
}

#[test]
fn test_unparsable_envelope_is_a_transport_error() {
    let del = Command::Delete { id: chars("BV1") };
    let r = interpret_response(&del, 500, &chars("not json"));
    match r {
        Err(e @ Error::Transport(_)) => {
            let reply = text(&error_reply(&e));
            assert!(reply.starts_with("发生错误: "));
        }
        _ => panic!("malformed envelope did not fail as transport"),
    }
}

#[test]
fn test_summary_formatting() {
    let body = chars("{\"动态\":[\"a\",\"b\"],\"翻唱\":[\"x\",\"y\",\"z\",\"w\",\"v\"]}");
    let cmd = Command::Summary { date: 0 };
    let r = interpret_response(&cmd, 200, &body).unwrap();
    assert_eq!(
        text(&r),
        "----- 动态 -----\na\nb\n----- 翻唱 -----\nx  y  z  w\nv\n"
    );
}

#[test]
fn test_summary_empty_and_exact_chunks() {
    let cmd = Command::Summary { date: 0 };
    let r = interpret_response(&cmd, 200, &chars("{}")).unwrap();
    assert_eq!(text(&r), "");
    let r = interpret_response(&cmd, 200, &chars("{\"杂谈\":[\"1\",\"2\",\"3\",\"4\"]}"))
        .unwrap();
    assert_eq!(text(&r), "----- 杂谈 -----\n1  2  3  4\n");
    let bad = interpret_response(&cmd, 200, &chars("[1,2]"));
    assert!(matches!(bad, Err(Error::Transport(_))));
}

#[test]
fn test_kpi_formatting() {
    let body = chars("[{\"name\":\"甲\",\"times\":3},{\"name\":\"乙\",\"times\":12}]");
    let cmd = Command::Kpi { date: 0 };
    let r = interpret_response(&cmd, 200, &body).unwrap();
    assert_eq!(text(&r), "【甲】筛选了【3】个\n【乙】筛选了【12】个\n");
    let body = chars("[{\"name\":\"丙\",\"times\":1000000}]");
    let r = interpret_response(&cmd, 200, &body).unwrap();
    assert_eq!(text(&r), "【丙】筛选了【1000000】个\n");
    let bad = interpret_response(&cmd, 200, &chars("[{\"name\":\"丁\"}]"));
    assert!(matches!(bad, Err(Error::Transport(_))));
}

#[test]
fn test_query_reply() {
    let cmd = Command::Query { id: chars("BV1") };
    let r = interpret_response(&cmd, 200, &chars("{\"category\":\"翻唱\"}")).unwrap();
    assert_eq!(text(&r), "翻唱");
    let r = interpret_response(&cmd, 200, &chars("{}")).unwrap();
    assert_eq!(text(&r), "未分类");
}

#[test]
fn test_error_messages() {
    assert_eq!(
        text(&message(&Error::RedirectFailed)),
        "短链重定向失败"
    );
    assert_eq!(
        text(&message(&Error::IdNotFound)),
        "未在重定向后的链接内解析出动态 id"
    );
    assert_eq!(
        text(&message(&Error::UnrecognizedLink)),
        "链接不识别，应该是 b23.tv 短链或者 t.bilibili.com 长链"
    );
    assert_eq!(
        text(&error_reply(&Error::QueryFormat)),
        "发生错误: 格式错误，格式需要是：\n分类 BVxxxxxxx"
    );
    assert_eq!(
        text(&error_reply(&Error::ChangeFormat)),
        "发生错误: 格式错误，格式需要是：\n修改分类 BVxxxxxxxx 翻唱/删除"
    );
    assert_eq!(
        text(&error_reply(&Error::Transport(chars("connection refused")))),
        "发生错误: connection refused"
    );
}

#[test]
fn test_dispatch_reply() {
    assert!(dispatch_reply(Ok(None)).is_none());
    assert_eq!(
        dispatch_reply(Ok(Some(chars("duplicate")))).map(|v| text(&v)),
        Some("duplicate".to_string())
    );
    assert_eq!(
        dispatch_reply(Err(Error::RedirectFailed)).map(|v| text(&v)),
        Some("发生错误: 短链重定向失败".to_string())
    );
}

#[test]
fn test_init_keeps_the_base_address() {
    let w = init(chars("http://svc"));
    assert_eq!(text(&w.base_url), "http://svc");
    let p = plan_request(&Command::Delete { id: chars("1") }, &w.base_url);
    assert_eq!(text(&p.url), "http://svc/items/1/category");
}
