use asoul_weekly::classify::{classify, extract_shortcut_change_category_url, Classified};
use asoul_weekly::command::{Command, Error};
use asoul_weekly::dispatch::finish_shortcut;
use asoul_weekly::resolver::{resolve_step, ResolveStep};

const NOW: i64 = 1_700_000_000;

fn chars(s: &str) -> Vec<char> {
    s.chars().collect()
}

fn text(v: &[char]) -> String {
    v.iter().collect()
}

#[test]
fn test_query_category() {
    match classify(&chars("分类  BV1AR4y147gy"), NOW) {
        Classified::Matched(Command::Query { id }) => assert_eq!(text(&id), "BV1AR4y147gy"),
        other => panic!("not a query: {:?}", text_of(&other)),
    }
    match classify(&chars("分类  587803185410047312"), NOW) {
        Classified::Matched(Command::Query { id }) => {
            assert_eq!(text(&id), "587803185410047312")
        }
        other => panic!("not a query: {:?}", text_of(&other)),
    }
    match classify(&chars("分类 587803185410047312"), NOW) {
        Classified::Matched(Command::Query { id }) => {
            assert_eq!(text(&id), "587803185410047312")
        }
        other => panic!("not a query: {:?}", text_of(&other)),
    }
    match classify(&chars("? 587803185410047312"), NOW) {
        Classified::Matched(Command::Query { id }) => {
            assert_eq!(text(&id), "587803185410047312")
        }
        other => panic!("not a query: {:?}", text_of(&other)),
    }
    assert!(matches!(classify(&chars("？啥"), NOW), Classified::NoMatch));
    match classify(&chars("？ 587803185410047312"), NOW) {
        Classified::Matched(Command::Query { id }) => {
            assert_eq!(text(&id), "587803185410047312")
        }
        other => panic!("not a query: {:?}", text_of(&other)),
    }
}

#[test]
fn test_change_category() {
    match classify(&chars("修改分类  BV1AR4y147gy  其他"), NOW) {
        Classified::Matched(Command::Change { id, category }) => {
            assert_eq!(text(&id), "BV1AR4y147gy");
            assert_eq!(text(&category), "其他");
        }
        other => panic!("not a change: {:?}", text_of(&other)),
    }
    match classify(&chars("修改分类  BV1AR4y147gy  +其他"), NOW) {
        Classified::Matched(Command::Add { id, category }) => {
            assert_eq!(text(&id), "BV1AR4y147gy");
            assert_eq!(text(&category), "其他");
        }
        other => panic!("not an add: {:?}", text_of(&other)),
    }
    match classify(&chars("修改分类  BV1AR4y147gy -"), NOW) {
        Classified::Matched(Command::Delete { id }) => assert_eq!(text(&id), "BV1AR4y147gy"),
        other => panic!("not a delete: {:?}", text_of(&other)),
    }
    match classify(&chars("修改分类  BV1AR4y147gy 删除"), NOW) {
        Classified::Matched(Command::Delete { id }) => assert_eq!(text(&id), "BV1AR4y147gy"),
        other => panic!("not a delete: {:?}", text_of(&other)),
    }
    match classify(&chars("修改分类  BV1AR4y147gy  +A-SOUL"), NOW) {
        Classified::Matched(Command::Add { id, category }) => {
            assert_eq!(text(&id), "BV1AR4y147gy");
            assert_eq!(text(&category), "A-SOUL");
        }
        other => panic!("not an add: {:?}", text_of(&other)),
    }
    match classify(&chars("修改分类  BV1AR4y147gy  A-SOUL"), NOW) {
        Classified::Matched(Command::Change { id, category }) => {
            assert_eq!(text(&id), "BV1AR4y147gy");
            assert_eq!(text(&category), "A-SOUL");
        }
        other => panic!("not a change: {:?}", text_of(&other)),
    }
}

#[test]
fn test_other_command() {
    assert!(matches!(
        classify(&chars("kpi"), NOW),
        Classified::Matched(Command::Kpi { date: NOW })
    ));
    assert!(matches!(
        classify(&chars("归档"), NOW),
        Classified::Matched(Command::Summary { date: NOW })
    ));
}

#[test]
fn test_relative_dates() {
    assert!(matches!(
        classify(&chars("今日kpi"), NOW),
        Classified::Matched(Command::Kpi { date: NOW })
    ));
    let yesterday = NOW - 86_400;
    assert!(matches!(
        classify(&chars("昨天归档"), NOW),
        Classified::Matched(Command::Summary { date }) if date == yesterday
    ));
    let before = NOW - 2 * 86_400;
    assert!(matches!(
        classify(&chars("前天kpi"), NOW),
        Classified::Matched(Command::Kpi { date }) if date == before
    ));
    assert!(matches!(
        classify(&chars("今天KPI"), NOW),
        Classified::Matched(Command::Kpi { date: NOW })
    ));
}

#[test]
fn test_vocabulary_fallthrough_is_silent() {
    assert!(matches!(classify(&chars("上周归档"), NOW), Classified::NoMatch));
    assert!(matches!(classify(&chars("什么是kpi"), NOW), Classified::NoMatch));
    assert!(matches!(classify(&chars("你好"), NOW), Classified::NoMatch));
}

#[test]
fn test_format_errors_are_rejections() {
    assert!(matches!(
        classify(&chars("分类"), NOW),
        Classified::Rejected(Error::QueryFormat)
    ));
    assert!(matches!(
        classify(&chars("?什么 东西"), NOW),
        Classified::Rejected(Error::QueryFormat)
    ));
    assert!(matches!(
        classify(&chars("修改分类 BV1AR4y147gy"), NOW),
        Classified::Rejected(Error::ChangeFormat)
    ));
    assert!(matches!(
        classify(&chars("修改分类 BV1AR4y147gy 其他 多余"), NOW),
        Classified::Rejected(Error::ChangeFormat)
    ));
}

#[test]
fn test_shortcut() {
    match classify(&chars("https://b23.tv/oNcAbk +"), NOW) {
        Classified::Resolve { url, add } => {
            assert_eq!(text(&url), "https://b23.tv/oNcAbk");
            assert!(add);
            assert!(matches!(resolve_step(&url), Ok(ResolveStep::Fetch)));
        }
        other => panic!("not a shortcut: {:?}", text_of(&other)),
    }
    match classify(&chars("https://b23.tv/oNcAbk [@人] +"), NOW) {
        Classified::Resolve { url, add } => {
            assert_eq!(text(&url), "https://b23.tv/oNcAbk");
            assert!(add);
        }
        other => panic!("not a shortcut: {:?}", text_of(&other)),
    }
    match classify(&chars("[@人] https://b23.tv/oNcAbk +"), NOW) {
        Classified::Resolve { url, add } => {
            assert_eq!(text(&url), "https://b23.tv/oNcAbk");
            assert!(add);
        }
        other => panic!("not a shortcut: {:?}", text_of(&other)),
    }
    match classify(&chars("https://b23.tv/oNcAbk   -"), NOW) {
        Classified::Resolve { url, add } => {
            assert_eq!(text(&url), "https://b23.tv/oNcAbk");
            assert!(!add);
        }
        other => panic!("not a shortcut: {:?}", text_of(&other)),
    }
    // A canonical long-form link resolves without any network traffic and
    // yields the same command the redirect target would.
    match classify(&chars("https://t.bilibili.com/548810564605393067  +"), NOW) {
        Classified::Resolve { url, add } => {
            assert_eq!(text(&url), "https://t.bilibili.com/548810564605393067");
            match resolve_step(&url) {
                Ok(ResolveStep::Resolved(id)) => {
                    assert_eq!(text(&id), "548810564605393067");
                    match finish_shortcut(id, add) {
                        Command::Add { id, category } => {
                            assert_eq!(text(&id), "548810564605393067");
                            assert_eq!(text(&category), "动态");
                        }
                        _ => panic!("not an add"),
                    }
                }
                _ => panic!("canonical link asked for a fetch"),
            }
        }
        other => panic!("not a shortcut: {:?}", text_of(&other)),
    }
    assert!(matches!(
        classify(&chars("https://example.com/123  +"), NOW),
        Classified::NoMatch
    ));
    // Without the trailing sign the same link is unrelated chat.
    assert!(matches!(
        classify(&chars("https://b23.tv/oNcAbk"), NOW),
        Classified::NoMatch
    ));
}

#[test]
fn test_is_shortcut_change_category() {
    assert_eq!(
        extract_shortcut_change_category_url(&chars("https://b23.tv/oNcAbk +"))
            .map(|v| text(&v)),
        Some("https://b23.tv/oNcAbk".to_string())
    );
    assert_eq!(
        extract_shortcut_change_category_url(&chars("https://b23.tv/oNcAbk    +"))
            .map(|v| text(&v)),
        Some("https://b23.tv/oNcAbk".to_string())
    );
    assert_eq!(
        extract_shortcut_change_category_url(&chars("https://b23.tv/oNcAbk    -"))
            .map(|v| text(&v)),
        Some("https://b23.tv/oNcAbk".to_string())
    );
    assert_eq!(
        extract_shortcut_change_category_url(&chars("+ https://b23.tv/oNcAbk +"))
            .map(|v| text(&v)),
        Some("https://b23.tv/oNcAbk".to_string())
    );
    assert_eq!(
        extract_shortcut_change_category_url(&chars(
            "https://t.bilibili.com/548810564605393067  +"
        ))
        .map(|v| text(&v)),
        Some("https://t.bilibili.com/548810564605393067".to_string())
    );
    assert_eq!(
        extract_shortcut_change_category_url(&chars("https://example.com/123  +"))
            .map(|v| text(&v)),
        None
    );
}

#[test]
fn test_plus_runs_are_trimmed() {
    match classify(&chars("修改分类 BV1AR4y147gy ++翻唱"), NOW) {
        Classified::Matched(Command::Add { category, .. }) => {
            assert_eq!(text(&category), "翻唱")
        }
        other => panic!("not an add: {:?}", text_of(&other)),
    }
    // A token of sentinels alone would leave an empty category, which no
    // command may store: it is malformed.
    assert!(matches!(
        classify(&chars("修改分类 BV1AR4y147gy +"), NOW),
        Classified::Rejected(Error::ChangeFormat)
    ));
    assert!(matches!(
        classify(&chars("修改分类 BV1AR4y147gy +++"), NOW),
        Classified::Rejected(Error::ChangeFormat)
    ));
}

fn text_of(c: &Classified) -> String {
    match c {
        Classified::NoMatch => "no match".to_string(),
        Classified::Matched(_) => "a command".to_string(),
        Classified::Resolve { url, .. } => format!("resolve {}", text(url)),
        Classified::Rejected(_) => "rejected".to_string(),
    }
}
