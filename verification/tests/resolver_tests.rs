use asoul_weekly::command::Error;
use asoul_weekly::resolver::{canonical_id, resolve_location, resolve_step, ResolveStep};

fn chars(s: &str) -> Vec<char> {
    s.chars().collect()
}

fn text(v: &[char]) -> String {
    v.iter().collect()
}

#[test]
fn test_get_redirected_id() {
    // Canonical long-form links are resolved by extraction alone.
    match resolve_step(&chars("https://t.bilibili.com/581071094762952016")) {
        Ok(ResolveStep::Resolved(id)) => assert_eq!(text(&id), "581071094762952016"),
        _ => panic!("canonical link did not resolve in place"),
    }
    match resolve_step(&chars("https://m.bilibili.com/dynamic/581071094762952016?share_")) {
        Ok(ResolveStep::Resolved(id)) => assert_eq!(text(&id), "581071094762952016"),
        _ => panic!("canonical link did not resolve in place"),
    }
    // A short link asks for one fetch; an unknown host is refused.
    assert!(matches!(
        resolve_step(&chars("https://b23.tv/oNcAbk")),
        Ok(ResolveStep::Fetch)
    ));
    assert!(matches!(
        resolve_step(&chars("https://example.com")),
        Err(Error::UnrecognizedLink)
    ));
}

#[test]
fn test_resolve_location() {
    // No Location header: the redirect failed; never an empty identifier.
    assert!(matches!(resolve_location(&None), Err(Error::RedirectFailed)));
    // A canonical Location yields the same identifier direct extraction
    // would.
    let loc = chars("https://m.bilibili.com/dynamic/581071094762952016?share_source=x");
    match resolve_location(&Some(loc.clone())) {
        Ok(id) => assert_eq!(text(&id), "581071094762952016"),
        _ => panic!("canonical location did not resolve"),
    }
    match canonical_id(&loc) {
        Some(id) => assert_eq!(text(&id), "581071094762952016"),
        None => panic!("canonical location did not match"),
    }
    // A Location without an identifier is a distinct failure.
    assert!(matches!(
        resolve_location(&Some(chars("https://www.bilibili.com/video/BV1xx"))),
        Err(Error::IdNotFound)
    ));
}

#[test]
fn test_canonical_id_picks_leftmost() {
    let u = chars("见 https://t.bilibili.com/111 和 https://t.bilibili.com/222");
    assert_eq!(canonical_id(&u).map(|v| text(&v)), Some("111".to_string()));
    assert_eq!(canonical_id(&chars("https://t.bilibili.com/")), None);
    assert_eq!(canonical_id(&chars("t.bilibili.com/123")), None);
}
