use qnxg_backend::zhihu::{article_from_groups, resolve_wx_article, WxArticleError};

#[test]
fn title_and_cover_read_from_page() {
    let page = "<script>var msg_title = 'Campus news';\nvar cdn_url_1_1 = \"https://img.example/c.jpg\";</script>";
    let a = resolve_wx_article(page).unwrap();
    assert_eq!(a.title, "Campus news");
    assert_eq!(a.cover, "https://img.example/c.jpg");
}

#[test]
fn first_match_wins_and_is_lazy() {
    let page = "var msg_title = 'One' + 'Two'; var msg_title = 'Three'; var cdn_url_1_1 = \"a\" \"b\"";
    let a = resolve_wx_article(page).unwrap();
    assert_eq!(a.title, "One");
    assert_eq!(a.cover, "a");
}

#[test]
fn missing_parts_are_reported() {
    assert!(matches!(
        resolve_wx_article("var cdn_url_1_1 = \"x\""),
        Err(WxArticleError::MissingTitle)
    ));
    assert!(matches!(
        resolve_wx_article("var msg_title = 'T'"),
        Err(WxArticleError::MissingCover)
    ));
    assert!(matches!(
        resolve_wx_article("var msg_title = ''; var cdn_url_1_1 = \"x\""),
        Err(WxArticleError::MissingTitle)
    ));
}

#[test]
fn summary_from_found_parts() {
    let a = article_from_groups(Some("t".to_string()), Some("c".to_string())).unwrap();
    assert_eq!(a.title, "t");
    assert_eq!(a.cover, "c");
    assert!(matches!(article_from_groups(None, Some("c".to_string())), Err(WxArticleError::MissingTitle)));
    assert!(matches!(article_from_groups(Some("t".to_string()), None), Err(WxArticleError::MissingCover)));
}
