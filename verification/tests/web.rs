use led_control::text::decimal;
use led_control::web::{
    asset_path, proxy_target_url, static_reply, StaticReply, GPIO_API_URL, NOT_FOUND_BODY,
};

#[test]
fn proxy_url_without_query() {
    assert_eq!(proxy_target_url("rgb-leds", None), "http://127.0.0.1:8080/api/rgb-leds");
    assert_eq!(GPIO_API_URL, "http://127.0.0.1:8080");
}

#[test]
fn proxy_url_with_query() {
    assert_eq!(
        proxy_target_url("current-animation/3", Some("a=1&b=2")),
        "http://127.0.0.1:8080/api/current-animation/3?a=1&b=2"
    );
    assert_eq!(proxy_target_url("x", Some("")), "http://127.0.0.1:8080/api/x?");
}

#[test]
fn asset_path_trims_slashes_and_defaults_to_index() {
    assert_eq!(asset_path("/"), "index.html");
    assert_eq!(asset_path(""), "index.html");
    assert_eq!(asset_path("///"), "index.html");
    assert_eq!(asset_path("/style.css"), "style.css");
    assert_eq!(asset_path("//js/app.js"), "js/app.js");
    assert_eq!(asset_path("img/a/b.png"), "img/a/b.png");
}

#[test]
fn asset_path_is_stable() {
    for p in ["/", "//a//b", "c", "/index.html"] {
        let once = asset_path(p);
        assert_eq!(asset_path(&once), once);
        assert!(!once.starts_with('/'));
        assert!(!once.is_empty());
    }
}

#[test]
fn static_reply_found_uses_the_guessed_type() {
    match static_reply("index.html", Some(vec![1, 2, 3])) {
        StaticReply::Asset { content_type, data } => {
            assert_eq!(content_type, "text/html");
            assert_eq!(data, vec![1, 2, 3]);
        }
        StaticReply::NotFound => panic!("expected an asset"),
    }
    match static_reply("css/style.css", Some(vec![])) {
        StaticReply::Asset { content_type, .. } => assert_eq!(content_type, "text/css"),
        StaticReply::NotFound => panic!("expected an asset"),
    }
    match static_reply("LICENSE", Some(vec![0])) {
        StaticReply::Asset { content_type, .. } => {
            assert_eq!(content_type, "application/octet-stream")
        }
        StaticReply::NotFound => panic!("expected an asset"),
    }
}

#[test]
fn static_reply_statuses() {
    let found = static_reply("app.js", Some(vec![b'x']));
    assert_eq!(found.status(), 200);
    let missing = static_reply("nope.html", None);
    assert!(matches!(missing, StaticReply::NotFound));
    assert_eq!(missing.status(), 404);
    assert_eq!(NOT_FOUND_BODY, "404 Not Found");
}

#[test]
fn decimal_matches_format() {
    for n in [0usize, 1, 9, 10, 42, 100, 255, 1000, 987654321, usize::MAX] {
        assert_eq!(decimal(n), format!("{}", n));
    }
}
