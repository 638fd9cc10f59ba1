use meme_pipeline::errors::AppError;
use meme_pipeline::extract::get_meme;
use meme_pipeline::extract::Url;
use meme_pipeline::json::JsonValue;

fn obj(pairs: Vec<(&str, JsonValue)>) -> JsonValue {
    JsonValue::Object(pairs.into_iter().map(|(k, v)| (k.to_string(), v)).collect())
}

fn s(text: &str) -> JsonValue {
    JsonValue::Str(text.to_string())
}

fn feed_doc(children: Vec<JsonValue>) -> JsonValue {
    obj(vec![("data", obj(vec![("children", JsonValue::Array(children))]))])
}

fn image_post(url: &str, subreddit: &str, title: &str) -> JsonValue {
    obj(vec![(
        "data",
        obj(vec![
            ("is_video", JsonValue::Bool(false)),
            ("url", s(url)),
            ("subreddit", s(subreddit)),
            ("title", s(title)),
        ]),
    )])
}

fn video_post(scrubber: &str, subreddit: &str, title: &str) -> JsonValue {
    obj(vec![(
        "data",
        obj(vec![
            ("is_video", JsonValue::Bool(true)),
            (
                "media",
                obj(vec![(
                    "reddit_video",
                    obj(vec![("scrubber_media_url", s(scrubber))]),
                )]),
            ),
            ("url", s("https://v.example/fallback")),
            ("subreddit", s(subreddit)),
            ("title", s(title)),
        ]),
    )])
}

#[test]
fn extract_empty_children_fails_with_no_candidates() {
    let doc = feed_doc(Vec::new());
    match get_meme(&doc, 0, "css") {
        Err(e) => assert_eq!(e, AppError::NoCandidates),
        Ok(_) => panic!("extraction succeeded on an empty post list"),
    }
}

#[test]
fn extract_image_post_gives_bare_url() {
    let doc = feed_doc(vec![image_post("https://i.example/x.png", "memes", "a cat")]);
    let meme = get_meme(&doc, 0, "rounded").unwrap();
    match meme.url {
        Url::Image(u) => assert_eq!(u, "https://i.example/x.png"),
        Url::Video(_) => panic!("image post classified as video"),
    }
    assert_eq!(meme.subreddit, "memes");
    assert_eq!(meme.title, "a cat");
    assert_eq!(meme.css, "rounded");
}

#[test]
fn extract_video_post_gives_scrubber_url() {
    let doc = feed_doc(vec![video_post(
        "https://v.example/clip.mp4",
        "shitposts",
        "a clip",
    )]);
    let meme = get_meme(&doc, 0, "css").unwrap();
    match meme.url {
        Url::Video(u) => assert_eq!(u, "https://v.example/clip.mp4"),
        Url::Image(_) => panic!("video post classified as image"),
    }
    assert_eq!(meme.subreddit, "shitposts");
    assert_eq!(meme.title, "a clip");
}

#[test]
fn extract_picks_post_by_entropy_modulo_length() {
    let doc = feed_doc(vec![
        image_post("https://i.example/first.png", "memes", "first"),
        image_post("https://i.example/second.png", "memes", "second"),
    ]);
    let meme = get_meme(&doc, 3, "css").unwrap();
    assert_eq!(meme.title, "second");
    let meme = get_meme(&doc, 4, "css").unwrap();
    assert_eq!(meme.title, "first");
}

#[test]
fn extract_missing_children_is_malformed() {
    let doc = obj(vec![("data", obj(vec![("after", JsonValue::Null)]))]);
    assert_eq!(get_meme(&doc, 0, "css").unwrap_err(), AppError::MalformedFeed);
}

#[test]
fn extract_missing_data_is_malformed() {
    let doc = obj(vec![("kind", s("Listing"))]);
    assert_eq!(get_meme(&doc, 0, "css").unwrap_err(), AppError::MalformedFeed);
}

#[test]
fn extract_children_not_array_is_malformed() {
    let doc = obj(vec![("data", obj(vec![("children", s("oops"))]))]);
    assert_eq!(get_meme(&doc, 0, "css").unwrap_err(), AppError::MalformedFeed);
}

#[test]
fn extract_is_video_string_is_type_conversion() {
    let doc = feed_doc(vec![obj(vec![(
        "data",
        obj(vec![("is_video", s("false")), ("url", s("https://i.example/x.png"))]),
    )])]);
    assert_eq!(
        get_meme(&doc, 0, "css").unwrap_err(),
        AppError::TypeConversion
    );
}

#[test]
fn extract_missing_is_video_is_type_conversion() {
    let doc = feed_doc(vec![obj(vec![(
        "data",
        obj(vec![("url", s("https://i.example/x.png"))]),
    )])]);
    assert_eq!(
        get_meme(&doc, 0, "css").unwrap_err(),
        AppError::TypeConversion
    );
}

#[test]
fn extract_post_without_data_is_type_conversion() {
    let doc = feed_doc(vec![obj(vec![("kind", s("t3"))])]);
    assert_eq!(
        get_meme(&doc, 0, "css").unwrap_err(),
        AppError::TypeConversion
    );
}

#[test]
fn extract_video_without_scrubber_is_malformed() {
    let doc = feed_doc(vec![obj(vec![(
        "data",
        obj(vec![
            ("is_video", JsonValue::Bool(true)),
            ("media", obj(vec![("reddit_video", obj(Vec::new()))])),
        ]),
    )])]);
    assert_eq!(get_meme(&doc, 0, "css").unwrap_err(), AppError::MalformedFeed);
}

#[test]
fn extract_image_without_url_is_malformed() {
    let doc = feed_doc(vec![obj(vec![(
        "data",
        obj(vec![("is_video", JsonValue::Bool(false))]),
    )])]);
    assert_eq!(get_meme(&doc, 0, "css").unwrap_err(), AppError::MalformedFeed);
}

#[test]
fn extract_missing_title_is_malformed() {
    let doc = feed_doc(vec![obj(vec![(
        "data",
        obj(vec![
            ("is_video", JsonValue::Bool(false)),
            ("url", s("https://i.example/x.png")),
            ("subreddit", s("memes")),
        ]),
    )])]);
    assert_eq!(get_meme(&doc, 0, "css").unwrap_err(), AppError::MalformedFeed);
}
