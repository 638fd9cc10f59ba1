use meme_pipeline::controller::pick_feed;
use meme_pipeline::controller::run_cycle;
use meme_pipeline::controller::CycleOutcome;
use meme_pipeline::dom::Dom;
use meme_pipeline::dom::Element;
use meme_pipeline::errors::AppError;
use meme_pipeline::errors::ElementId;
use meme_pipeline::json::JsonValue;

fn obj(pairs: Vec<(&str, JsonValue)>) -> JsonValue {
    JsonValue::Object(pairs.into_iter().map(|(k, v)| (k.to_string(), v)).collect())
}

fn s(text: &str) -> JsonValue {
    JsonValue::Str(text.to_string())
}

fn blank_element() -> Element {
    Element {
        class_name: String::new(),
        inner_html: String::new(),
        src: String::new(),
        alt: String::new(),
        text: String::new(),
    }
}

fn full_dom() -> Dom {
    Dom {
        video: Some(blank_element()),
        image: Some(blank_element()),
        title: Some(blank_element()),
        subreddit: Some(blank_element()),
        mode: Some(blank_element()),
        switch: Some(blank_element()),
    }
}

fn one_image_post_feed() -> JsonValue {
    obj(vec![(
        "data",
        obj(vec![(
            "children",
            JsonValue::Array(vec![obj(vec![(
                "data",
                obj(vec![
                    ("is_video", JsonValue::Bool(false)),
                    ("url", s("https://i.example/meme.png")),
                    ("subreddit", s("memes")),
                    ("title", s("startup meme")),
                ]),
            )])]),
        )]),
    )])
}

fn empty_feed() -> JsonValue {
    obj(vec![("data", obj(vec![("children", JsonValue::Array(Vec::new()))]))])
}

#[test]
fn cycle_with_one_image_post_renders_it() {
    // startup: the session's feed comes out of the catalog first
    let names = vec!["memes".to_string()];
    let link = pick_feed(&names, 11).unwrap();
    assert_eq!(link, "https://www.reddit.com/r/memes.json");

    let mut dom = full_dom();
    let outcome = run_cycle(Ok(one_image_post_feed()), 0, "rounded", &mut dom);
    assert_eq!(outcome, CycleOutcome::Rendered);
    let image = dom.image.unwrap();
    assert_eq!(image.src, "https://i.example/meme.png");
    assert_eq!(image.class_name, "rounded");
    let video = dom.video.unwrap();
    assert_eq!(video.inner_html, "");
    assert_eq!(video.class_name, "hidden");
    assert_eq!(dom.title.unwrap().text, "startup meme");
    assert_eq!(dom.subreddit.unwrap().text, "memes");
}

#[test]
fn cycle_with_empty_feed_fails_and_leaves_page_alone() {
    let mut dom = full_dom();
    if let Some(el) = dom.title.as_mut() {
        el.text = "previous title".to_string();
    }
    let outcome = run_cycle(Ok(empty_feed()), 0, "rounded", &mut dom);
    assert_eq!(outcome, CycleOutcome::Failed(AppError::NoCandidates));
    // nothing was overwritten: extraction failed before any render write
    assert_eq!(dom.title.unwrap().text, "previous title");
    let image = dom.image.unwrap();
    assert_eq!(image.src, "");
    assert_eq!(image.class_name, "");
    let video = dom.video.unwrap();
    assert_eq!(video.inner_html, "");
    assert_eq!(video.class_name, "");
}

#[test]
fn cycle_with_transport_failure_keeps_page() {
    let mut dom = full_dom();
    let outcome = run_cycle(Err(AppError::Transport), 0, "rounded", &mut dom);
    assert_eq!(outcome, CycleOutcome::Failed(AppError::Transport));
    assert_eq!(dom.image.unwrap().src, "");
}

#[test]
fn cycle_reports_missing_render_element() {
    let mut dom = full_dom();
    dom.title = None;
    let outcome = run_cycle(Ok(one_image_post_feed()), 0, "rounded", &mut dom);
    assert_eq!(
        outcome,
        CycleOutcome::Failed(AppError::ElementNotFound(ElementId::Title))
    );
}
