use vstd::prelude::*;
use vstd::string::StringExecFns;

use crate::errors::AppError;
use crate::json::JsonValue;
use crate::json::spec_field;
use crate::json::spec_str_field;
use crate::random::get_random;

verus! {

/// The media reference of a post: exactly one of the two kinds is active.
/// The tag is derived from the post's `is_video` flag at extraction time and
/// never re-derived later.
#[derive(Debug)]
pub enum Url {
    Video(String),
    Image(String),
}

/// Spec-level image of `Url`.
pub enum UrlView {
    Video(Seq<char>),
    Image(Seq<char>),
}

impl View for Url {
    type V = UrlView;

    open spec fn view(&self) -> UrlView {
        match self {
            Url::Video(s) => UrlView::Video(s@),
            Url::Image(s) => UrlView::Image(s@),
        }
    }
}

/// The normalized, render-ready record extracted from a single post.
#[derive(Debug)]
pub struct Meme {
    pub url: Url,
    pub subreddit: String,
    pub title: String,
    pub css: String,
}

/// Spec-level image of `Meme`.
pub struct MemeView {
    pub url: UrlView,
    pub subreddit: Seq<char>,
    pub title: Seq<char>,
    pub css: Seq<char>,
}

impl View for Meme {
    type V = MemeView;

    open spec fn view(&self) -> MemeView {
        MemeView {
            url: self.url@,
            subreddit: self.subreddit@,
            title: self.title@,
            css: self.css@,
        }
    }
}

/// The post list of a feed document: its `data.children` array, when that
/// path is there and is an array.
pub open spec fn spec_children(doc: JsonValue) -> Option<Seq<JsonValue>> {
    match spec_field(doc, "data"@) {
        Some(d) => match spec_field(d, "children"@) {
            Some(JsonValue::Array(a)) => Some(a@),
            _ => None,
        },
        None => None,
    }
}

/// The nested scrubber media URL of a video post's `data` node.
pub open spec fn spec_video_url(head: JsonValue) -> Option<Seq<char>> {
    match spec_field(head, "media"@) {
        Some(m) => match spec_field(m, "reddit_video"@) {
            Some(rv) => spec_str_field(rv, "scrubber_media_url"@),
            None => None,
        },
        None => None,
    }
}

/// The last extraction step: reads the post's subreddit and title and stamps
/// the caller-supplied presentation class.
pub open spec fn spec_finish(head: JsonValue, url: UrlView, css: Seq<char>) -> Result<
    MemeView,
    AppError,
> {
    match spec_str_field(head, "subreddit"@) {
        None => Err(AppError::MalformedFeed),
        Some(sub) => match spec_str_field(head, "title"@) {
            None => Err(AppError::MalformedFeed),
            Some(t) => Ok(MemeView { url, subreddit: sub, title: t, css }),
        },
    }
}

/// What extraction yields on `doc` with raw random word `entropy` and
/// presentation class `css`: the exact model `get_meme` is proved against.
///
/// A missing or non-array post list is a malformed feed; an empty one leaves
/// nothing to pick from; a post whose `is_video` flag is not a boolean is a
/// type-conversion failure; a missing or non-string media, subreddit or title
/// field is again a malformed feed.
pub open spec fn spec_extract(doc: JsonValue, entropy: u64, css: Seq<char>) -> Result<
    MemeView,
    AppError,
> {
    match spec_children(doc) {
        None => Err(AppError::MalformedFeed),
        Some(children) => if children.len() == 0 {
            Err(AppError::NoCandidates)
        } else {
            let post = children[entropy as int % children.len() as int];
            match spec_field(post, "data"@) {
                None => Err(AppError::TypeConversion),
                Some(head) => match spec_field(head, "is_video"@) {
                    Some(JsonValue::Bool(true)) => match spec_video_url(head) {
                        Some(u) => spec_finish(head, UrlView::Video(u), css),
                        None => Err(AppError::MalformedFeed),
                    },
                    Some(JsonValue::Bool(false)) => match spec_str_field(head, "url"@) {
                        Some(u) => spec_finish(head, UrlView::Image(u), css),
                        None => Err(AppError::MalformedFeed),
                    },
                    _ => Err(AppError::TypeConversion),
                },
            }
        },
    }
}

/// Law: a meme is only ever extracted from a post whose `is_video` flag is a
/// real boolean — never guessed from anything else — and the media kind
/// follows that flag exactly: video when true, image when false. The record
/// carries the chosen post's subreddit and title and the caller's
/// presentation class.
pub proof fn lemma_media_kind_follows_flag(doc: JsonValue, entropy: u64, css: Seq<char>)
    requires
        spec_extract(doc, entropy, css) is Ok,
    ensures
        ({
            let children = spec_children(doc).unwrap();
            let post = children[entropy as int % children.len() as int];
            let head = spec_field(post, "data"@).unwrap();
            let m = spec_extract(doc, entropy, css).unwrap();
            &&& spec_children(doc) is Some
            &&& spec_field(post, "data"@) is Some
            &&& (spec_field(head, "is_video"@) matches Some(JsonValue::Bool(b)) && (m.url
                is Video <==> b))
            &&& spec_str_field(head, "subreddit"@) == Some(m.subreddit)
            &&& spec_str_field(head, "title"@) == Some(m.title)
            &&& m.css == css
        }),
{
}

/// Navigates the feed document to its post list, picks one post with the raw
/// random word `entropy`, classifies it as video or image off its `is_video`
/// flag, and assembles the render-ready record, stamped with the
/// caller-supplied presentation class. String fields come out bare, never
/// JSON-quoted, because the tree holds them as plain strings.
pub fn get_meme(doc: &JsonValue, entropy: u64, css: &str) -> (r: Result<Meme, AppError>)
    ensures
        (match r {
            Ok(m) => spec_extract(*doc, entropy, css@) == Ok::<MemeView, AppError>(m@),
            Err(e) => spec_extract(*doc, entropy, css@) == Err::<MemeView, AppError>(e),
        }),
{
    let data = match doc.get_field("data") {
        Some(v) => v,
        None => return Err(AppError::MalformedFeed),
    };
    let children = match data.get_field("children") {
        Some(v) => v,
        None => return Err(AppError::MalformedFeed),
    };
    let arr = match children {
        JsonValue::Array(a) => a,
        _ => return Err(AppError::MalformedFeed),
    };
    let idx = match get_random(arr.len(), entropy) {
        Ok(i) => i,
        Err(e) => return Err(e),
    };
    let head = match arr[idx].get_field("data") {
        Some(v) => v,
        None => return Err(AppError::TypeConversion),
    };
    let is_video = match head.get_field("is_video") {
        Some(JsonValue::Bool(b)) => *b,
        _ => return Err(AppError::TypeConversion),
    };
    let url = if is_video {
        let media = match head.get_field("media") {
            Some(v) => v,
            None => return Err(AppError::MalformedFeed),
        };
        let rv = match media.get_field("reddit_video") {
            Some(v) => v,
            None => return Err(AppError::MalformedFeed),
        };
        match rv.get_field("scrubber_media_url") {
            Some(JsonValue::Str(s)) => Url::Video(s.clone()),
            _ => return Err(AppError::MalformedFeed),
        }
    } else {
        match head.get_field("url") {
            Some(JsonValue::Str(s)) => Url::Image(s.clone()),
            _ => return Err(AppError::MalformedFeed),
        }
    };
    let subreddit = match head.get_field("subreddit") {
        Some(JsonValue::Str(s)) => s.clone(),
        _ => return Err(AppError::MalformedFeed),
    };
    let title = match head.get_field("title") {
        Some(JsonValue::Str(s)) => s.clone(),
        _ => return Err(AppError::MalformedFeed),
    };
    Ok(Meme { url, subreddit, title, css: String::from_str(css) })
}

} // verus!
