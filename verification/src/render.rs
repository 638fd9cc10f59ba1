use vstd::prelude::*;
use vstd::string::StringExecFns;

use crate::dom::Dom;
use crate::dom::DomView;
use crate::dom::ElementView;
use crate::errors::AppError;
use crate::errors::ElementId;
use crate::extract::Meme;
use crate::extract::MemeView;
use crate::extract::Url;
use crate::extract::UrlView;

verus! {

/// The class that keeps the inactive presentation element out of sight.
pub open spec fn hidden_class() -> Seq<char> {
    "hidden"@
}

/// The markup written into the video container for one video URL: a source
/// reference with a fixed MIME type annotation.
pub open spec fn video_source_html(link: Seq<char>) -> Seq<char> {
    "<source src=\""@ + link + "\" type=\"video/mp4\""@
}

/// The alternative text every rendered image carries.
pub open spec fn image_alt_text() -> Seq<char> {
    "Image containing the meme"@
}

/// First render stage: the two mutually exclusive media presentations. The
/// active one receives the meme's source and the presentation class; the
/// inactive one is always reset and hidden, never left stale. A missing
/// element stops the stage where the missing element was needed, so writes
/// made before the stop stand (best effort, not transactional).
pub open spec fn spec_render_media(m: MemeView, d: DomView) -> (DomView, Result<(), AppError>) {
    match m.url {
        UrlView::Video(link) => {
            if d.video is None {
                (d, Err(AppError::ElementNotFound(ElementId::Video)))
            } else {
                let d1 = DomView {
                    video: Some(
                        ElementView {
                            inner_html: video_source_html(link),
                            class_name: m.css,
                            ..d.video.unwrap()
                        },
                    ),
                    ..d
                };
                if d.image is None {
                    (d1, Err(AppError::ElementNotFound(ElementId::Image)))
                } else {
                    (
                        DomView {
                            image: Some(
                                ElementView {
                                    src: Seq::empty(),
                                    class_name: hidden_class(),
                                    ..d.image.unwrap()
                                },
                            ),
                            ..d1
                        },
                        Ok(()),
                    )
                }
            }
        },
        UrlView::Image(link) => {
            if d.image is None {
                (d, Err(AppError::ElementNotFound(ElementId::Image)))
            } else {
                let d1 = DomView {
                    image: Some(
                        ElementView {
                            src: link,
                            alt: image_alt_text(),
                            class_name: m.css,
                            ..d.image.unwrap()
                        },
                    ),
                    ..d
                };
                if d.video is None {
                    (d1, Err(AppError::ElementNotFound(ElementId::Video)))
                } else {
                    (
                        DomView {
                            video: Some(
                                ElementView {
                                    inner_html: Seq::empty(),
                                    class_name: hidden_class(),
                                    ..d.video.unwrap()
                                },
                            ),
                            ..d1
                        },
                        Ok(()),
                    )
                }
            }
        },
    }
}

/// The whole render model: the media stage, then the title text node, then
/// the subreddit text node, in the order the renderer writes them.
pub open spec fn spec_render(m: MemeView, d: DomView) -> (DomView, Result<(), AppError>) {
    let (d1, r1) = spec_render_media(m, d);
    if r1 is Err {
        (d1, r1)
    } else if d1.title is None {
        (d1, Err(AppError::ElementNotFound(ElementId::Title)))
    } else {
        let d2 = DomView { title: Some(ElementView { text: m.title, ..d1.title.unwrap() }), ..d1 };
        if d2.subreddit is None {
            (d2, Err(AppError::ElementNotFound(ElementId::Subreddit)))
        } else {
            (
                DomView {
                    subreddit: Some(ElementView { text: m.subreddit, ..d2.subreddit.unwrap() }),
                    ..d2
                },
                Ok(()),
            )
        }
    }
}

/// Projects one meme onto the page model, exactly as `spec_render` says:
/// the active presentation is filled, the inactive one blanked and hidden,
/// and the title and subreddit text nodes are set. Fails with the identity
/// of the first missing element; writes made before that stand.
pub fn render(meme: &Meme, dom: &mut Dom) -> (r: Result<(), AppError>)
    ensures
        ({
            let (d2, rr) = spec_render(meme@, old(dom)@);
            final(dom)@ == d2 && r == rr
        }),
{
    match &meme.url {
        Url::Video(link) => {
            match &mut dom.video {
                Some(el) => {
                    let mut html = String::from_str("<source src=\"");
                    html.append(link.as_str());
                    html.append("\" type=\"video/mp4\"");
                    el.inner_html = html;
                    el.class_name = meme.css.clone();
                },
                None => {
                    return Err(AppError::ElementNotFound(ElementId::Video));
                },
            }
            match &mut dom.image {
                Some(el) => {
                    el.src = String::new();
                    el.class_name = String::from_str("hidden");
                },
                None => {
                    return Err(AppError::ElementNotFound(ElementId::Image));
                },
            }
        },
        Url::Image(link) => {
            match &mut dom.image {
                Some(el) => {
                    el.src = link.clone();
                    el.alt = String::from_str("Image containing the meme");
                    el.class_name = meme.css.clone();
                },
                None => {
                    return Err(AppError::ElementNotFound(ElementId::Image));
                },
            }
            match &mut dom.video {
                Some(el) => {
                    el.inner_html = String::new();
                    el.class_name = String::from_str("hidden");
                },
                None => {
                    return Err(AppError::ElementNotFound(ElementId::Video));
                },
            }
        },
    }
    match &mut dom.title {
        Some(el) => {
            el.text = meme.title.clone();
        },
        None => {
            return Err(AppError::ElementNotFound(ElementId::Title));
        },
    }
    match &mut dom.subreddit {
        Some(el) => {
            el.text = meme.subreddit.clone();
        },
        None => {
            return Err(AppError::ElementNotFound(ElementId::Subreddit));
        },
    }
    Ok(())
}

/// Law: rendering an image meme on a page that has all four render elements
/// succeeds, fills the image presentation with the meme's source, alt text
/// and presentation class, and always blanks and hides the video
/// presentation.
pub proof fn lemma_render_image_resets_video(m: MemeView, d: DomView, link: Seq<char>)
    requires
        d.video is Some,
        d.image is Some,
        d.title is Some,
        d.subreddit is Some,
        m.url == UrlView::Image(link),
    ensures
        ({
            let (d2, r) = spec_render(m, d);
            &&& r == Ok::<(), AppError>(())
            &&& d2.image.unwrap().src == link
            &&& d2.image.unwrap().alt == image_alt_text()
            &&& d2.image.unwrap().class_name == m.css
            &&& d2.video.unwrap().inner_html == Seq::<char>::empty()
            &&& d2.video.unwrap().class_name == hidden_class()
            &&& d2.title.unwrap().text == m.title
            &&& d2.subreddit.unwrap().text == m.subreddit
        }),
{
}

/// Law: rendering a video meme on a page that has all four render elements
/// succeeds, writes the video source markup and the presentation class onto
/// the video presentation, and always blanks and hides the image
/// presentation.
pub proof fn lemma_render_video_resets_image(m: MemeView, d: DomView, link: Seq<char>)
    requires
        d.video is Some,
        d.image is Some,
        d.title is Some,
        d.subreddit is Some,
        m.url == UrlView::Video(link),
    ensures
        ({
            let (d2, r) = spec_render(m, d);
            &&& r == Ok::<(), AppError>(())
            &&& d2.video.unwrap().inner_html == video_source_html(link)
            &&& d2.video.unwrap().class_name == m.css
            &&& d2.image.unwrap().src == Seq::<char>::empty()
            &&& d2.image.unwrap().class_name == hidden_class()
            &&& d2.title.unwrap().text == m.title
            &&& d2.subreddit.unwrap().text == m.subreddit
        }),
{
}

} // verus!
