use vstd::prelude::*;

verus! {

/// The state this widget reads and writes on one DOM element. The hosting
/// page owns the real elements; the host program copies this model onto them
/// after each cycle and reads the theme root's class back into it.
#[derive(Debug)]
pub struct Element {
    pub class_name: String,
    pub inner_html: String,
    pub src: String,
    pub alt: String,
    pub text: String,
}

/// Spec-level image of `Element`.
#[verifier::ext_equal]
pub struct ElementView {
    pub class_name: Seq<char>,
    pub inner_html: Seq<char>,
    pub src: Seq<char>,
    pub alt: Seq<char>,
    pub text: Seq<char>,
}

impl View for Element {
    type V = ElementView;

    open spec fn view(&self) -> ElementView {
        ElementView {
            class_name: self.class_name@,
            inner_html: self.inner_html@,
            src: self.src@,
            alt: self.alt@,
            text: self.text@,
        }
    }
}

/// The fixed set of named elements the pipeline needs from the hosting page.
/// `None` stands for an element the page does not have: the renderer and the
/// theme toggler report exactly which one was missing.
#[derive(Debug)]
pub struct Dom {
    /// The video presentation container.
    pub video: Option<Element>,
    /// The image presentation container.
    pub image: Option<Element>,
    /// The post title text node.
    pub title: Option<Element>,
    /// The subreddit name text node.
    pub subreddit: Option<Element>,
    /// The root element whose class encodes the theme.
    pub mode: Option<Element>,
    /// The theme toggle button.
    pub switch: Option<Element>,
}

/// Spec-level image of `Dom`.
#[verifier::ext_equal]
pub struct DomView {
    pub video: Option<ElementView>,
    pub image: Option<ElementView>,
    pub title: Option<ElementView>,
    pub subreddit: Option<ElementView>,
    pub mode: Option<ElementView>,
    pub switch: Option<ElementView>,
}

/// The view of an optional element.
pub open spec fn opt_view(e: Option<Element>) -> Option<ElementView> {
    match e {
        Some(el) => Some(el@),
        None => None,
    }
}

impl View for Dom {
    type V = DomView;

    open spec fn view(&self) -> DomView {
        DomView {
            video: opt_view(self.video),
            image: opt_view(self.image),
            title: opt_view(self.title),
            subreddit: opt_view(self.subreddit),
            mode: opt_view(self.mode),
            switch: opt_view(self.switch),
        }
    }
}

} // verus!
