use vstd::prelude::*;

verus! {

/// Identifiers of the DOM elements the widget requires from the hosting page.
#[derive(Clone, Copy, Debug, PartialEq, Eq, Structural)]
pub enum ElementId {
    /// The `<video>` presentation container.
    Video,
    /// The `<img>` presentation container.
    Image,
    /// The text node that shows the post title.
    Title,
    /// The text node that shows the subreddit name.
    Subreddit,
    /// The root element whose class encodes the current theme.
    Mode,
    /// The theme toggle button.
    Switch,
}

/// Every failure a pipeline stage can report. Each stage returns one of these
/// to its caller instead of terminating; the controller is the single sink.
#[derive(Clone, Copy, Debug, PartialEq, Eq, Structural)]
pub enum AppError {
    /// A selection pool (feed list or post array) was empty.
    NoCandidates,
    /// An expected JSON path was missing or had the wrong shape.
    MalformedFeed,
    /// A field expected to parse as a boolean could not.
    TypeConversion,
    /// The network fetch or the HTTP body decode failed.
    Transport,
    /// A required DOM element was absent at render time.
    ElementNotFound(ElementId),
}

} // verus!
