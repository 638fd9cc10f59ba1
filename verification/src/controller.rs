use vstd::prelude::*;

use crate::catalog::feed_url;
use crate::catalog::get_subreddits_links;
use crate::dom::Dom;
use crate::dom::DomView;
use crate::errors::AppError;
use crate::extract::get_meme;
use crate::extract::spec_extract;
use crate::json::JsonValue;
use crate::random::get_random;
use crate::render::render;
use crate::render::spec_render;

verus! {

/// How one fetch–extract–render cycle ends. A cycle is `Idle` until the feed
/// is chosen, `Loading` while the host fetches, and finishes `Rendered` or
/// `Failed`; a failed cycle is terminal for that run, the page keeps its
/// last-good content and the host logs the error.
#[derive(Clone, Copy, Debug, PartialEq, Eq, Structural)]
pub enum CycleOutcome {
    Rendered,
    Failed(AppError),
}

/// What one cycle does to the page model, as a function of the fetch outcome,
/// the raw random word used to pick a post, and the presentation class. A
/// transport failure or an extraction failure leaves the page untouched; only
/// the render stage writes.
pub open spec fn spec_cycle(
    fetch: Result<JsonValue, AppError>,
    entropy: u64,
    css: Seq<char>,
    d: DomView,
) -> (DomView, CycleOutcome) {
    match fetch {
        Err(e) => (d, CycleOutcome::Failed(e)),
        Ok(doc) => match spec_extract(doc, entropy, css) {
            Err(e) => (d, CycleOutcome::Failed(e)),
            Ok(m) => {
                let (d2, r) = spec_render(m, d);
                match r {
                    Ok(u) => (d2, CycleOutcome::Rendered),
                    Err(e) => (d2, CycleOutcome::Failed(e)),
                }
            },
        },
    }
}

/// Runs one pipeline cycle on the outcome of a fetch: extraction, then
/// rendering, each stage only after the one before it succeeded. Every
/// failure is returned to the caller as a distinguishable outcome, never
/// thrown; on failure before the render stage the page model is untouched.
pub fn run_cycle(
    fetch: Result<JsonValue, AppError>,
    entropy: u64,
    css: &str,
    dom: &mut Dom,
) -> (outcome: CycleOutcome)
    ensures
        ({
            let (d2, oc) = spec_cycle(fetch, entropy, css@, old(dom)@);
            final(dom)@ == d2 && outcome == oc
        }),
{
    let doc = match fetch {
        Ok(d) => d,
        Err(e) => {
            return CycleOutcome::Failed(e);
        },
    };
    let meme = match get_meme(&doc, entropy, css) {
        Ok(m) => m,
        Err(e) => {
            return CycleOutcome::Failed(e);
        },
    };
    match render(&meme, dom) {
        Ok(u) => CycleOutcome::Rendered,
        Err(e) => CycleOutcome::Failed(e),
    }
}

/// Law: a cycle that fails before the render stage — a transport failure, or
/// any extraction failure — leaves the page model exactly as it was; only the
/// render stage ever writes to it.
pub proof fn lemma_failed_before_render_keeps_page(
    fetch: Result<JsonValue, AppError>,
    entropy: u64,
    css: Seq<char>,
    d: DomView,
)
    requires
        fetch matches Ok(doc) ==> spec_extract(doc, entropy, css) is Err,
    ensures
        ({
            let (d2, oc) = spec_cycle(fetch, entropy, css, d);
            d2 == d && oc is Failed
        }),
{
}

/// Startup: builds the feed catalog from the subreddit names and picks one
/// feed with the raw random word `entropy`. The chosen feed is reused for the
/// whole session; an empty catalog leaves nothing to pick from.
pub fn pick_feed(subreddits: &Vec<String>, entropy: u64) -> (r: Result<String, AppError>)
    ensures
        r is Err <==> subreddits@.len() == 0,
        r is Err ==> r == Err::<String, AppError>(AppError::NoCandidates),
        r matches Ok(link) ==> link@ == feed_url(
            subreddits@[entropy as int % subreddits@.len() as int]@,
        ),
{
    let links = get_subreddits_links(subreddits);
    let i = match get_random(links.len(), entropy) {
        Ok(i) => i,
        Err(e) => {
            return Err(e);
        },
    };
    Ok(links[i].clone())
}

} // verus!
