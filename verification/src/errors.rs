//! Failures of the start operation.
//!
//! Three things can go wrong while starting the backend: the application's
//! own location cannot be determined, no candidate executable exists, or the
//! operating system refuses to spawn. Stop never fails. Each error renders
//! as a human-readable message; a not-found message quotes every path that
//! was tried, which `lemma_not_found_message_lists_tried` proves.

use vstd::prelude::*;
use vstd::string::*;

verus! {

/// Why a start request failed.
#[derive(Debug)]
pub enum BackendError {
    /// The directory holding the application's own executable could not be
    /// determined.
    PathResolution { reason: String },
    /// No candidate executable exists on disk; `tried` holds every path
    /// that was probed, in the order it was probed.
    BackendNotFound { tried: Vec<String> },
    /// The operating system failed to spawn the chosen executable.
    Launch { reason: String },
}

/// The views of a sequence of path strings.
pub open spec fn path_views(tried: Seq<String>) -> Seq<Seq<char>> {
    tried.map_values(|p: String| p@)
}

/// The separator written before each path in a not-found message.
pub open spec fn path_bullet() -> Seq<char> {
    "\n  - "@
}

/// One bulleted line per tried path, in probe order.
pub open spec fn path_listing(tried: Seq<Seq<char>>) -> Seq<char>
    decreases tried.len(),
{
    if tried.len() == 0 {
        Seq::empty()
    } else {
        path_listing(tried.drop_last()) + path_bullet() + tried.last()
    }
}

pub open spec fn path_resolution_header() -> Seq<char> {
    "failed to resolve the application executable directory: "@
}

pub open spec fn not_found_header() -> Seq<char> {
    "backend executable not found; tried paths:"@
}

pub open spec fn launch_header() -> Seq<char> {
    "failed to launch backend: "@
}

/// The message each error renders as.
pub open spec fn message_spec(e: BackendError) -> Seq<char> {
    match e {
        BackendError::PathResolution { reason } => path_resolution_header() + reason@,
        BackendError::BackendNotFound { tried } => not_found_header() + path_listing(
            path_views(tried@),
        ),
        BackendError::Launch { reason } => launch_header() + reason@,
    }
}

impl BackendError {
    /// Renders the error as its human-readable message.
    pub fn message(&self) -> (r: String)
        ensures
            r@ == message_spec(*self),
    {
        match self {
            BackendError::PathResolution { reason } => {
                let mut s = String::from_str("failed to resolve the application executable directory: ");
                s.append(reason.as_str());
                s
            },
            BackendError::BackendNotFound { tried } => {
                let mut s = String::from_str("backend executable not found; tried paths:");
                let ghost all = path_views(tried@);
                let mut i: usize = 0;
                while i < tried.len()
                    invariant
                        i <= tried.len(),
                        all == path_views(tried@),
                        s@ == not_found_header() + path_listing(all.subrange(0, i as int)),
                    decreases tried.len() - i,
                {
                    s.append("\n  - ");
                    s.append(tried[i].as_str());
                    proof {
                        let pre = all.subrange(0, i as int);
                        let cur = all.subrange(0, i + 1 as int);
                        assert(cur.drop_last() =~= pre);
                        assert(cur.last() == tried@[i as int]@);
                    }
                    i = i + 1;
                }
                proof {
                    assert(all.subrange(0, tried@.len() as int) =~= all);
                }
                s
            },
            BackendError::Launch { reason } => {
                let mut s = String::from_str("failed to launch backend: ");
                s.append(reason.as_str());
                s
            },
        }
    }
}

/// `needle` occurs verbatim somewhere inside `hay`.
pub open spec fn contains_seq(hay: Seq<char>, needle: Seq<char>) -> bool {
    exists|k: int|
        0 <= k && k + needle.len() <= hay.len() && #[trigger] hay.subrange(k, k + needle.len())
            == needle
}

proof fn lemma_listing_contains_each(tried: Seq<Seq<char>>, i: int)
    requires
        0 <= i < tried.len(),
    ensures
        contains_seq(path_listing(tried), tried[i]),
    decreases tried.len(),
{
    let whole = path_listing(tried);
    let pre = path_listing(tried.drop_last());
    if i == tried.len() - 1 {
        let k: int = pre.len() as int + path_bullet().len() as int;
        assert(whole.subrange(k, k + tried[i].len()) =~= tried[i]);
    } else {
        lemma_listing_contains_each(tried.drop_last(), i);
        let needle = tried.drop_last()[i];
        let k = choose|k: int|
            0 <= k && k + needle.len() <= pre.len() && #[trigger] pre.subrange(k, k + needle.len())
                == needle;
        assert(whole.subrange(k, k + needle.len()) =~= pre.subrange(k, k + needle.len()));
        assert(tried[i] == needle);
    }
}

/// A not-found error's message quotes, verbatim, every path that was tried.
pub proof fn lemma_not_found_message_lists_tried(e: BackendError, i: int)
    requires
        e is BackendNotFound,
        0 <= i < e->BackendNotFound_tried@.len(),
    ensures
        contains_seq(message_spec(e), e->BackendNotFound_tried@[i]@),
{
    let tried = path_views(e->BackendNotFound_tried@);
    lemma_listing_contains_each(tried, i);
    let needle = tried[i];
    let listing = path_listing(tried);
    let k = choose|k: int|
        0 <= k && k + needle.len() <= listing.len() && #[trigger] listing.subrange(
            k,
            k + needle.len(),
        ) == needle;
    let shifted = k + not_found_header().len();
    assert(message_spec(e).subrange(shifted, shifted + needle.len()) =~= listing.subrange(
        k,
        k + needle.len(),
    ));
}

} // verus!
