//! Load-state machine for the remote portfolio document: a loader owns the
//! single source of truth for what the document currently says, dispatches at
//! most one fetch per lifetime, and resolves the outcome of that fetch into a
//! terminal state. The host performs the fetch itself and hands the outcome
//! back as plain values.

use crate::data::{RepoSection, SectionView};
use vstd::prelude::*;
use vstd::string::StringExecFns;

verus! {

/// Load status of the remote portfolio document.
pub enum PortfolioLoadState {
    /// No fetch has been requested yet; the initial state of every loader.
    NotStarted,
    /// Exactly one fetch is outstanding.
    Loading,
    /// The fetch completed and the document parsed into these sections.
    Loaded(Vec<RepoSection>),
    /// The fetch completed without usable data; a human-readable message.
    Error(String),
}

/// The sections' mathematical content, in order.
pub open spec fn sections_view(sections: Seq<RepoSection>) -> Seq<SectionView> {
    sections.map_values(|section: RepoSection| section@)
}

/// Mathematical content of a load state.
#[verifier::ext_equal]
pub ghost enum LoadStateView {
    NotStarted,
    Loading,
    Loaded(Seq<SectionView>),
    Error(Seq<char>),
}

impl View for PortfolioLoadState {
    type V = LoadStateView;

    open spec fn view(&self) -> LoadStateView {
        match self {
            PortfolioLoadState::NotStarted => LoadStateView::NotStarted,
            PortfolioLoadState::Loading => LoadStateView::Loading,
            PortfolioLoadState::Loaded(sections) => LoadStateView::Loaded(sections_view(sections@)),
            PortfolioLoadState::Error(message) => LoadStateView::Error(message@),
        }
    }
}

impl Clone for PortfolioLoadState {
    /// Clones carry the same state and payload as the original.
    fn clone(&self) -> (r: Self)
        ensures
            r@ == self@,
    {
        match self {
            PortfolioLoadState::NotStarted => PortfolioLoadState::NotStarted,
            PortfolioLoadState::Loading => PortfolioLoadState::Loading,
            PortfolioLoadState::Loaded(sections) => {
                let mut copied: Vec<RepoSection> = Vec::new();
                let mut i: usize = 0;
                while i < sections.len()
                    invariant
                        i <= sections@.len(),
                        copied@.len() == i,
                        forall|j: int| 0 <= j < i ==> (#[trigger] copied@[j])@ == sections@[j]@,
                    decreases sections@.len() - i,
                {
                    copied.push(sections[i].clone());
                    i += 1;
                }
                proof {
                    assert(sections_view(copied@) =~= sections_view(sections@));
                }
                PortfolioLoadState::Loaded(copied)
            },
            PortfolioLoadState::Error(message) => PortfolioLoadState::Error(message.clone()),
        }
    }
}

impl Default for PortfolioLoadState {
    /// A load state starts as `NotStarted`.
    fn default() -> (r: Self)
        ensures
            r@ is NotStarted,
    {
        PortfolioLoadState::NotStarted
    }
}

/// What the host observed of the completed fetch, as plain values.
pub enum FetchOutcome {
    /// Transport-level failure (DNS, connect, timeout), with its message.
    Transport(String),
    /// The response arrived with a non-success status code.
    HttpFailure(u16, String),
    /// The response body was not valid UTF-8 text.
    BodyNotText,
    /// The body text did not parse as a sections document; the parser's
    /// message.
    Malformed(String),
    /// The parsed sequence of sections, in document order.
    Sections(Vec<RepoSection>),
}

/// The character for one decimal digit.
pub open spec fn digit_char(d: nat) -> char {
    if d == 0 {
        '0'
    } else if d == 1 {
        '1'
    } else if d == 2 {
        '2'
    } else if d == 3 {
        '3'
    } else if d == 4 {
        '4'
    } else if d == 5 {
        '5'
    } else if d == 6 {
        '6'
    } else if d == 7 {
        '7'
    } else if d == 8 {
        '8'
    } else {
        '9'
    }
}

/// The decimal digits of `n`, most significant first.
pub open spec fn dec_digits(n: nat) -> Seq<char>
    decreases n,
{
    if n < 10 {
        seq![digit_char(n)]
    } else {
        dec_digits(n / 10).push(digit_char(n % 10))
    }
}

/// Renders a status code in decimal, exactly as `dec_digits` says.
fn u16_to_decimal(n: u16) -> (s: String)
    ensures
        s@ == dec_digits(n as nat),
    decreases n,
{
    let digit: u16 = n % 10;
    let digit_str: &str = if digit == 0 {
        "0"
    } else if digit == 1 {
        "1"
    } else if digit == 2 {
        "2"
    } else if digit == 3 {
        "3"
    } else if digit == 4 {
        "4"
    } else if digit == 5 {
        "5"
    } else if digit == 6 {
        "6"
    } else if digit == 7 {
        "7"
    } else if digit == 8 {
        "8"
    } else {
        "9"
    };
    proof {
        reveal_strlit("0");
        reveal_strlit("1");
        reveal_strlit("2");
        reveal_strlit("3");
        reveal_strlit("4");
        reveal_strlit("5");
        reveal_strlit("6");
        reveal_strlit("7");
        reveal_strlit("8");
        reveal_strlit("9");
        assert(digit_str@ =~= seq![digit_char((n % 10) as nat)]);
    }
    if n < 10 {
        String::from_str(digit_str)
    } else {
        let prefix = u16_to_decimal(n / 10);
        prefix.concat(digit_str)
    }
}

/// The message installed for a transport-level failure.
pub open spec fn transport_error_message(detail: Seq<char>) -> Seq<char> {
    "Network error: "@ + detail
}

/// The message installed for a non-success response status.
pub open spec fn http_error_message(status: u16, status_text: Seq<char>) -> Seq<char> {
    "HTTP error: "@ + dec_digits(status as nat) + " "@ + status_text
}

/// The message installed for a response body that is not UTF-8 text.
pub open spec fn body_not_text_message() -> Seq<char> {
    "Response body is not valid UTF-8"@
}

/// The message installed for a document that did not parse.
pub open spec fn parse_error_message(detail: Seq<char>) -> Seq<char> {
    "YAML parse error: "@ + detail
}

/// The terminal state that a fetch outcome resolves to: parsed sections load,
/// and each kind of failure becomes an `Error` with its distinguishing
/// message.
pub open spec fn resolved_view(outcome: FetchOutcome) -> LoadStateView {
    match outcome {
        FetchOutcome::Sections(sections) => LoadStateView::Loaded(sections_view(sections@)),
        FetchOutcome::Transport(detail) => LoadStateView::Error(transport_error_message(detail@)),
        FetchOutcome::HttpFailure(status, status_text) => LoadStateView::Error(
            http_error_message(status, status_text@),
        ),
        FetchOutcome::BodyNotText => LoadStateView::Error(body_not_text_message()),
        FetchOutcome::Malformed(detail) => LoadStateView::Error(parse_error_message(detail@)),
    }
}

/// Computes the terminal state for a fetch outcome.
pub fn resolve_outcome(outcome: FetchOutcome) -> (r: PortfolioLoadState)
    ensures
        r@ == resolved_view(outcome),
{
    match outcome {
        FetchOutcome::Sections(sections) => PortfolioLoadState::Loaded(sections),
        FetchOutcome::Transport(detail) => PortfolioLoadState::Error(
            String::from_str("Network error: ").concat(detail.as_str()),
        ),
        FetchOutcome::HttpFailure(status, status_text) => {
            let digits = u16_to_decimal(status);
            let message = String::from_str("HTTP error: ").concat(digits.as_str()).concat(
                " ",
            ).concat(status_text.as_str());
            PortfolioLoadState::Error(message)
        },
        FetchOutcome::BodyNotText => PortfolioLoadState::Error(
            String::from_str("Response body is not valid UTF-8"),
        ),
        FetchOutcome::Malformed(detail) => PortfolioLoadState::Error(
            String::from_str("YAML parse error: ").concat(detail.as_str()),
        ),
    }
}

/// One `start_loading` step over the state model: from `NotStarted` the state
/// moves to `Loading` and exactly then a fetch is dispatched; any other state
/// is left untouched with nothing dispatched.
pub open spec fn start_step(s: LoadStateView) -> (LoadStateView, bool) {
    if s is NotStarted {
        (LoadStateView::Loading, true)
    } else {
        (s, false)
    }
}

/// Owns the load status of the portfolio document. The host keeps one loader
/// per document lifetime behind its own mutual-exclusion primitive, calls
/// `start_loading` on every redraw, performs the fetch when told to, and
/// installs the outcome with `finish_loading`.
pub struct PortfolioLoader {
    state: PortfolioLoadState,
}

impl View for PortfolioLoader {
    type V = LoadStateView;

    closed spec fn view(&self) -> LoadStateView {
        self.state@
    }
}

impl PortfolioLoader {
    /// A fresh loader that has not started loading.
    pub fn new() -> (r: Self)
        ensures
            r@ is NotStarted,
    {
        PortfolioLoader { state: PortfolioLoadState::NotStarted }
    }

    /// An immutable snapshot of the current state, cloned out so the caller
    /// can inspect it without holding any lock.
    pub fn state(&self) -> (r: PortfolioLoadState)
        ensures
            r@ == self@,
    {
        self.state.clone()
    }

    /// Requests loading: from `NotStarted` the loader moves to `Loading` and
    /// returns true, telling the caller to dispatch the one fetch of this
    /// loader's lifetime; in every other state nothing changes and false
    /// comes back, so repeated calls never dispatch a second fetch.
    pub fn start_loading(&mut self) -> (dispatch: bool)
        ensures
            (final(self)@, dispatch) == start_step(old(self)@),
    {
        match self.state {
            PortfolioLoadState::NotStarted => {
                self.state = PortfolioLoadState::Loading;
                true
            },
            _ => false,
        }
    }

    /// Installs the terminal state that the fetch outcome resolves to; the
    /// host requests a redraw only after this returns.
    pub fn finish_loading(&mut self, outcome: FetchOutcome)
        ensures
            final(self)@ == resolved_view(outcome),
    {
        self.state = resolve_outcome(outcome);
    }
}

impl Default for PortfolioLoader {
    /// A loader starts in `NotStarted`.
    fn default() -> (r: Self)
        ensures
            r@ is NotStarted,
    {
        PortfolioLoader::new()
    }
}

/// Law (single flight): from a fresh loader, two start steps dispatch exactly
/// one fetch: the first moves to `Loading` and dispatches, the second changes
/// nothing and dispatches nothing.
pub proof fn lemma_start_single_flight(s: LoadStateView)
    requires
        s is NotStarted,
    ensures
        ({
            let (s1, d1) = start_step(s);
            let (s2, d2) = start_step(s1);
            &&& d1
            &&& s1 is Loading
            &&& !d2
            &&& s2 == s1
        }),
{
}

/// Law (fetches always terminate the machine): whatever a fetch came back
/// with, it resolves to a terminal state, `Loaded` or `Error`, never to an
/// intermediate one.
pub proof fn lemma_resolution_is_terminal(outcome: FetchOutcome)
    ensures
        resolved_view(outcome) is Loaded || resolved_view(outcome) is Error,
{
}

/// Law (terminal states are sticky): once a loader has left `NotStarted`,
/// a start step leaves the state exactly as it is, `Loaded` sections and
/// `Error` message included, and dispatches nothing.
pub proof fn lemma_start_after_start_is_noop(s: LoadStateView)
    requires
        !(s is NotStarted),
    ensures
        start_step(s) == (s, false),
{
}

} // verus!
