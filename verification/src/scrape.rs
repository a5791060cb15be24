//! One scrape, as a state machine.
//!
//! The machine makes the decisions of a scrape and leaves the work on the
//! wire to its driver: the driver hands in what happened, and is told what to
//! do next. A scrape connects, binds, asks the queries of the plan one after
//! the other, closes the session and reports how long all of it took. A
//! connection or a bind that fails ends the scrape; a query that fails only
//! leaves its own lines out.

use vstd::prelude::*;
use crate::duration::{duration_line, duration_text};
use crate::entry::{entries_lines, entry_views, render_entries, DirectoryEntry, EntryView};
use crate::plan::{query_views, QueryDescriptor, QueryView};
use crate::text::{concat, concat_lines, lemma_texts_append, lemma_texts_push, texts_of};

verus! {

/// Why a scrape failed.
#[derive(Debug, Clone, Copy, PartialEq, Eq, Structural)]
pub enum FailureReason {
    /// The directory could not be reached.
    Connect,
    /// The bind did not go through, or the directory refused it.
    Bind,
    /// The session could not be closed.
    Close,
    /// The driver reported something that the machine was not waiting for.
    OutOfTurn,
}

/// Where a scrape stands.
#[derive(Debug, Clone, Copy, PartialEq, Eq, Structural)]
pub enum ScrapeState {
    Idle,
    Connecting,
    Authenticating,
    /// Waiting for the answer to the query at this place of the plan.
    Querying(usize),
    Finalizing,
    Done,
    Failed(FailureReason),
}

/// How a scrape binds to the directory.
#[derive(Debug, Clone, PartialEq, Eq)]
pub enum AuthDecision {
    /// With a distinguished name and its password.
    Simple { bind_dn: String, password: String },
    /// By what the connection itself proves, such as a certificate.
    External,
    /// Not at all: a distinguished name was given without a password.
    Skipped,
}

/// A bind decision as contracts see it.
pub enum AuthView {
    Simple { bind_dn: Seq<char>, password: Seq<char> },
    External,
    Skipped,
}

impl View for AuthDecision {
    type V = AuthView;

    open spec fn view(&self) -> AuthView {
        match self {
            AuthDecision::Simple { bind_dn, password } => AuthView::Simple {
                bind_dn: bind_dn@,
                password: password@,
            },
            AuthDecision::External => AuthView::External,
            AuthDecision::Skipped => AuthView::Skipped,
        }
    }
}

/// The text of a string that may be missing.
pub open spec fn text_of(value: Option<String>) -> Option<Seq<char>> {
    match value {
        Some(text) => Some(text@),
        None => None,
    }
}

/// The bind for a configuration: simple with a name and a password, external
/// without a name, and none with a name that has no password.
pub open spec fn auth_for(bind_dn: Option<Seq<char>>, password: Option<Seq<char>>) -> AuthView {
    match bind_dn {
        Some(dn) => match password {
            Some(pw) => AuthView::Simple { bind_dn: dn, password: pw },
            None => AuthView::Skipped,
        },
        None => AuthView::External,
    }
}

/// Chooses the bind for a configuration.
pub fn decide_auth(bind_dn: &Option<String>, password: &Option<String>) -> (decision: AuthDecision)
    ensures
        decision@ == auth_for(text_of(*bind_dn), text_of(*password)),
{
    match bind_dn {
        Some(dn) => match password {
            Some(pw) => AuthDecision::Simple { bind_dn: dn.clone(), password: pw.clone() },
            None => AuthDecision::Skipped,
        },
        None => AuthDecision::External,
    }
}

/// What the driver reports to the machine.
#[derive(Debug, Clone, PartialEq, Eq)]
pub enum Event {
    /// A scrape is asked for; the clock reads `now_ms` milliseconds.
    Start { now_ms: i64 },
    Connected,
    ConnectFailed,
    BindSucceeded,
    BindFailed,
    /// The query was answered with these entries.
    QueryAnswered(Vec<DirectoryEntry>),
    /// The query failed or ran out of time.
    QueryFailed,
    /// The session is closed; the clock reads `now_ms` milliseconds.
    Closed { now_ms: i64 },
    CloseFailed,
}

/// An event as contracts see it.
pub enum EventView {
    Start { now_ms: int },
    Connected,
    ConnectFailed,
    BindSucceeded,
    BindFailed,
    QueryAnswered(Seq<EntryView>),
    QueryFailed,
    Closed { now_ms: int },
    CloseFailed,
}

impl View for Event {
    type V = EventView;

    open spec fn view(&self) -> EventView {
        match self {
            Event::Start { now_ms } => EventView::Start { now_ms: *now_ms as int },
            Event::Connected => EventView::Connected,
            Event::ConnectFailed => EventView::ConnectFailed,
            Event::BindSucceeded => EventView::BindSucceeded,
            Event::BindFailed => EventView::BindFailed,
            Event::QueryAnswered(entries) => EventView::QueryAnswered(entry_views(entries@)),
            Event::QueryFailed => EventView::QueryFailed,
            Event::Closed { now_ms } => EventView::Closed { now_ms: *now_ms as int },
            Event::CloseFailed => EventView::CloseFailed,
        }
    }
}

/// What the machine tells the driver to do.
#[derive(Debug, Clone, PartialEq, Eq)]
pub enum Action {
    /// Connect to the directory at this address.
    Connect { uri: String },
    /// Bind with this name and password.
    BindSimple { bind_dn: String, password: String },
    /// Bind by what the connection proves.
    BindExternal,
    /// Ask the query at this place of the plan.
    Search { index: usize },
    /// Close the session.
    Close,
    /// The scrape is over; this is its text.
    Finish { body: String },
    /// The scrape failed.
    Fail { reason: FailureReason },
}

/// An action as contracts see it.
pub enum ActionView {
    Connect { uri: Seq<char> },
    BindSimple { bind_dn: Seq<char>, password: Seq<char> },
    BindExternal,
    Search { index: int },
    Close,
    Finish { body: Seq<char> },
    Fail { reason: FailureReason },
}

impl View for Action {
    type V = ActionView;

    open spec fn view(&self) -> ActionView {
        match self {
            Action::Connect { uri } => ActionView::Connect { uri: uri@ },
            Action::BindSimple { bind_dn, password } => ActionView::BindSimple {
                bind_dn: bind_dn@,
                password: password@,
            },
            Action::BindExternal => ActionView::BindExternal,
            Action::Search { index } => ActionView::Search { index: *index as int },
            Action::Close => ActionView::Close,
            Action::Finish { body } => ActionView::Finish { body: body@ },
            Action::Fail { reason } => ActionView::Fail { reason: *reason },
        }
    }
}

/// What a scrape is configured with. Without an address there is nothing to
/// scrape; without a bind name the bind is external.
#[derive(Debug, Clone, PartialEq, Eq)]
pub struct Config {
    pub uri: Option<String>,
    pub bind_dn: Option<String>,
    pub bind_password: Option<String>,
}

/// A scrape as contracts see it.
pub struct ScrapeView {
    pub plan: Seq<QueryView>,
    pub uri: Option<Seq<char>>,
    pub bind_dn: Option<Seq<char>>,
    pub bind_password: Option<Seq<char>>,
    pub state: ScrapeState,
    /// The lines gathered so far.
    pub lines: Seq<Seq<char>>,
    /// The clock reading at which the scrape began.
    pub started_ms: int,
}

/// The text that a scrape without an address gives in place of metrics.
pub open spec fn placeholder() -> Seq<char> {
    "Unable to retrieve Metric"@
}

/// Whether the plan is one that a machine can hold, and a scrape that waits
/// for a query waits for one of its plan.
pub open spec fn valid(scrape: ScrapeView) -> bool {
    &&& scrape.plan.len() <= usize::MAX
    &&& match scrape.state {
        ScrapeState::Querying(index) => index < scrape.plan.len(),
        _ => true,
    }
}

/// The scrape in another state.
pub open spec fn moved_to(scrape: ScrapeView, state: ScrapeState) -> ScrapeView {
    ScrapeView { state, ..scrape }
}

/// The scrape after a failure that ends it.
pub open spec fn failed(scrape: ScrapeView, reason: FailureReason) -> (ScrapeView, ActionView) {
    (moved_to(scrape, ScrapeState::Failed(reason)), ActionView::Fail { reason })
}

/// The scrape at the query at place `index`, or at the closing of the
/// session where the plan has no such place.
pub open spec fn at_query(scrape: ScrapeView, index: int) -> (ScrapeView, ActionView) {
    if 0 <= index < scrape.plan.len() {
        (moved_to(scrape, ScrapeState::Querying(index as usize)), ActionView::Search { index })
    } else {
        (moved_to(scrape, ScrapeState::Finalizing), ActionView::Close)
    }
}

/// The scrape after the query at place `index` has given `lines`.
pub open spec fn after_query(
    scrape: ScrapeView,
    index: int,
    lines: Seq<Seq<char>>,
) -> (ScrapeView, ActionView) {
    at_query(ScrapeView { lines: scrape.lines + lines, ..scrape }, index + 1)
}

/// The scrape after `event`, and what the driver is to do next.
pub open spec fn next(scrape: ScrapeView, event: EventView) -> (ScrapeView, ActionView) {
    match scrape.state {
        ScrapeState::Idle => match event {
            EventView::Start { now_ms } => match scrape.uri {
                Some(uri) => (
                    ScrapeView { state: ScrapeState::Connecting, started_ms: now_ms, ..scrape },
                    ActionView::Connect { uri },
                ),
                None => (
                    ScrapeView { state: ScrapeState::Done, lines: seq![placeholder()], ..scrape },
                    ActionView::Finish { body: placeholder() },
                ),
            },
            _ => failed(scrape, FailureReason::OutOfTurn),
        },
        ScrapeState::Connecting => match event {
            EventView::Connected => match auth_for(scrape.bind_dn, scrape.bind_password) {
                AuthView::Simple { bind_dn, password } => (
                    moved_to(scrape, ScrapeState::Authenticating),
                    ActionView::BindSimple { bind_dn, password },
                ),
                AuthView::External => (
                    moved_to(scrape, ScrapeState::Authenticating),
                    ActionView::BindExternal,
                ),
                AuthView::Skipped => at_query(scrape, 0),
            },
            EventView::ConnectFailed => failed(scrape, FailureReason::Connect),
            _ => failed(scrape, FailureReason::OutOfTurn),
        },
        ScrapeState::Authenticating => match event {
            EventView::BindSucceeded => at_query(scrape, 0),
            EventView::BindFailed => failed(scrape, FailureReason::Bind),
            _ => failed(scrape, FailureReason::OutOfTurn),
        },
        ScrapeState::Querying(index) => match event {
            EventView::QueryAnswered(entries) => after_query(
                scrape,
                index as int,
                entries_lines(entries, scrape.plan[index as int].label_mode),
            ),
            EventView::QueryFailed => after_query(scrape, index as int, Seq::empty()),
            _ => failed(scrape, FailureReason::OutOfTurn),
        },
        ScrapeState::Finalizing => match event {
            EventView::Closed { now_ms } => {
                let lines = scrape.lines.push(duration_text(now_ms - scrape.started_ms));
                (
                    ScrapeView { state: ScrapeState::Done, lines, ..scrape },
                    ActionView::Finish { body: concat(lines) },
                )
            },
            EventView::CloseFailed => failed(scrape, FailureReason::Close),
            _ => failed(scrape, FailureReason::OutOfTurn),
        },
        ScrapeState::Done => (scrape, ActionView::Finish { body: concat(scrape.lines) }),
        ScrapeState::Failed(reason) => (scrape, ActionView::Fail { reason }),
    }
}

/// One scrape in progress: its plan and configuration, where it stands, and
/// the lines gathered so far.
pub struct Scraper {
    plan: Vec<QueryDescriptor>,
    config: Config,
    state: ScrapeState,
    lines: Vec<String>,
    started_ms: i64,
}

impl View for Scraper {
    type V = ScrapeView;

    closed spec fn view(&self) -> ScrapeView {
        ScrapeView {
            plan: query_views(self.plan@),
            uri: text_of(self.config.uri),
            bind_dn: text_of(self.config.bind_dn),
            bind_password: text_of(self.config.bind_password),
            state: self.state,
            lines: texts_of(self.lines@),
            started_ms: self.started_ms as int,
        }
    }
}

impl Scraper {
    #[verifier::type_invariant]
    closed spec fn well_formed(&self) -> bool {
        valid(self@)
    }

    /// A scrape that has not begun.
    pub fn new(plan: Vec<QueryDescriptor>, config: Config) -> (scraper: Scraper)
        ensures
            scraper@ == (ScrapeView {
                plan: query_views(plan@),
                uri: text_of(config.uri),
                bind_dn: text_of(config.bind_dn),
                bind_password: text_of(config.bind_password),
                state: ScrapeState::Idle,
                lines: Seq::empty(),
                started_ms: 0,
            }),
            valid(scraper@),
    {
        proof {
            assert(plan@.len() == plan.len());
        }
        let scraper = Scraper {
            plan,
            config,
            state: ScrapeState::Idle,
            lines: Vec::new(),
            started_ms: 0,
        };
        proof {
            assert(texts_of(scraper.lines@) =~= Seq::<Seq<char>>::empty());
        }
        scraper
    }

    /// Where the scrape stands.
    pub fn state(&self) -> (state: ScrapeState)
        ensures
            state == self@.state,
            valid(self@),
    {
        proof {
            use_type_invariant(self);
        }
        self.state
    }

    /// The queries of the scrape.
    pub fn plan(&self) -> (plan: &Vec<QueryDescriptor>)
        ensures
            query_views(plan@) == self@.plan,
    {
        &self.plan
    }

    /// The bind that the configuration asks for.
    pub fn auth(&self) -> (decision: AuthDecision)
        ensures
            decision@ == auth_for(self@.bind_dn, self@.bind_password),
    {
        decide_auth(&self.config.bind_dn, &self.config.bind_password)
    }

    fn fail(self, reason: FailureReason) -> (out: (Scraper, Action))
        ensures
            (out.0@, out.1@) == failed(self@, reason),
    {
        proof {
            use_type_invariant(&self);
        }
        let Scraper { plan, config, state: _, lines, started_ms } = self;
        (
            Scraper { plan, config, state: ScrapeState::Failed(reason), lines, started_ms },
            Action::Fail { reason },
        )
    }

    fn go_to_query(self, index: usize) -> (out: (Scraper, Action))
        ensures
            (out.0@, out.1@) == at_query(self@, index as int),
    {
        proof {
            use_type_invariant(&self);
        }
        let Scraper { plan, config, state: _, lines, started_ms } = self;
        if index < plan.len() {
            (
                Scraper { plan, config, state: ScrapeState::Querying(index), lines, started_ms },
                Action::Search { index },
            )
        } else {
            (
                Scraper { plan, config, state: ScrapeState::Finalizing, lines, started_ms },
                Action::Close,
            )
        }
    }

    fn go_to(self, state: ScrapeState) -> (scraper: Scraper)
        requires
            !(state is Querying),
        ensures
            scraper@ == moved_to(self@, state),
    {
        proof {
            use_type_invariant(&self);
        }
        let Scraper { plan, config, state: _, lines, started_ms } = self;
        Scraper { plan, config, state, lines, started_ms }
    }

    /// Takes in what happened; gives the scrape after it, and what to do
    /// next.
    ///
    /// A scrape that is over stays as it is and gives its result again. An
    /// event that the scrape was not waiting for ends it.
    pub fn step(self, event: Event) -> (out: (Scraper, Action))
        ensures
            (out.0@, out.1@) == next(self@, event@),
            valid(out.0@),
    {
        proof {
            use_type_invariant(&self);
        }
        let out = match self.state {
            ScrapeState::Idle => match event {
                Event::Start { now_ms } => {
                    let Scraper { plan, config, state: _, lines, started_ms: _ } = self;
                    match &config.uri {
                        Some(uri) => {
                            let uri = uri.clone();
                            (
                                Scraper {
                                    plan,
                                    config,
                                    state: ScrapeState::Connecting,
                                    lines,
                                    started_ms: now_ms,
                                },
                                Action::Connect { uri },
                            )
                        },
                        None => {
                            let text = String::from_str("Unable to retrieve Metric");
                            let body = text.clone();
                            let mut lines: Vec<String> = Vec::new();
                            lines.push(text);
                            proof {
                                assert(texts_of(lines@) =~= seq![placeholder()]);
                            }
                            (
                                Scraper {
                                    plan,
                                    config,
                                    state: ScrapeState::Done,
                                    lines,
                                    started_ms: self.started_ms,
                                },
                                Action::Finish { body },
                            )
                        },
                    }
                },
                _ => self.fail(FailureReason::OutOfTurn),
            },
            ScrapeState::Connecting => match event {
                Event::Connected => match self.auth() {
                    AuthDecision::Simple { bind_dn, password } => (
                        self.go_to(ScrapeState::Authenticating),
                        Action::BindSimple { bind_dn, password },
                    ),
                    AuthDecision::External => (
                        self.go_to(ScrapeState::Authenticating),
                        Action::BindExternal,
                    ),
                    AuthDecision::Skipped => self.go_to_query(0),
                },
                Event::ConnectFailed => self.fail(FailureReason::Connect),
                _ => self.fail(FailureReason::OutOfTurn),
            },
            ScrapeState::Authenticating => match event {
                Event::BindSucceeded => self.go_to_query(0),
                Event::BindFailed => self.fail(FailureReason::Bind),
                _ => self.fail(FailureReason::OutOfTurn),
            },
            ScrapeState::Querying(index) => match event {
                Event::QueryAnswered(entries) => {
                    let Scraper { plan, config, state, mut lines, started_ms } = self;
                    let mut more = render_entries(&entries, plan[index].label_mode);
                    proof {
                        lemma_texts_append(lines@, more@);
                    }
                    lines.append(&mut more);
                    let grown = Scraper { plan, config, state, lines, started_ms };
                    grown.go_to_query(index + 1)
                },
                Event::QueryFailed => {
                    proof {
                        assert(self@.lines + Seq::<Seq<char>>::empty() =~= self@.lines);
                    }
                    self.go_to_query(index + 1)
                },
                _ => self.fail(FailureReason::OutOfTurn),
            },
            ScrapeState::Finalizing => match event {
                Event::Closed { now_ms } => {
                    let Scraper { plan, config, state: _, mut lines, started_ms } = self;
                    let line = duration_line(started_ms, now_ms);
                    proof {
                        lemma_texts_push(lines@, line);
                    }
                    lines.push(line);
                    let body = concat_lines(&lines);
                    (
                        Scraper { plan, config, state: ScrapeState::Done, lines, started_ms },
                        Action::Finish { body },
                    )
                },
                Event::CloseFailed => self.fail(FailureReason::Close),
                _ => self.fail(FailureReason::OutOfTurn),
            },
            ScrapeState::Done => {
                let body = concat_lines(&self.lines);
                (self, Action::Finish { body })
            },
            ScrapeState::Failed(reason) => (self, Action::Fail { reason }),
        };
        proof {
            use_type_invariant(&out.0);
        }
        out
    }
}

} // verus!
