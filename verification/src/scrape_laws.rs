//! What holds of every scrape.

use vstd::prelude::*;
use crate::duration::duration_text;
use crate::entry::{attribute_lines, attributes_lines, entries_lines, AttributeView, EntryView};
use crate::plan::QueryView;
use crate::scrape::{
    at_query, auth_for, next, valid, ActionView, EventView, FailureReason, ScrapeState, ScrapeView,
};

verus! {

/// An attribute without values gives no line, whatever its key and the mode.
pub proof fn attribute_without_values_gives_no_line(
    name: Seq<char>,
    attributes: Seq<AttributeView>,
    key: Seq<char>,
    label_mode: bool,
)
    ensures
        attribute_lines(name, AttributeView { key, values: Seq::empty() }, label_mode).len() == 0,
        attributes_lines(
            name,
            attributes.push(AttributeView { key, values: Seq::empty() }),
            label_mode,
        ) == attributes_lines(name, attributes, label_mode),
{
    let empty = AttributeView { key, values: Seq::empty() };
    assert(attributes.push(empty).drop_last() =~= attributes);
    assert(attributes_lines(name, attributes, label_mode) + Seq::<Seq<char>>::empty()
        =~= attributes_lines(name, attributes, label_mode));
}

/// An answer without entries gives no line: the lines gathered so far stay
/// as they are, and the scrape goes on with the query that follows, or
/// closes the session after the last one.
pub proof fn answer_without_entries_gives_no_line(scrape: ScrapeView, index: usize)
    requires
        valid(scrape),
        scrape.state == ScrapeState::Querying(index),
    ensures
        entries_lines(Seq::<EntryView>::empty(), scrape.plan[index as int].label_mode).len() == 0,
        next(scrape, EventView::QueryAnswered(Seq::empty())).0.lines == scrape.lines,
        next(scrape, EventView::QueryAnswered(Seq::empty())) == at_query(scrape, index + 1),
        !(next(scrape, EventView::QueryAnswered(Seq::empty())).0.state is Failed),
{
    assert(scrape.lines + Seq::<Seq<char>>::empty() =~= scrape.lines);
}

/// A query that fails costs only its own lines: the lines gathered so far
/// stay as they are, the scrape does not fail, and it goes on exactly as
/// after an answer without entries.
pub proof fn failed_query_keeps_the_rest(scrape: ScrapeView, index: usize)
    requires
        valid(scrape),
        scrape.state == ScrapeState::Querying(index),
    ensures
        next(scrape, EventView::QueryFailed).0.lines == scrape.lines,
        next(scrape, EventView::QueryFailed) == at_query(scrape, index + 1),
        next(scrape, EventView::QueryFailed) == next(
            scrape,
            EventView::QueryAnswered(Seq::empty()),
        ),
        !(next(scrape, EventView::QueryFailed).0.state is Failed),
{
    assert(scrape.lines + Seq::<Seq<char>>::empty() =~= scrape.lines);
}

/// Once a scrape has begun, no event takes a line away: what was gathered
/// stays at the front of what is there afterwards.
pub proof fn lines_only_grow(scrape: ScrapeView, event: EventView)
    requires
        valid(scrape),
        !(scrape.state is Idle),
    ensures
        scrape.lines.is_prefix_of(next(scrape, event).0.lines),
        valid(next(scrape, event).0),
{
    let after = next(scrape, event).0;
    assert(scrape.lines =~= after.lines.subrange(0, scrape.lines.len() as int));
}

/// A connection or a bind that fails ends the scrape in failure, with no
/// text; and a scrape that has failed never gives a text afterwards. A
/// scrape that gathered no line still ends with a text, so the two cannot be
/// taken for one another.
pub proof fn failure_is_not_an_empty_result(scrape: ScrapeView, event: EventView)
    requires
        valid(scrape),
    ensures
        scrape.state is Connecting && event is ConnectFailed ==> next(scrape, event) == (
            ScrapeView { state: ScrapeState::Failed(FailureReason::Connect), ..scrape },
            ActionView::Fail { reason: FailureReason::Connect },
        ),
        scrape.state is Authenticating && event is BindFailed ==> next(scrape, event) == (
            ScrapeView { state: ScrapeState::Failed(FailureReason::Bind), ..scrape },
            ActionView::Fail { reason: FailureReason::Bind },
        ),
        scrape.state is Failed ==> next(scrape, event).0 == scrape && next(scrape, event).1 is Fail,
        next(scrape, event).1 is Finish <==> next(scrape, event).0.state is Done,
        next(scrape, event).1 is Fail <==> next(scrape, event).0.state is Failed,
{
}

/// What became of one query: its entries, or nothing where it failed.
pub type Answer = Option<Seq<EntryView>>;

/// The event that reports an answer.
pub open spec fn query_event(answer: Answer) -> EventView {
    match answer {
        Some(entries) => EventView::QueryAnswered(entries),
        None => EventView::QueryFailed,
    }
}

/// The lines that an answer gives under its query.
pub open spec fn answer_lines(query: QueryView, answer: Answer) -> Seq<Seq<char>> {
    match answer {
        Some(entries) => entries_lines(entries, query.label_mode),
        None => Seq::empty(),
    }
}

/// The lines of the first `count` queries of the plan, in the order of the
/// plan.
pub open spec fn answers_lines(plan: Seq<QueryView>, answers: Seq<Answer>, count: nat) -> Seq<
    Seq<char>,
>
    decreases count,
{
    if count == 0 {
        Seq::empty()
    } else {
        answers_lines(plan, answers, (count - 1) as nat) + answer_lines(
            plan[count - 1],
            answers[count - 1],
        )
    }
}

/// The scrape after a row of events.
pub open spec fn run(scrape: ScrapeView, events: Seq<EventView>) -> ScrapeView
    decreases events.len(),
{
    if events.len() == 0 {
        scrape
    } else {
        run(next(scrape, events.first()).0, events.drop_first())
    }
}

/// What the driver reports between the connection and the first query: the
/// outcome of the bind, unless the bind is skipped.
pub open spec fn bind_events(scrape: ScrapeView) -> Seq<EventView> {
    if auth_for(scrape.bind_dn, scrape.bind_password) is Skipped {
        Seq::empty()
    } else {
        seq![EventView::BindSucceeded]
    }
}

/// The events of a scrape in which the connection, the bind and the closing
/// go through, and the queries end as `answers` says.
pub open spec fn scrape_events(
    scrape: ScrapeView,
    answers: Seq<Answer>,
    begin_ms: int,
    end_ms: int,
) -> Seq<EventView> {
    seq![EventView::Start { now_ms: begin_ms }, EventView::Connected] + bind_events(scrape)
        + answers.map_values(|answer: Answer| query_event(answer)) + seq![
        EventView::Closed { now_ms: end_ms },
    ]
}

proof fn lemma_run_split(scrape: ScrapeView, first: Seq<EventView>, second: Seq<EventView>)
    ensures
        run(scrape, first + second) == run(run(scrape, first), second),
    decreases first.len(),
{
    if first.len() == 0 {
        assert(first + second =~= second);
    } else {
        assert((first + second).first() == first.first());
        assert((first + second).drop_first() =~= first.drop_first() + second);
        lemma_run_split(next(scrape, first.first()).0, first.drop_first(), second);
    }
}

proof fn lemma_run_first(scrape: ScrapeView, event: EventView, rest: Seq<EventView>)
    ensures
        run(scrape, seq![event] + rest) == run(next(scrape, event).0, rest),
{
    let events = seq![event] + rest;
    assert(events.first() == event);
    assert(events.drop_first() =~= rest);
}

proof fn lemma_run_queries(
    scrape: ScrapeView,
    answers: Seq<Answer>,
    done: nat,
    base: Seq<Seq<char>>,
)
    requires
        answers.len() == scrape.plan.len(),
        done <= answers.len(),
        scrape.state == at_query(scrape, done as int).0.state,
        scrape.lines == base + answers_lines(scrape.plan, answers, done),
        scrape.plan.len() <= usize::MAX,
    ensures
        run(scrape, answers.skip(done as int).map_values(|answer: Answer| query_event(answer)))
            == (ScrapeView {
            state: ScrapeState::Finalizing,
            lines: base + answers_lines(scrape.plan, answers, answers.len()),
            ..scrape
        }),
    decreases answers.len() - done,
{
    let events = answers.skip(done as int).map_values(|answer: Answer| query_event(answer));
    if done == answers.len() {
        assert(run(scrape, events) =~= scrape);
    } else {
        let own = answer_lines(scrape.plan[done as int], answers[done as int]);
        let after = next(scrape, events.first()).0;
        assert(events.first() == query_event(answers[done as int]));
        assert(after.lines == scrape.lines + own);
        assert(after.state == at_query(after, (done + 1) as int).0.state);
        assert(events.drop_first() =~= answers.skip((done + 1) as int).map_values(
            |answer: Answer| query_event(answer),
        ));
        assert(after.lines =~= base + answers_lines(scrape.plan, answers, (done + 1) as nat));
        lemma_run_queries(after, answers, (done + 1) as nat, base);
    }
}

proof fn lemma_run_opening(scrape: ScrapeView, begin_ms: int)
    requires
        scrape.state is Idle,
        scrape.uri is Some,
    ensures
        run(
            scrape,
            seq![EventView::Start { now_ms: begin_ms }, EventView::Connected] + bind_events(scrape),
        ) == at_query(ScrapeView { started_ms: begin_ms, ..scrape }, 0).0,
{
    let start = EventView::Start { now_ms: begin_ms };
    let connecting = next(scrape, start).0;
    let connected = next(connecting, EventView::Connected).0;
    let binds = bind_events(scrape);
    let events = seq![start, EventView::Connected] + binds;
    assert(events =~= seq![start] + (seq![EventView::Connected] + binds));
    lemma_run_first(scrape, start, seq![EventView::Connected] + binds);
    lemma_run_first(connecting, EventView::Connected, binds);
    if auth_for(scrape.bind_dn, scrape.bind_password) is Skipped {
        assert(run(connected, binds) == connected);
    } else {
        assert(binds =~= seq![EventView::BindSucceeded] + Seq::<EventView>::empty());
        lemma_run_first(connected, EventView::BindSucceeded, Seq::<EventView>::empty());
    }
}

/// A scrape that has an address, and in which the connection, the bind and
/// the closing go through, ends with the lines of its answers in the order
/// of the plan, followed by the line for the time it took. A query that
/// failed has no lines there; those of the others are all in place.
pub proof fn complete_scrape(scrape: ScrapeView, answers: Seq<Answer>, begin_ms: int, end_ms: int)
    requires
        valid(scrape),
        scrape.state is Idle,
        scrape.uri is Some,
        scrape.lines.len() == 0,
        answers.len() == scrape.plan.len(),
    ensures
        run(scrape, scrape_events(scrape, answers, begin_ms, end_ms)) == (ScrapeView {
            state: ScrapeState::Done,
            started_ms: begin_ms,
            lines: answers_lines(scrape.plan, answers, answers.len()).push(
                duration_text(end_ms - begin_ms),
            ),
            ..scrape
        }),
{
    let opening = seq![EventView::Start { now_ms: begin_ms }, EventView::Connected] + bind_events(
        scrape,
    );
    let queries = answers.map_values(|answer: Answer| query_event(answer));
    let close = EventView::Closed { now_ms: end_ms };
    let all = answers_lines(scrape.plan, answers, answers.len());
    lemma_run_opening(scrape, begin_ms);
    let bound = run(scrape, opening);
    assert(answers.skip(0) =~= answers);
    assert(bound.lines =~= scrape.lines + answers_lines(scrape.plan, answers, 0));
    lemma_run_queries(bound, answers, 0, scrape.lines);
    let asked = run(bound, queries);
    assert(asked.lines =~= all);
    lemma_run_first(asked, close, Seq::<EventView>::empty());
    assert(seq![close] + Seq::<EventView>::empty() =~= seq![close]);
    lemma_run_split(scrape, opening, queries);
    lemma_run_split(scrape, opening + queries, seq![close]);
}

} // verus!
