//! Runs of the supervisor: what a sequence of events does, and the laws that
//! hold of every run.

use vstd::prelude::*;
use crate::relay::relayed;
use crate::shutdown::{shutdown_bytes, ShutdownConfigView, LINE_TERMINATOR};
use crate::supervisor::{initial, next, ActionView, EventView, Phase, SupervisorView};

verus! {

/// The state reached from `s` after the events `es`, in order.
pub open spec fn run(s: SupervisorView, es: Seq<EventView>) -> SupervisorView
    decreases es.len(),
{
    if es.len() == 0 {
        s
    } else {
        next(run(s, es.drop_last()), es.last()).0
    }
}

/// The actions asked for along that run, one per event.
pub open spec fn actions(s: SupervisorView, es: Seq<EventView>) -> Seq<ActionView>
    decreases es.len(),
{
    if es.len() == 0 {
        Seq::empty()
    } else {
        actions(s, es.drop_last()).push(next(run(s, es.drop_last()), es.last()).1)
    }
}

/// The bytes an action writes to the child's input.
pub open spec fn written(a: ActionView) -> Seq<u8> {
    match a {
        ActionView::Write(b) => b,
        _ => Seq::empty(),
    }
}

/// Everything written to the child's input along a run, in order.
pub open spec fn output(s: SupervisorView, es: Seq<EventView>) -> Seq<u8>
    decreases es.len(),
{
    if es.len() == 0 {
        Seq::empty()
    } else {
        output(s, es.drop_last()) + written(next(run(s, es.drop_last()), es.last()).1)
    }
}

/// One `LineRead` event per line, in order.
pub open spec fn line_events(lines: Seq<Seq<u8>>) -> Seq<EventView> {
    lines.map_values(|l: Seq<u8>| EventView::LineRead(l))
}

/// The phases after the termination signal has been taken.
pub open spec fn shutdown_begun(p: Phase) -> bool {
    p == Phase::ShuttingDown || p == Phase::Waiting || p == Phase::Done
}

proof fn lemma_run_append(s: SupervisorView, a: Seq<EventView>, b: Seq<EventView>)
    ensures
        run(s, a + b) == run(run(s, a), b),
        actions(s, a + b) == actions(s, a) + actions(run(s, a), b),
        output(s, a + b) == output(s, a) + output(run(s, a), b),
    decreases b.len(),
{
    if b.len() == 0 {
        assert(a + b =~= a);
        assert(actions(s, a) + actions(run(s, a), b) =~= actions(s, a));
        assert(output(s, a) + output(run(s, a), b) =~= output(s, a));
    } else {
        lemma_run_append(s, a, b.drop_last());
        assert((a + b).drop_last() =~= a + b.drop_last());
        assert((a + b).last() == b.last());
        let t = run(s, a);
        let step = next(run(t, b.drop_last()), b.last());
        assert(actions(s, a + b) =~= actions(s, a) + actions(t, b.drop_last()).push(step.1));
        assert(output(s, a + b) =~= output(s, a) + (output(t, b.drop_last()) + written(step.1)));
    }
}

proof fn lemma_one_event(s: SupervisorView, e: EventView)
    ensures
        run(s, seq![e]) == next(s, e).0,
        actions(s, seq![e]) == seq![next(s, e).1],
        output(s, seq![e]) == written(next(s, e).1),
{
    let es = seq![e];
    assert(es.drop_last() =~= Seq::<EventView>::empty());
    assert(es.last() == e);
    assert(run(s, es.drop_last()) == s);
    assert(actions(s, es.drop_last()) == Seq::<ActionView>::empty());
    assert(actions(s, es) =~= seq![next(s, e).1]);
    assert(output(s, es.drop_last()) == Seq::<u8>::empty());
    assert(output(s, es) =~= written(next(s, e).1));
}

proof fn lemma_after_shutdown(s: SupervisorView, es: Seq<EventView>)
    requires
        shutdown_begun(s.phase),
    ensures
        shutdown_begun(run(s, es).phase),
        output(s, es) == Seq::<u8>::empty(),
    decreases es.len(),
{
    if es.len() > 0 {
        lemma_after_shutdown(s, es.drop_last());
        assert(output(s, es) =~= Seq::<u8>::empty());
    }
}

proof fn lemma_relay_lines(s: SupervisorView, lines: Seq<Seq<u8>>)
    requires
        s.phase == Phase::Running,
        s.relay_open,
    ensures
        run(s, line_events(lines)) == s,
        output(s, line_events(lines)) == relayed(lines),
    decreases lines.len(),
{
    if lines.len() > 0 {
        lemma_relay_lines(s, lines.drop_last());
        let es = line_events(lines);
        assert(es.drop_last() =~= line_events(lines.drop_last()));
        assert(es.last() == EventView::LineRead(lines.last()));
    } else {
        assert(line_events(lines) =~= Seq::<EventView>::empty());
    }
}

/// Once started, the supervisor forwards every line it reads to the child
/// exactly once, terminated, in the order read, whatever its configuration.
pub proof fn lemma_lines_relayed_in_order(config: ShutdownConfigView, lines: Seq<Seq<u8>>)
    ensures
        output(initial(config), seq![EventView::Spawned] + line_events(lines)) == relayed(lines),
{
    let s0 = initial(config);
    let started = seq![EventView::Spawned];
    lemma_run_append(s0, started, line_events(lines));
    lemma_one_event(s0, EventView::Spawned);
    let s1 = run(s0, started);
    lemma_relay_lines(s1, lines);
}

/// From any running state, the termination signal writes exactly the shutdown
/// sequence, and nothing is written to the child after it, whatever follows.
pub proof fn lemma_shutdown_sequence_is_last(s: SupervisorView, rest: Seq<EventView>)
    requires
        s.phase == Phase::Running,
    ensures
        output(s, seq![EventView::TerminationSignal] + rest) == shutdown_bytes(s.config),
{
    let sig = seq![EventView::TerminationSignal];
    lemma_run_append(s, sig, rest);
    lemma_one_event(s, EventView::TerminationSignal);
    lemma_after_shutdown(run(s, sig), rest);
    assert(output(s, sig) + output(run(s, sig), rest) =~= shutdown_bytes(s.config));
}

/// A termination signal delivered after shutdown has begun changes nothing: it
/// asks for no action, and every later state and action, the exit among them,
/// is as without it.
pub proof fn lemma_repeated_signal_ignored(s: SupervisorView, rest: Seq<EventView>)
    requires
        shutdown_begun(s.phase),
    ensures
        run(s, seq![EventView::TerminationSignal] + rest) == run(s, rest),
        actions(s, seq![EventView::TerminationSignal] + rest) == seq![ActionView::Idle] + actions(s, rest),
        output(s, seq![EventView::TerminationSignal] + rest) == Seq::<u8>::empty(),
{
    let sig = seq![EventView::TerminationSignal];
    lemma_run_append(s, sig, rest);
    lemma_one_event(s, EventView::TerminationSignal);
    lemma_after_shutdown(s, sig + rest);
}

/// With no command and both terminators enabled, the shutdown writes exactly two
/// line terminators, whatever was relayed before.
pub proof fn lemma_clean_shutdown_writes_two_newlines(s: SupervisorView, rest: Seq<EventView>)
    requires
        s.phase == Phase::Running,
        s.config.command is None,
        s.config.newline_before,
        s.config.newline_after,
    ensures
        output(s, seq![EventView::TerminationSignal] + rest) == seq![LINE_TERMINATOR, LINE_TERMINATOR],
{
    lemma_shutdown_sequence_is_last(s, rest);
    assert(shutdown_bytes(s.config) =~= seq![LINE_TERMINATOR, LINE_TERMINATOR]);
}

/// Over a whole run, the child receives the relayed lines, whole and in order,
/// then the shutdown sequence, and nothing after it: no shutdown byte falls
/// inside a relayed line.
pub proof fn lemma_whole_run(config: ShutdownConfigView, lines: Seq<Seq<u8>>, rest: Seq<EventView>)
    ensures
        output(
            initial(config),
            seq![EventView::Spawned] + line_events(lines) + seq![EventView::TerminationSignal] + rest,
        ) == relayed(lines) + shutdown_bytes(config),
{
    let s0 = initial(config);
    let before = seq![EventView::Spawned] + line_events(lines);
    let after = seq![EventView::TerminationSignal] + rest;
    lemma_lines_relayed_in_order(config, lines);
    lemma_run_append(s0, before, after);
    lemma_run_append(s0, seq![EventView::Spawned], line_events(lines));
    lemma_one_event(s0, EventView::Spawned);
    lemma_relay_lines(run(s0, seq![EventView::Spawned]), lines);
    lemma_shutdown_sequence_is_last(run(s0, before), rest);
    assert(seq![EventView::Spawned] + line_events(lines) + seq![EventView::TerminationSignal] + rest
        =~= before + after);
}

} // verus!
