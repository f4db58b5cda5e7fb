//! The dispatcher core: one event per wake-up is applied to the model, a
//! requested command is forwarded, and the view is rendered for every
//! surviving iteration. A run is specified as a fold of the model's
//! transition function over the sequence of applied events.

use vstd::prelude::*;

use crate::channel::channel_send;
use crate::model::{Input, Model, StateChange};

verus! {

/// One event the dispatcher can apply: a boundary input (which it first
/// converts to a message) or a message received directly.
pub enum Event<M: Model> {
    Input(Input),
    Message(M::Message),
}

/// The message an event is applied as.
pub open spec fn event_message<M: Model>(e: Event<M>) -> M::Message {
    match e {
        Event::Input(i) => M::spec_from_input(i),
        Event::Message(m) => m,
    }
}

/// The mathematical outcome of a dispatcher run over a sequence of events:
/// the final model, the views rendered (in order), the commands forwarded
/// (in order), how many events were applied, and whether the run ended in
/// `Dead`.
pub ghost struct RunOutcome<M: Model> {
    pub model: M,
    pub views: Seq<Seq<char>>,
    pub commands: Seq<M::Command>,
    pub applied: nat,
    pub dead: bool,
}

/// A dispatcher run: events are applied one at a time, in order. Each
/// surviving iteration renders exactly one view and forwards at most one
/// command; the event whose transition returns `Dead` is applied but not
/// rendered, and ends the run.
pub open spec fn spec_run<M: Model>(model: M, events: Seq<Event<M>>) -> RunOutcome<M>
    decreases events.len(),
{
    if events.len() == 0 {
        RunOutcome {
            model,
            views: Seq::empty(),
            commands: Seq::empty(),
            applied: 0,
            dead: false,
        }
    } else {
        let (next, sc) = M::spec_step(model, event_message::<M>(events[0]));
        match sc {
            StateChange::Dead => RunOutcome {
                model: next,
                views: Seq::empty(),
                commands: Seq::empty(),
                applied: 1,
                dead: true,
            },
            StateChange::Alive { command } => {
                let rest = spec_run(next, events.drop_first());
                RunOutcome {
                    model: rest.model,
                    views: seq![next.spec_view()] + rest.views,
                    commands: (match command {
                        Some(c) => seq![c],
                        None => Seq::empty(),
                    }) + rest.commands,
                    applied: 1 + rest.applied,
                    dead: rest.dead,
                }
            },
        }
    }
}

/// Apply one event: convert a boundary input to a message by the model's
/// conversion rule, then take one transition.
pub fn apply_event<M: Model>(model: &mut M, event: Event<M>) -> (sc: StateChange<M::Command>)
    requires
        old(model).wf(),
    ensures
        final(model).wf(),
        (*final(model), sc) == M::spec_step(*old(model), event_message::<M>(event)),
{
    match event {
        Event::Input(input) => {
            let message = M::from_input(input);
            model.update(message)
        },
        Event::Message(message) => model.update(message),
    }
}

/// What a replayed run hands back: the final model, every rendered view in
/// order, every forwarded command in order, and whether the run ended in
/// `Dead`.
pub struct ScriptOutcome<M: Model> {
    pub model: M,
    pub views: Vec<String>,
    pub commands: Vec<M::Command>,
    pub dead: bool,
}

/// Replay a finite event sequence through the dispatcher's per-event logic,
/// deterministically and in order, collecting what the dispatcher would
/// have rendered and forwarded. The result is exactly [`spec_run`] of the
/// events.
pub fn run_script<M: Model>(model: M, events: Vec<Event<M>>) -> (r: ScriptOutcome<M>)
    requires
        model.wf(),
    ensures
        ({
            let out = spec_run(model, events@);
            &&& r.model == out.model
            &&& r.model.wf()
            &&& r.views@.map_values(|v: String| v@) == out.views
            &&& r.commands@ == out.commands
            &&& r.dead == out.dead
        }),
    decreases events@.len(),
{
    let mut events = events;
    if events.len() == 0 {
        ScriptOutcome { model, views: Vec::new(), commands: Vec::new(), dead: false }
    } else {
        let ghost all_events = events@;
        let event = events.remove(0);
        proof {
            assert(events@ =~= all_events.drop_first());
        }
        let mut model = model;
        let sc = apply_event(&mut model, event);
        match sc {
            StateChange::Dead => ScriptOutcome {
                model,
                views: Vec::new(),
                commands: Vec::new(),
                dead: true,
            },
            StateChange::Alive { command } => {
                let rendered = model.view();
                let ghost stepped = model;
                let mut rest = run_script(model, events);
                rest.views.insert(0, rendered);
                proof {
                    assert(rest.views@.map_values(|v: String| v@) =~= seq![stepped.spec_view()]
                        + spec_run(stepped, all_events.drop_first()).views);
                }
                match command {
                    Some(c) => {
                        rest.commands.insert(0, c);
                        proof {
                            assert(rest.commands@ =~= seq![c] + spec_run(
                                stepped,
                                all_events.drop_first(),
                            ).commands);
                        }
                    },
                    None => {
                        proof {
                            assert(Seq::<M::Command>::empty() + spec_run(
                                stepped,
                                all_events.drop_first(),
                            ).commands =~= spec_run(stepped, all_events.drop_first()).commands);
                        }
                    },
                }
                rest
            },
        }
    }
}

/// A run that never reaches `Dead` applies every event and renders exactly
/// one view per applied event.
pub proof fn lemma_live_run_renders_each_event<M: Model>(model: M, events: Seq<Event<M>>)
    requires
        !spec_run(model, events).dead,
    ensures
        spec_run(model, events).applied == events.len(),
        spec_run(model, events).views.len() == events.len(),
    decreases events.len(),
{
    if events.len() > 0 {
        let (next, sc) = M::spec_step(model, event_message::<M>(events[0]));
        match sc {
            StateChange::Dead => {},
            StateChange::Alive { command } => {
                lemma_live_run_renders_each_event(next, events.drop_first());
            },
        }
    }
}

/// A run that ends in `Dead` applies the terminal event but does not render
/// a view for it: every earlier event is rendered, the last one is not.
pub proof fn lemma_dead_run_skips_last_render<M: Model>(model: M, events: Seq<Event<M>>)
    requires
        spec_run(model, events).dead,
    ensures
        spec_run(model, events).applied >= 1,
        spec_run(model, events).views.len() == spec_run(model, events).applied - 1,
        spec_run(model, events).applied <= events.len(),
    decreases events.len(),
{
    if events.len() > 0 {
        let (next, sc) = M::spec_step(model, event_message::<M>(events[0]));
        match sc {
            StateChange::Dead => {},
            StateChange::Alive { command } => {
                lemma_dead_run_skips_last_render(next, events.drop_first());
            },
        }
    }
}

/// Runs compose: as long as the first part of the event sequence leaves the
/// model alive, running the whole sequence is running the first part and
/// then the second from where it left off — views, commands and applied
/// counts concatenate. In particular no event is applied twice and none is
/// skipped over.
pub proof fn lemma_run_append<M: Model>(model: M, first: Seq<Event<M>>, second: Seq<Event<M>>)
    requires
        !spec_run(model, first).dead,
    ensures
        ({
            let a = spec_run(model, first);
            let b = spec_run(a.model, second);
            let whole = spec_run(model, first + second);
            &&& whole.model == b.model
            &&& whole.views == a.views + b.views
            &&& whole.commands == a.commands + b.commands
            &&& whole.applied == a.applied + b.applied
            &&& whole.dead == b.dead
        }),
    decreases first.len(),
{
    let a = spec_run(model, first);
    let b = spec_run(a.model, second);
    let whole = spec_run(model, first + second);
    if first.len() == 0 {
        assert(first + second =~= second);
        assert(whole.views =~= a.views + b.views);
        assert(whole.commands =~= a.commands + b.commands);
    } else {
        assert((first + second).len() > 0);
        assert((first + second)[0] == first[0]);
        let (next, sc) = M::spec_step(model, event_message::<M>(first[0]));
        match sc {
            StateChange::Dead => {},
            StateChange::Alive { command } => {
                assert((first + second).drop_first() =~= first.drop_first() + second);
                lemma_run_append(next, first.drop_first(), second);
                let ar = spec_run(next, first.drop_first());
                let br = spec_run(ar.model, second);
                assert(whole.views =~= a.views + b.views);
                assert(whole.commands =~= a.commands + b.commands);
            },
        }
    }
}

/// Every prefix of a live run is applied exactly once, in order: the whole
/// run is the run of the first `i` events followed by the run of the rest
/// from the state they produced.
pub proof fn lemma_run_prefix<M: Model>(model: M, events: Seq<Event<M>>, i: int)
    requires
        0 <= i <= events.len(),
        !spec_run(model, events.take(i)).dead,
    ensures
        ({
            let a = spec_run(model, events.take(i));
            let b = spec_run(a.model, events.skip(i));
            let whole = spec_run(model, events);
            &&& whole.model == b.model
            &&& whole.views == a.views + b.views
            &&& whole.commands == a.commands + b.commands
            &&& whole.applied == a.applied + b.applied
            &&& whole.dead == b.dead
        }),
{
    assert(events.take(i) + events.skip(i) =~= events);
    lemma_run_append(model, events.take(i), events.skip(i));
}

/// In a live run the view rendered last is the view of the state the run
/// ends in.
pub proof fn lemma_live_run_last_view<M: Model>(model: M, events: Seq<Event<M>>)
    requires
        events.len() > 0,
        !spec_run(model, events).dead,
    ensures
        spec_run(model, events).views.len() > 0,
        spec_run(model, events).views.last() == spec_run(model, events).model.spec_view(),
    decreases events.len(),
{
    let (next, sc) = M::spec_step(model, event_message::<M>(events[0]));
    match sc {
        StateChange::Dead => {},
        StateChange::Alive { command } => {
            if events.len() > 1 {
                lemma_live_run_last_view(next, events.drop_first());
            }
        },
    }
}

/// Each rendered view reflects exactly the events before it, each applied
/// once and in order: as long as the first `i + 1` events leave the model
/// alive, the `i`-th view of the whole run is the view of the state those
/// `i + 1` events produce.
pub proof fn lemma_each_view_reflects_its_prefix<M: Model>(model: M, events: Seq<Event<M>>, i: int)
    requires
        0 <= i < events.len(),
        !spec_run(model, events.take(i + 1)).dead,
    ensures
        spec_run(model, events).views.len() > i,
        spec_run(model, events).views[i] == spec_run(model, events.take(i + 1)).model.spec_view(),
{
    let a = spec_run(model, events.take(i + 1));
    lemma_run_prefix(model, events, i + 1);
    lemma_live_run_renders_each_event(model, events.take(i + 1));
    lemma_live_run_last_view(model, events.take(i + 1));
    assert(spec_run(model, events).views[i] == a.views[i]);
    assert(a.views[i] == a.views.last());
}

/// How one dispatcher wake-up ended.
#[derive(Clone, Copy, Debug, PartialEq, Eq, Structural)]
pub enum StepOutcome {
    /// The model is still alive; the view was rendered. Keep going.
    Continue,
    /// The transition returned `Dead`: the run is over, and no view was
    /// rendered for this terminal event.
    Finished,
    /// A command was emitted but the path feeding the command translator is
    /// closed. The feedback loop is load-bearing, so this is unrecoverable
    /// and must be propagated to the caller.
    CommandSinkClosed,
}

/// One full dispatcher wake-up, after the multiplexed wait has produced an
/// event: apply it to the model, forward the requested command (if any)
/// into `command_tx`, and, for a surviving iteration, render the view into
/// `view_tx` (that send is best effort). The caller loops over this until
/// the outcome is no longer [`StepOutcome::Continue`], blocking between
/// calls on whichever inbound channel is ready first.
pub fn dispatch_one<M: Model>(
    model: &mut M,
    event: Event<M>,
    command_tx: &flume::Sender<M::Command>,
    view_tx: &flume::Sender<String>,
) -> (r: StepOutcome)
    requires
        old(model).wf(),
    ensures
        final(model).wf(),
        ({
            let (next, sc) = M::spec_step(*old(model), event_message::<M>(event));
            &&& *final(model) == next
            &&& ((r == StepOutcome::Finished) <==> sc is Dead)
            &&& (r == StepOutcome::CommandSinkClosed ==> sc matches StateChange::Alive {
                command: Some(_),
            })
            &&& (sc matches StateChange::Alive { command: None } ==> r == StepOutcome::Continue)
        }),
{
    let sc = apply_event(model, event);
    match sc {
        StateChange::Dead => StepOutcome::Finished,
        StateChange::Alive { command: Some(command) } => {
            if !channel_send(command_tx, command) {
                return StepOutcome::CommandSinkClosed;
            }
            let rendered = model.view();
            let _ = channel_send(view_tx, rendered);
            StepOutcome::Continue
        },
        StateChange::Alive { command: None } => {
            let rendered = model.view();
            let _ = channel_send(view_tx, rendered);
            StepOutcome::Continue
        },
    }
}

} // verus!
