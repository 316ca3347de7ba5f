//! What holds of every run, whatever the outside world answers.

use crate::catalog::database_names;
use crate::postgres::{create_call, dump_call, restore_call, InvocationView, Tool};
use crate::scheduler::{
    lemma_step_keeps_well_formed, next, steps_left, well_formed, within_pass, ActionView,
    ErrorKind, EventView, Mode, Phase, RunOutcomeView, SchedulerView,
};
use crate::tasks::{
    dump_tasks, is_dump_file, lemma_count_dump_files_bound, lemma_no_dump_files_no_restore_tasks,
    lemma_one_restore_task_per_dump_file, restore_tasks, DirectoryEntryView,
};
use vstd::prelude::*;

verus! {

/// The run after the events `events`, each answering the action before it.
pub open spec fn run(s: SchedulerView, events: Seq<EventView>) -> SchedulerView
    decreases events.len(),
{
    if events.len() == 0 {
        s
    } else {
        run(next(s, events.first()).0, events.drop_first())
    }
}

/// How many passes begin while the run takes in `events`.
pub open spec fn passes_begun(s: SchedulerView, events: Seq<EventView>) -> nat
    decreases events.len(),
{
    if events.len() == 0 {
        0
    } else {
        let begins: nat = if s.phase == Phase::Idle || s.phase == Phase::Sleeping {
            1
        } else {
            0
        };
        begins + passes_begun(next(s, events.first()).0, events.drop_first())
    }
}

/// What the run asks for while it takes in `events`: one action for each.
pub open spec fn actions(s: SchedulerView, events: Seq<EventView>) -> Seq<ActionView>
    decreases events.len(),
{
    if events.len() == 0 {
        Seq::empty()
    } else {
        seq![next(s, events.first()).1] + actions(next(s, events.first()).0, events.drop_first())
    }
}

/// The calls of `tool` among `actions`, in their order.
pub open spec fn calls_of(tool: Tool, actions: Seq<ActionView>) -> Seq<InvocationView>
    decreases actions.len(),
{
    if actions.len() == 0 {
        Seq::empty()
    } else {
        let rest = calls_of(tool, actions.drop_first());
        match actions.first() {
            ActionView::Call { invocation } if invocation.tool == tool => seq![invocation] + rest,
            _ => rest,
        }
    }
}

/// Whether a task with this outcome got as far as its tool: it did unless
/// its directory could not be made.
pub open spec fn reached_tool(outcome: RunOutcomeView) -> bool {
    !(outcome matches RunOutcomeView::Failed { kind, .. } && kind == ErrorKind::Io)
}

/// The dump calls that are owed to the tasks from `from` on, given how the
/// tasks ended: one for each task that got as far as the dump tool, in the
/// order of the tasks.
pub open spec fn dumps_owed(
    s: SchedulerView,
    outcomes: Seq<RunOutcomeView>,
    from: int,
) -> Seq<InvocationView>
    decreases s.tasks.len() - from,
{
    if from < 0 || from >= s.tasks.len() {
        Seq::empty()
    } else {
        let rest = dumps_owed(s, outcomes, from + 1);
        if reached_tool(outcomes[from]) {
            seq![dump_call(s.config.db, s.tasks[from].database, s.tasks[from].path)] + rest
        } else {
            rest
        }
    }
}

/// The calls that are owed to the restore tasks from `from` on: for each
/// task one that creates its database and then one that replays its file.
pub open spec fn restores_owed(s: SchedulerView, from: int) -> Seq<InvocationView>
    decreases s.tasks.len() - from,
{
    if from < 0 || from >= s.tasks.len() {
        Seq::empty()
    } else {
        seq![
            create_call(s.config.db, s.tasks[from].database),
            restore_call(s.config.db, s.tasks[from].database, s.tasks[from].path),
        ] + restores_owed(s, from + 1)
    }
}

/// The first task of the pass whose dump call is still to come.
pub open spec fn next_to_dump(s: SchedulerView) -> int {
    if s.phase == Phase::Dumping {
        s.cursor as int + 1
    } else {
        s.cursor as int
    }
}

/// Whether the pass that `s` is in has ended in `t`: every task of it has
/// its outcome, those that `s` had are as they were, and the run was not
/// given up.
pub open spec fn pass_over(s: SchedulerView, t: SchedulerView) -> bool {
    &&& t.phase == Phase::Sleeping || t.phase == Phase::Finished
    &&& t.failure is None
    &&& t.config == s.config
    &&& t.mode == s.mode
    &&& t.tasks == s.tasks
    &&& t.cursor == s.tasks.len()
    &&& t.outcomes.len() == s.tasks.len()
    &&& t.outcomes.take(s.cursor as int) == s.outcomes
}

/// The settings and the mode of a run never change.
pub proof fn lemma_settings_are_fixed(s: SchedulerView, event: EventView)
    ensures
        next(s, event).0.config == s.config,
        next(s, event).0.mode == s.mode,
{
}

/// No failure of a task ends the pass: while a task is under way, whatever
/// is reported, the tasks stay the same, the run is not given up, the
/// outcomes so far are kept, and the pass ends only once the last task is
/// over.
pub proof fn lemma_failure_does_not_end_pass(s: SchedulerView, event: EventView)
    requires
        well_formed(s),
        within_pass(s.phase),
    ensures
        ({
            let t = next(s, event).0;
            &&& t.tasks == s.tasks
            &&& t.failure is None
            &&& t.cursor == s.cursor || t.cursor == s.cursor + 1
            &&& t.outcomes.take(s.cursor as int) == s.outcomes
            &&& within_pass(t.phase) || pass_over(s, t)
        }),
{
    let t = next(s, event).0;
    assert(t.outcomes.take(s.cursor as int) =~= s.outcomes);
}

/// Each event brings the pass nearer to its end.
pub proof fn lemma_pass_draws_to_its_end(s: SchedulerView, event: EventView)
    requires
        well_formed(s),
        within_pass(s.phase),
    ensures
        steps_left(s) >= 1,
        within_pass(next(s, event).0.phase) ==> 1 <= steps_left(next(s, event).0) < steps_left(s),
{
}

/// Taking in `k` events is taking in the first and then the rest.
proof fn lemma_run_unfolds(s: SchedulerView, events: Seq<EventView>, k: int)
    requires
        1 <= k <= events.len(),
    ensures
        events.take(k).first() == events.first(),
        events.take(k).drop_first() == events.drop_first().take(k - 1),
        run(s, events.take(k)) == run(next(s, events.first()).0, events.drop_first().take(k - 1)),
        actions(s, events.take(k)) == seq![next(s, events.first()).1] + actions(
            next(s, events.first()).0,
            events.drop_first().take(k - 1),
        ),
        k == 1 ==> run(s, events.take(k)) == next(s, events.first()).0,
        k == 1 ==> actions(s, events.take(k)) == seq![next(s, events.first()).1],
{
    assert(events.take(k).drop_first() =~= events.drop_first().take(k - 1));
    if k == 1 {
        let t = next(s, events.first()).0;
        assert(events.drop_first().take(0).len() == 0);
        assert(run(t, events.drop_first().take(0)) == t);
        assert(actions(t, events.drop_first().take(0)) == Seq::<ActionView>::empty());
        assert(seq![next(s, events.first()).1] + Seq::<ActionView>::empty() =~= seq![
            next(s, events.first()).1,
        ]);
    }
}

/// The pass that `s` is in ends after its first event and `k` more, where
/// it ends `k` events after that first one: the run stays within the pass
/// until then, and what `s` had recorded is kept.
proof fn lemma_pass_over_after_step(s: SchedulerView, events: Seq<EventView>, k: int)
    requires
        well_formed(s),
        within_pass(s.phase),
        0 <= k < events.len(),
        ({
            let t = next(s, events.first()).0;
            let rest = events.drop_first();
            if k == 0 {
                !within_pass(t.phase)
            } else {
                &&& within_pass(t.phase)
                &&& pass_over(t, run(t, rest.take(k)))
                &&& forall|j: int| 0 <= j < k ==> within_pass(#[trigger] run(t, rest.take(j)).phase)
            }
        }),
    ensures
        run(s, events.take(k + 1)) == run(next(s, events.first()).0, events.drop_first().take(k)),
        actions(s, events.take(k + 1)) == seq![next(s, events.first()).1] + actions(
            next(s, events.first()).0,
            events.drop_first().take(k),
        ),
        pass_over(s, run(s, events.take(k + 1))),
        forall|j: int| 0 <= j < k + 1 ==> within_pass(#[trigger] run(s, events.take(j)).phase),
{
    let t = next(s, events.first()).0;
    let rest = events.drop_first();
    let end = run(s, events.take(k + 1));
    lemma_failure_does_not_end_pass(s, events.first());
    lemma_run_unfolds(s, events, k + 1);
    assert(events.take(0) =~= Seq::<EventView>::empty());
    if k > 0 {
        assert(end.outcomes.take(s.cursor as int) =~= s.outcomes) by {
            assert forall|i: int| 0 <= i < s.cursor implies end.outcomes[i] == s.outcomes[i] by {
                assert(end.outcomes.take(t.cursor as int)[i] == t.outcomes[i]);
                assert(t.outcomes.take(s.cursor as int)[i] == s.outcomes[i]);
            }
        }
    }
    assert forall|j: int| 0 <= j < k + 1 implies within_pass(
        #[trigger] run(s, events.take(j)).phase,
    ) by {
        if j > 0 {
            lemma_run_unfolds(s, events, j);
        }
    }
}

/// Whatever the actions report, failures included, a pass comes to its end:
/// after at most `steps_left(s)` events every task of it has its outcome.
/// The result is the number of events that it took.
pub proof fn lemma_pass_ends(s: SchedulerView, events: Seq<EventView>) -> (k: int)
    requires
        well_formed(s),
        within_pass(s.phase),
        events.len() >= steps_left(s),
    ensures
        1 <= k <= steps_left(s),
        pass_over(s, run(s, events.take(k))),
        forall|j: int| 0 <= j < k ==> within_pass(#[trigger] run(s, events.take(j)).phase),
    decreases steps_left(s),
{
    lemma_pass_draws_to_its_end(s, events.first());
    lemma_step_keeps_well_formed(s, events.first());
    let t = next(s, events.first()).0;
    let k = if within_pass(t.phase) {
        lemma_pass_ends(t, events.drop_first())
    } else {
        0
    };
    lemma_pass_over_after_step(s, events, k);
    k + 1
}

/// The calls of a tool among an action and those that follow it.
proof fn lemma_calls_of_first(tool: Tool, action: ActionView, rest: Seq<ActionView>)
    ensures
        calls_of(tool, seq![action] + rest) == match action {
            ActionView::Call { invocation } if invocation.tool == tool => seq![invocation]
                + calls_of(tool, rest),
            _ => calls_of(tool, rest),
        },
{
    let all = seq![action] + rest;
    assert(all.first() == action);
    assert(all.drop_first() =~= rest);
}

/// In a backup pass each database is dumped exactly once, in the order of
/// the listing, whatever is reported on the way: a dump that fails does not
/// keep the later databases from their turn, and nothing that a webhook
/// reports changes a call. Only a database whose directory could not be
/// made is passed over, and its outcome says so.
///
/// The result is the number of events that the pass takes from `s` to its
/// end; the dump calls that the run asks for on the way are those owed to
/// the tasks that were still to be dumped in `s`.
pub proof fn lemma_pass_dumps_each_database_once(s: SchedulerView, events: Seq<EventView>) -> (k:
    int)
    requires
        well_formed(s),
        s.mode == Mode::Backup,
        within_pass(s.phase),
        events.len() >= steps_left(s),
    ensures
        1 <= k <= steps_left(s),
        pass_over(s, run(s, events.take(k))),
        forall|j: int| 0 <= j < k ==> within_pass(#[trigger] run(s, events.take(j)).phase),
        calls_of(Tool::PgDump, actions(s, events.take(k))) == dumps_owed(
            s,
            run(s, events.take(k)).outcomes,
            next_to_dump(s),
        ),
        s.phase == Phase::Dumping ==> reached_tool(
            run(s, events.take(k)).outcomes[s.cursor as int],
        ),
    decreases steps_left(s),
{
    let event = events.first();
    let (t, action) = next(s, event);
    let rest = events.drop_first();
    lemma_pass_draws_to_its_end(s, event);
    lemma_calls_follow_tasks(s, event);
    lemma_step_keeps_well_formed(s, event);
    let k = if within_pass(t.phase) {
        lemma_pass_dumps_each_database_once(t, rest)
    } else {
        0
    };
    lemma_pass_over_after_step(s, events, k);
    let end = run(s, events.take(k + 1));
    let later = calls_of(Tool::PgDump, actions(t, rest.take(k)));
    lemma_calls_of_first(Tool::PgDump, action, actions(t, rest.take(k)));
    lemma_dumps_owed_same_tasks(s, t, end.outcomes, next_to_dump(t));
    lemma_dumps_owed_same_tasks(s, t, end.outcomes, t.cursor as int);
    assert forall|i: int| 0 <= i < t.cursor implies end.outcomes[i] == t.outcomes[i] by {
        if k > 0 {
            assert(end.outcomes.take(t.cursor as int)[i] == t.outcomes[i]);
        }
    }
    assert(later == dumps_owed(s, end.outcomes, next_to_dump(t)));
    // The call for the task that `t` is dumping is the action of this step.
    if t.phase == Phase::Dumping {
        assert(dumps_owed(s, end.outcomes, t.cursor as int) == seq![
            dump_call(s.config.db, s.tasks[t.cursor as int].database, s.tasks[t.cursor as int].path),
        ] + later);
    }
    // A task whose directory could not be made is owed no call.
    if s.phase == Phase::Preparing && t.cursor == s.cursor + 1 {
        assert(t.outcomes[s.cursor as int] == s.outcomes.push(t.outcomes.last())[s.cursor as int]);
        assert(dumps_owed(s, end.outcomes, s.cursor as int) == dumps_owed(
            s,
            end.outcomes,
            t.cursor as int,
        ));
    }
    if s.phase == Phase::Dumping {
        assert(reached_tool(t.outcomes[s.cursor as int]));
    }
    k + 1
}

/// What is owed depends on the tasks and the settings only.
proof fn lemma_dumps_owed_same_tasks(
    s: SchedulerView,
    t: SchedulerView,
    outcomes: Seq<RunOutcomeView>,
    from: int,
)
    requires
        s.tasks == t.tasks,
        s.config == t.config,
    ensures
        dumps_owed(s, outcomes, from) == dumps_owed(t, outcomes, from),
    decreases s.tasks.len() - from,
{
    if 0 <= from < s.tasks.len() {
        lemma_dumps_owed_same_tasks(s, t, outcomes, from + 1);
    }
}

/// What is owed depends on the tasks and the settings only.
proof fn lemma_restores_owed_same_tasks(s: SchedulerView, t: SchedulerView, from: int)
    requires
        s.tasks == t.tasks,
        s.config == t.config,
    ensures
        restores_owed(s, from) == restores_owed(t, from),
    decreases s.tasks.len() - from,
{
    if 0 <= from < s.tasks.len() {
        lemma_restores_owed_same_tasks(s, t, from + 1);
    }
}

/// In a restore pass each dump file gets exactly one cycle, in the order of
/// the files: its database is created, then the file is replayed, whatever
/// the creation or an earlier replay reported.
///
/// The result is the number of events that the pass takes from `s` to its
/// end; the calls that the run asks for on the way are the replay of the
/// file under way, where its database has just been created, and then both
/// calls for each later file.
pub proof fn lemma_pass_restores_each_file_once(s: SchedulerView, events: Seq<EventView>) -> (k:
    int)
    requires
        well_formed(s),
        s.mode == Mode::Restore,
        within_pass(s.phase),
        events.len() >= steps_left(s),
    ensures
        1 <= k <= steps_left(s),
        pass_over(s, run(s, events.take(k))),
        forall|j: int| 0 <= j < k ==> within_pass(#[trigger] run(s, events.take(j)).phase),
        calls_of(Tool::Psql, actions(s, events.take(k))) == if s.phase == Phase::Creating {
            seq![
                restore_call(
                    s.config.db,
                    s.tasks[s.cursor as int].database,
                    s.tasks[s.cursor as int].path,
                ),
            ] + restores_owed(s, s.cursor as int + 1)
        } else {
            restores_owed(s, s.cursor as int + 1)
        },
        calls_of(Tool::PgDump, actions(s, events.take(k))) == Seq::<InvocationView>::empty(),
        run(s, events.take(k)).phase == Phase::Finished,
    decreases steps_left(s),
{
    let event = events.first();
    let (t, action) = next(s, event);
    let rest = events.drop_first();
    lemma_pass_draws_to_its_end(s, event);
    lemma_calls_follow_tasks(s, event);
    lemma_passes_follow_interval(s, event);
    lemma_step_keeps_well_formed(s, event);
    let k = if within_pass(t.phase) {
        lemma_pass_restores_each_file_once(t, rest)
    } else {
        0
    };
    lemma_pass_over_after_step(s, events, k);
    lemma_calls_of_first(Tool::Psql, action, actions(t, rest.take(k)));
    lemma_calls_of_first(Tool::PgDump, action, actions(t, rest.take(k)));
    lemma_restores_owed_same_tasks(s, t, s.cursor as int + 1);
    lemma_restores_owed_same_tasks(s, t, t.cursor as int + 1);
    // After a replay the next file, if there is one, gets both of its calls.
    if s.phase == Phase::Restoring && k > 0 {
        assert(restores_owed(t, t.cursor as int) =~= seq![
            create_call(t.config.db, t.tasks[t.cursor as int].database),
        ] + (seq![
            restore_call(
                t.config.db,
                t.tasks[t.cursor as int].database,
                t.tasks[t.cursor as int].path,
            ),
        ] + restores_owed(t, t.cursor as int + 1)));
    }
    k + 1
}

/// A backup pass, from the answer of the server to its end: whatever is
/// reported after the listing, the pass has one task for each database that
/// the listing names, every task gets its outcome, and the dump tool is
/// called once for each task that got as far, in the order of the listing,
/// to write `<save directory>/<database>.sql`.
///
/// The result is the number of events that the pass takes, the listing
/// included.
pub proof fn lemma_backup_pass_dumps_every_listed_database(
    s: SchedulerView,
    listing: Seq<char>,
    events: Seq<EventView>,
) -> (k: int)
    requires
        well_formed(s),
        s.phase == Phase::Listing,
        events.len() > 3 * database_names(listing).len(),
    ensures
        ({
            let all = seq![EventView::Done { output: listing }] + events;
            let end = run(s, all.take(k));
            &&& 1 <= k <= all.len()
            &&& end.phase == Phase::Sleeping || end.phase == Phase::Finished
            &&& end.failure is None
            &&& end.tasks == dump_tasks(s.config.save_path, database_names(listing))
            &&& end.outcomes.len() == database_names(listing).len()
            &&& calls_of(Tool::PgDump, actions(s, all.take(k))) == dumps_owed(
                end,
                end.outcomes,
                0,
            )
        }),
{
    let first = EventView::Done { output: listing };
    let all = seq![first] + events;
    let (t, action) = next(s, first);
    assert(all.first() == first);
    assert(all.drop_first() =~= events);
    lemma_step_keeps_well_formed(s, first);
    lemma_calls_follow_tasks(s, first);
    if within_pass(t.phase) {
        let k = lemma_pass_dumps_each_database_once(t, events);
        lemma_run_unfolds(s, all, k + 1);
        let end = run(s, all.take(k + 1));
        lemma_calls_of_first(Tool::PgDump, action, actions(t, events.take(k)));
        lemma_dumps_owed_same_tasks(t, end, end.outcomes, 0);
        lemma_dumps_owed_same_tasks(t, end, end.outcomes, 1);
        if t.phase == Phase::Dumping {
            assert(dumps_owed(t, end.outcomes, 0) == seq![
                dump_call(t.config.db, t.tasks[0].database, t.tasks[0].path),
            ] + dumps_owed(t, end.outcomes, 1));
        }
        k + 1
    } else {
        lemma_run_unfolds(s, all, 1);
        lemma_calls_of_first(Tool::PgDump, action, Seq::empty());
        assert(seq![action] + Seq::<ActionView>::empty() =~= seq![action]);
        1
    }
}

/// A restore pass, from the reading of the directory to its end: whatever
/// is reported after that, the pass has one task for each dump file among
/// the files found, every task gets its outcome, and each is given exactly
/// one cycle, in the order of the files: its database is created, then the
/// file is replayed. No file is ever dumped over.
///
/// The result is the number of events that the pass takes, the reading
/// included.
pub proof fn lemma_restore_pass_replays_every_dump_file(
    s: SchedulerView,
    entries: Seq<DirectoryEntryView>,
    events: Seq<EventView>,
) -> (k: int)
    requires
        well_formed(s),
        s.phase == Phase::Scanning,
        events.len() >= 3 * entries.len(),
    ensures
        ({
            let all = seq![EventView::Entries { entries }] + events;
            let end = run(s, all.take(k));
            &&& 1 <= k <= all.len()
            &&& end.phase == Phase::Finished
            &&& end.failure is None
            &&& end.tasks == restore_tasks(s.config.restore_path, entries)
            &&& end.outcomes.len() == end.tasks.len()
            &&& calls_of(Tool::Psql, actions(s, all.take(k))) == restores_owed(end, 0)
            &&& calls_of(Tool::PgDump, actions(s, all.take(k))) == Seq::<InvocationView>::empty()
        }),
{
    let first = EventView::Entries { entries };
    let all = seq![first] + events;
    let (t, action) = next(s, first);
    assert(all.first() == first);
    assert(all.drop_first() =~= events);
    lemma_step_keeps_well_formed(s, first);
    lemma_calls_follow_tasks(s, first);
    lemma_one_restore_task_per_dump_file(s.config.restore_path, entries);
    lemma_count_dump_files_bound(entries);
    if within_pass(t.phase) {
        let k = lemma_pass_restores_each_file_once(t, events);
        lemma_run_unfolds(s, all, k + 1);
        let end = run(s, all.take(k + 1));
        lemma_calls_of_first(Tool::Psql, action, actions(t, events.take(k)));
        lemma_calls_of_first(Tool::PgDump, action, actions(t, events.take(k)));
        lemma_restores_owed_same_tasks(t, end, 0);
        lemma_restores_owed_same_tasks(t, end, 1);
        assert(restores_owed(t, 0) =~= seq![create_call(t.config.db, t.tasks[0].database)] + (seq![
            restore_call(t.config.db, t.tasks[0].database, t.tasks[0].path),
        ] + restores_owed(t, 1)));
        k + 1
    } else {
        lemma_run_unfolds(s, all, 1);
        lemma_calls_of_first(Tool::Psql, action, Seq::empty());
        lemma_calls_of_first(Tool::PgDump, action, Seq::empty());
        assert(seq![action] + Seq::<ActionView>::empty() =~= seq![action]);
        1
    }
}

/// The answer of the server decides the tasks of a backup pass: one dump
/// task for each database that the listing names, in its order, with the
/// file `<save directory>/<database>.sql`.
pub proof fn lemma_listing_plans_one_dump_per_database(s: SchedulerView, listing: Seq<char>)
    requires
        well_formed(s),
        s.phase == Phase::Listing,
    ensures
        ({
            let t = next(s, EventView::Done { output: listing }).0;
            &&& t.tasks == dump_tasks(s.config.save_path, database_names(listing))
            &&& t.tasks.len() == database_names(listing).len()
            &&& t.cursor == 0
            &&& t.failure is None
        }),
{
}

/// A call of the dump tool is the call for the task under way: it writes the
/// file of that task from the database of that task. Likewise for a call
/// that replays a file.
pub proof fn lemma_calls_follow_tasks(s: SchedulerView, event: EventView)
    requires
        well_formed(s),
    ensures
        ({
            let (t, action) = next(s, event);
            &&& t.phase == Phase::Dumping ==> t.cursor < t.tasks.len() && action
                == (ActionView::Call {
                invocation: dump_call(
                    t.config.db,
                    t.tasks[t.cursor as int].database,
                    t.tasks[t.cursor as int].path,
                ),
            })
            &&& t.phase == Phase::Restoring ==> t.cursor < t.tasks.len() && action
                == (ActionView::Call {
                invocation: restore_call(
                    t.config.db,
                    t.tasks[t.cursor as int].database,
                    t.tasks[t.cursor as int].path,
                ),
            })
            &&& (action matches ActionView::Call { invocation } && invocation.tool == Tool::PgDump)
                ==> t.phase == Phase::Dumping
        }),
{
}

/// How a post to the webhook ends changes nothing: the run and the next
/// action are the same after a failure as after a success, and no outcome
/// is touched.
pub proof fn lemma_notification_result_is_ignored(
    s: SchedulerView,
    first: EventView,
    second: EventView,
)
    requires
        s.phase == Phase::Announcing || s.phase == Phase::Uploading,
    ensures
        next(s, first) == next(s, second),
        next(s, first).0.outcomes == s.outcomes,
        next(s, first).0.failure == s.failure,
{
}

/// Two runs that are told the same, but for how the posts to the webhook
/// ended, are the same run: they ask for the same actions and record the
/// same outcomes.
pub proof fn lemma_run_ignores_notification_results(
    s: SchedulerView,
    first: Seq<EventView>,
    second: Seq<EventView>,
)
    requires
        first.len() == second.len(),
        forall|i: int|
            0 <= i < first.len() ==> first[i] == second[i] || ({
                let phase = (#[trigger] run(s, first.take(i))).phase;
                phase == Phase::Announcing || phase == Phase::Uploading
            }),
    ensures
        run(s, first) == run(s, second),
        actions(s, first) == actions(s, second),
    decreases first.len(),
{
    if first.len() > 0 {
        assert(first.take(0) =~= Seq::<EventView>::empty());
        assert(run(s, first.take(0)) == s);
        let t = next(s, first.first()).0;
        assert(next(s, first.first()) == next(s, second.first()));
        let rest = first.drop_first();
        assert forall|i: int| 0 <= i < rest.len() implies rest[i] == second.drop_first()[i] || ({
            let phase = (#[trigger] run(t, rest.take(i))).phase;
            phase == Phase::Announcing || phase == Phase::Uploading
        }) by {
            lemma_run_unfolds(s, first, i + 1);
            assert(first[i + 1] == rest[i]);
            assert(second[i + 1] == second.drop_first()[i]);
            assert(run(s, first.take(i + 1)) == run(t, rest.take(i)));
        }
        lemma_run_ignores_notification_results(t, rest, second.drop_first());
    }
}

/// Whether the database could be created changes nothing: the dump file is
/// replayed all the same.
pub proof fn lemma_create_result_is_ignored(s: SchedulerView, first: EventView, second: EventView)
    requires
        well_formed(s),
        s.phase == Phase::Creating,
    ensures
        next(s, first) == next(s, second),
        next(s, first).0.phase == Phase::Restoring,
        next(s, first).1 == (ActionView::Call {
            invocation: restore_call(
                s.config.db,
                s.tasks[s.cursor as int].database,
                s.tasks[s.cursor as int].path,
            ),
        }),
{
}

/// A restore directory without dump files gives the run nothing to do: it
/// is over at once, with no call of any tool. What is no regular file, and
/// what has another extension than `sql`, is no dump file.
pub proof fn lemma_restore_without_dump_files_does_nothing(
    s: SchedulerView,
    entries: Seq<DirectoryEntryView>,
)
    requires
        well_formed(s),
        s.phase == Phase::Scanning,
        forall|k: int| 0 <= k < entries.len() ==> !is_dump_file(#[trigger] entries[k]),
    ensures
        ({
            let (t, action) = next(s, EventView::Entries { entries });
            &&& t.phase == Phase::Finished
            &&& t.tasks.len() == 0
            &&& t.outcomes.len() == 0
            &&& t.failure is None
            &&& action == ActionView::Exit { error: None }
        }),
{
    lemma_no_dump_files_no_restore_tasks(s.config.restore_path, entries);
}

/// A run sleeps only between two backup passes, and for the interval of
/// its settings; a pass begins only at the start of the run or after such a
/// sleep; and a run that is over stays over.
pub proof fn lemma_passes_follow_interval(s: SchedulerView, event: EventView)
    requires
        well_formed(s),
    ensures
        ({
            let (t, action) = next(s, event);
            &&& t.phase == Phase::Sleeping <==> action is Sleep
            &&& action matches ActionView::Sleep { seconds } ==> s.mode == Mode::Backup
                && s.config.interval == Some(seconds) && (within_pass(s.phase) || s.phase
                == Phase::Listing)
            &&& t.phase == Phase::Listing || t.phase == Phase::Scanning ==> s.phase == Phase::Idle
                || s.phase == Phase::Sleeping
            &&& t.phase != Phase::Idle
            &&& s.phase == Phase::Finished ==> t == s && action is Exit
            &&& t.phase == Phase::Finished <==> action is Exit
        }),
{
}

/// Without an interval, and in restore mode with or without one, a run
/// has one pass and no more, whatever is reported and however long the
/// caller goes on.
pub proof fn lemma_single_pass_without_interval(s: SchedulerView, events: Seq<EventView>)
    requires
        well_formed(s),
        s.phase != Phase::Sleeping,
        s.config.interval is None || s.mode == Mode::Restore,
    ensures
        passes_begun(s, events) == if s.phase == Phase::Idle && events.len() > 0 {
            1nat
        } else {
            0nat
        },
        run(s, events).phase != Phase::Sleeping,
    decreases events.len(),
{
    if events.len() > 0 {
        let t = next(s, events.first()).0;
        lemma_step_keeps_well_formed(s, events.first());
        lemma_passes_follow_interval(s, events.first());
        lemma_single_pass_without_interval(t, events.drop_first());
    }
}

/// With an interval, a backup run that ended a pass sleeps for that long,
/// and the next pass begins with the event that follows the sleep.
pub proof fn lemma_next_pass_follows_sleep(s: SchedulerView, event: EventView, wake: EventView)
    requires
        well_formed(s),
        next(s, event).0.phase == Phase::Sleeping,
    ensures
        s.config.interval is Some,
        next(s, event).1 == (ActionView::Sleep { seconds: s.config.interval->0 }),
        next(next(s, event).0, wake).0.phase == Phase::Listing,
{
}

} // verus!
