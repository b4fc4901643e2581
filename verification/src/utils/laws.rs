//! What holds of every session, whatever the browser answers.

use crate::utils::browser::{BrowserErrorView, TencentMapRead};
use crate::utils::model::{
    attempt, awaited, begin_spec, exit_spec, first_map_tab, first_step, is_first_map_tab, next,
    set_region_spec, shows_map, timeout_spec, Session,
};
use crate::utils::page::{
    HIDE_SEARCH_DROPDOWN, MAP_AREA_SELECT, MAP_SEARCH_BAR_CLEAR_BUTTON_SELECT,
    MAP_SEARCH_BAR_SELECT, NO_POINT_NAME, NO_VALUE, SUBMIT_KEY, URL,
};
use crate::utils::protocol::{
    ActionView, EventView, GoalView, Lookup, OperationView, Phase, ReplyView, StepView, TaskView,
};
use crate::utils::regions::{lookup_spec, names_region, Region};
use vstd::prelude::*;

verus! {

/// The session and the step that a run of events leads to: each event
/// answers the action of the step before it. Events that come after the
/// operation has finished change nothing.
pub open spec fn run(session: Session, step: StepView, events: Seq<EventView>) -> (
    Session,
    StepView,
)
    decreases events.len(),
{
    match step {
        StepView::Finished(_) => (session, step),
        StepView::Perform(_, task) => if events.len() == 0 {
            (session, step)
        } else {
            let (after, then) = next(session, task, events.first());
            run(after, then, events.drop_first())
        },
    }
}

/// The actions that are asked for in a run of events, in order: that of the
/// first step, and that of each step that an event leads to.
pub open spec fn trace(session: Session, step: StepView, events: Seq<EventView>) -> Seq<ActionView>
    decreases events.len(),
{
    match step {
        StepView::Finished(_) => Seq::<ActionView>::empty(),
        StepView::Perform(action, task) => if events.len() == 0 {
            seq![action]
        } else {
            let (after, then) = next(session, task, events.first());
            seq![action] + trace(after, then, events.drop_first())
        },
    }
}

/// The actions on the page that an operation has before it once a tab shows
/// the map page.
pub open spec fn goal_actions(goal: GoalView) -> nat {
    match goal {
        GoalView::Search { .. } => 5,
        _ => 1,
    }
}

/// The most actions that can still follow the one under way.
pub open spec fn actions_left(task: TaskView) -> nat {
    match task {
        TaskView::Resolve { phase, retried, goal } => goal_actions(goal) + match phase {
            Phase::Loading => 0nat,
            Phase::Navigating => 1,
            Phase::Selecting => 0,
            Phase::Creating => if retried {
                2
            } else {
                6
            },
            Phase::Listing => if retried {
                3
            } else {
                7
            },
            Phase::Launching => if retried {
                4
            } else {
                8
            },
            Phase::Locating => if retried {
                5
            } else {
                9
            },
        },
        TaskView::ClearSearch { .. } => 4,
        TaskView::FocusSearch { .. } => 3,
        TaskView::TypeQuery => 2,
        TaskView::SubmitSearch => 1,
        TaskView::HideDropdown => 0,
        TaskView::ReadName => 0,
        TaskView::ReadValue { .. } => 0,
        TaskView::RunScript => 0,
        TaskView::ReadRegion => 0,
        TaskView::FindProcess => 1,
        TaskView::EndProcess => 0,
    }
}

/// Each event brings an operation nearer to its end: the action that follows
/// has fewer actions left after it than the one that was answered.
pub proof fn lemma_next_nears_end(session: Session, task: TaskView, event: EventView)
    ensures
        next(session, task, event).1 matches StepView::Perform(_, later) ==> actions_left(later)
            < actions_left(task),
{
}

/// No operation goes on without end: once as many events have come as
/// actions were left, and one more for the action under way, the operation
/// has finished.
pub proof fn lemma_run_finishes(session: Session, step: StepView, events: Seq<EventView>)
    requires
        step matches StepView::Perform(_, task) ==> events.len() > actions_left(task),
    ensures
        run(session, step, events).1 is Finished,
    decreases events.len(),
{
    match step {
        StepView::Finished(_) => {},
        StepView::Perform(_, task) => {
            lemma_next_nears_end(session, task, events.first());
            let (after, then) = next(session, task, events.first());
            lemma_run_finishes(after, then, events.drop_first());
        },
    }
}

/// An operation on the page takes at most 15 actions, the one retry
/// included, and the end of the browser at most 2.
pub proof fn lemma_operations_are_bounded(
    session: Session,
    goal: GoalView,
    events: Seq<EventView>,
)
    ensures
        events.len() >= 15 ==> run(session, begin_spec(session, goal), events).1 is Finished,
        events.len() >= 2 ==> run(exit_spec(session).0, exit_spec(session).1, events).1
            is Finished,
{
    if events.len() >= 15 {
        lemma_run_finishes(session, begin_spec(session, goal), events);
    }
    if events.len() >= 2 {
        lemma_run_finishes(exit_spec(session).0, exit_spec(session).1, events);
    }
}

/// A session owns at most one browser: an executable is only looked for,
/// and a browser only started, while the session owns none, and the browser
/// is owned from the moment it has started.
pub proof fn lemma_one_browser(
    session: Session,
    goal: GoalView,
    task: TaskView,
    event: EventView,
)
    ensures
        begin_spec(session, goal) matches StepView::Perform(
            ActionView::LocateBrowser,
            _,
        ) ==> !session.browser,
        next(session, task, event).1 matches StepView::Perform(
            ActionView::LocateBrowser,
            _,
        ) ==> !next(session, task, event).0.browser,
        next(session, task, event).1 matches StepView::Perform(
            ActionView::LaunchBrowser { .. },
            _,
        ) ==> !next(session, task, event).0.browser,
        next(session, task, event).0.browser && !session.browser ==> (task matches TaskView::Resolve {
            phase: Phase::Launching,
            ..
        }) && event == EventView::Done,
{
}

/// A browser is started with a window, with the GPU, not to be closed for
/// being idle within a day, with the developer tools exactly if the options
/// ask for them, and at the executable that was found. Where none was found,
/// it is started all the same, and left to find one itself.
pub proof fn lemma_launch_settings(
    session: Session,
    retried: bool,
    goal: GoalView,
    found: Option<Seq<char>>,
)
    ensures
        next(
            session,
            TaskView::Resolve { phase: Phase::Locating, retried, goal },
            EventView::Executable(found),
        ).1 == StepView::Perform(
            ActionView::LaunchBrowser {
                headless: false,
                enable_gpu: true,
                devtools: session.options.devtools == Some(true),
                path: found,
                idle_browser_timeout_secs: 86400,
            },
            TaskView::Resolve { phase: Phase::Launching, retried, goal },
        ),
{
}

/// Whatever fails while a tab is found or made, the browser is given up: the
/// operation that ends with the error leaves a session without a browser, and
/// so does the one try that is made again.
pub proof fn lemma_failure_gives_up_browser(
    session: Session,
    phase: Phase,
    retried: bool,
    goal: GoalView,
    event: EventView,
)
    ensures
        ({
            let (after, then) = next(session, TaskView::Resolve { phase, retried, goal }, event);
            &&& then is Finished ==> (then matches StepView::Finished(Err(_))) && !after.browser
            &&& phase == Phase::Creating && event != EventView::Done ==> !after.browser
            &&& phase == Phase::Creating && event != EventView::Done && !retried ==> then
                == attempt(after, goal, true)
            &&& after.options == session.options
        }),
{
}

/// Past the search for a tab nothing changes the session: the actions on the
/// page, and the end of the browser's process, leave it as it is.
pub proof fn lemma_page_actions_keep_session(session: Session, task: TaskView, event: EventView)
    requires
        !(task is Resolve),
    ensures
        next(session, task, event).0 == session,
{
}

/// Ending the browser twice succeeds both times. Whatever is answered the
/// first time, it ends well and leaves no browser; the second time there is
/// nothing to do, and nothing is asked of the caller.
pub proof fn lemma_exit_twice(session: Session, events: Seq<EventView>)
    requires
        events.len() >= 2,
    ensures
        ({
            let (begun, first) = exit_spec(session);
            let (after, ended) = run(begun, first, events);
            &&& ended == StepView::Finished(Ok(ReplyView::Done))
            &&& !after.browser
            &&& exit_spec(after) == (after, StepView::Finished(Ok(ReplyView::Done)))
        }),
{
    reveal_with_fuel(run, 3);
    assert(events.drop_first().len() >= 1);
}

/// A tab that was closed is made again. Where no open tab shows the map
/// page, a tab is opened, sent to the page and waited for, and the operation
/// then goes on exactly as it does with a tab that was found. The session
/// keeps its browser: none is looked for or started, and nothing fails.
pub proof fn lemma_closed_tab_is_replaced(
    session: Session,
    retried: bool,
    goal: GoalView,
    closed: Seq<Seq<char>>,
    open: Seq<Seq<char>>,
)
    requires
        forall|at: int| 0 <= at < closed.len() ==> !shows_map(#[trigger] closed[at]),
        exists|at: int| 0 <= at < open.len() && shows_map(#[trigger] open[at]),
        open.len() <= usize::MAX,
    ensures
        ({
            let listing = TaskView::Resolve { phase: Phase::Listing, retried, goal };
            let creating = TaskView::Resolve { phase: Phase::Creating, retried, goal };
            let navigating = TaskView::Resolve { phase: Phase::Navigating, retried, goal };
            let loading = TaskView::Resolve { phase: Phase::Loading, retried, goal };
            let selecting = TaskView::Resolve { phase: Phase::Selecting, retried, goal };
            &&& next(session, listing, EventView::Tabs(closed)) == (
                session,
                StepView::Perform(ActionView::NewTab, creating),
            )
            &&& next(session, creating, EventView::Done) == (
                session,
                StepView::Perform(
                    ActionView::NavigateTo { url: URL@, timeout: timeout_spec(session.options) },
                    navigating,
                ),
            )
            &&& next(session, navigating, EventView::Done) == (
                session,
                StepView::Perform(ActionView::WaitUntilNavigated, loading),
            )
            &&& next(session, loading, EventView::Done) == (session, first_step(goal))
            &&& (next(session, listing, EventView::Tabs(open)).1 matches StepView::Perform(
                ActionView::SelectTab { index },
                task,
            ) && is_first_map_tab(open, index as int) && task == selecting)
            &&& next(session, selecting, EventView::Done) == (session, first_step(goal))
            &&& run(
                session,
                StepView::Perform(ActionView::ListTabs, listing),
                seq![EventView::Tabs(closed), EventView::Done, EventView::Done, EventView::Done],
            ) == run(
                session,
                StepView::Perform(ActionView::ListTabs, listing),
                seq![EventView::Tabs(open), EventView::Done],
            )
            &&& session.browser ==> trace(
                session,
                begin_spec(session, goal),
                seq![EventView::Tabs(closed), EventView::Done, EventView::Done, EventView::Done],
            ) == seq![
                ActionView::ListTabs,
                ActionView::NewTab,
                ActionView::NavigateTo { url: URL@, timeout: timeout_spec(session.options) },
                ActionView::WaitUntilNavigated,
                first_step(goal)->Perform_0,
            ]
        }),
{
    lemma_first_map_tab(closed);
    lemma_first_map_tab(open);
    reveal_with_fuel(trace, 6);
    if session.browser {
        assert(trace(
            session,
            begin_spec(session, goal),
            seq![EventView::Tabs(closed), EventView::Done, EventView::Done, EventView::Done],
        ) =~= seq![
            ActionView::ListTabs,
            ActionView::NewTab,
            ActionView::NavigateTo { url: URL@, timeout: timeout_spec(session.options) },
            ActionView::WaitUntilNavigated,
            first_step(goal)->Perform_0,
        ]) by {
            let long = seq![
                EventView::Tabs(closed),
                EventView::Done,
                EventView::Done,
                EventView::Done,
            ];
            assert(long.drop_first().drop_first().drop_first().drop_first()
                =~= Seq::<EventView>::empty());
        }
    }
    let long = seq![EventView::Tabs(closed), EventView::Done, EventView::Done, EventView::Done];
    let short = seq![EventView::Tabs(open), EventView::Done];
    assert(long.drop_first().drop_first().drop_first().drop_first() =~= Seq::<EventView>::empty());
    assert(short.drop_first().drop_first() =~= Seq::<EventView>::empty());
    reveal_with_fuel(run, 6);
}

/// Which tab is taken: the first that shows the map page, and none where no
/// tab shows it.
pub proof fn lemma_first_map_tab(urls: Seq<Seq<char>>)
    ensures
        match first_map_tab(urls) {
            Some(at) => is_first_map_tab(urls, at) && 0 <= at < urls.len(),
            None => forall|at: int| 0 <= at < urls.len() ==> !shows_map(#[trigger] urls[at]),
        },
{
    if !(exists|at: int| is_first_map_tab(urls, at)) {
        assert forall|at: int| 0 <= at < urls.len() implies !shows_map(#[trigger] urls[at]) by {
            if shows_map(urls[at]) {
                lemma_some_tab_is_first(urls, at);
            }
        }
    }
}

/// Where a tab shows the map page, some tab is the first that does.
proof fn lemma_some_tab_is_first(urls: Seq<Seq<char>>, at: int)
    requires
        0 <= at < urls.len(),
        shows_map(urls[at]),
    ensures
        exists|first: int| is_first_map_tab(urls, first),
    decreases at,
{
    if forall|earlier: int| 0 <= earlier < at ==> !shows_map(#[trigger] urls[earlier]) {
        assert(is_first_map_tab(urls, at));
    } else {
        let earlier = choose|earlier: int| 0 <= earlier < at && shows_map(#[trigger] urls[earlier]);
        lemma_some_tab_is_first(urls, earlier);
    }
}

/// A search on an open map page, where every call succeeds: the input is
/// cleared if the button for it is there, then clicked; the query is typed as
/// it was given and submitted with the enter key; the list that drops down
/// is removed; and the search has succeeded.
pub proof fn lemma_search_in_order(
    session: Session,
    tabs: Seq<Seq<char>>,
    query: Seq<char>,
    cleared: EventView,
)
    requires
        session.browser,
        exists|at: int| 0 <= at < tabs.len() && shows_map(#[trigger] tabs[at]),
        cleared is Done || cleared is Missing,
    ensures
        ({
            let first = begin_spec(session, GoalView::Search { query });
            let events = seq![
                EventView::Tabs(tabs),
                EventView::Done,
                cleared,
                EventView::Done,
                EventView::Done,
                EventView::Done,
                EventView::Done,
            ];
            &&& run(session, first, events) == (session, StepView::Finished(Ok(ReplyView::Done)))
            &&& trace(session, first, events) == seq![
                ActionView::ListTabs,
                ActionView::SelectTab { index: first_map_tab(tabs)->Some_0 as usize },
                ActionView::Element {
                    lookup: Lookup::Find,
                    selector: MAP_SEARCH_BAR_CLEAR_BUTTON_SELECT@,
                    operation: OperationView::Click,
                },
                awaited(MAP_SEARCH_BAR_SELECT@, OperationView::Click),
                ActionView::SendCharacter { text: query },
                ActionView::PressKey { key: SUBMIT_KEY@ },
                awaited(
                    MAP_AREA_SELECT@,
                    OperationView::CallJsFn { declaration: HIDE_SEARCH_DROPDOWN@ },
                ),
            ]
        }),
{
    lemma_first_map_tab(tabs);
    let first = begin_spec(session, GoalView::Search { query });
    let events = seq![
        EventView::Tabs(tabs),
        EventView::Done,
        cleared,
        EventView::Done,
        EventView::Done,
        EventView::Done,
        EventView::Done,
    ];
    let e1 = events.drop_first();
    let e2 = e1.drop_first();
    let e3 = e2.drop_first();
    let e4 = e3.drop_first();
    let e5 = e4.drop_first();
    let e6 = e5.drop_first();
    assert(e6.drop_first() =~= Seq::<EventView>::empty());
    reveal_with_fuel(run, 9);
    reveal_with_fuel(trace, 9);
    assert(trace(session, first, events) =~= seq![
        ActionView::ListTabs,
        ActionView::SelectTab { index: first_map_tab(tabs)->Some_0 as usize },
        ActionView::Element {
            lookup: Lookup::Find,
            selector: MAP_SEARCH_BAR_CLEAR_BUTTON_SELECT@,
            operation: OperationView::Click,
        },
        awaited(MAP_SEARCH_BAR_SELECT@, OperationView::Click),
        ActionView::SendCharacter { text: query },
        ActionView::PressKey { key: SUBMIT_KEY@ },
        awaited(MAP_AREA_SELECT@, OperationView::CallJsFn { declaration: HIDE_SEARCH_DROPDOWN@ }),
    ]);
}

/// A name that the table does not hold is refused before anything is asked
/// of the browser: the operation has finished with its first step.
pub proof fn lemma_unknown_region_is_refused(
    session: Session,
    regions: Seq<Region>,
    full_name: Seq<char>,
)
    requires
        forall|at: int|
            0 <= at < regions.len() ==> !names_region(full_name, #[trigger] regions[at].fullname@),
    ensures
        set_region_spec(session, regions, full_name) == StepView::Finished(
            Err(BrowserErrorView::GetArea),
        ),
{
    assert(lookup_spec(regions, full_name) is None);
}

/// What is read of the chosen point is what the page shows: the text of the
/// heading, or the content of the input, character for character. Only the
/// text that the page shows while no point is chosen reads as `None`.
pub proof fn lemma_read_reports_page(session: Session, field: TencentMapRead, shown: Seq<char>)
    ensures
        next(session, TaskView::ReadName, EventView::Text(shown)) == (
            session,
            StepView::Finished(
                Ok(
                    ReplyView::Field(
                        if shown == NO_POINT_NAME@ {
                            None
                        } else {
                            Some(shown)
                        },
                    ),
                ),
            ),
        ),
        next(session, TaskView::ReadValue { field }, EventView::Attribute(Some(shown))) == (
            session,
            StepView::Finished(
                Ok(
                    ReplyView::Field(
                        if shown == NO_VALUE@ {
                            None
                        } else {
                            Some(shown)
                        },
                    ),
                ),
            ),
        ),
{
}

/// After a search whose query the page took as the name of the point, the
/// name reads as the query. This holds of every query but the text that the
/// page shows while no point is chosen.
pub proof fn lemma_read_name_after_search(
    session: Session,
    tabs: Seq<Seq<char>>,
    query: Seq<char>,
)
    requires
        session.browser,
        exists|at: int| 0 <= at < tabs.len() && shows_map(#[trigger] tabs[at]),
        query != NO_POINT_NAME@,
    ensures
        run(
            session,
            begin_spec(session, GoalView::Read { field: TencentMapRead::Name }),
            seq![EventView::Tabs(tabs), EventView::Done, EventView::Text(query)],
        ) == (session, StepView::Finished(Ok(ReplyView::Field(Some(query))))),
{
    lemma_first_map_tab(tabs);
    let events = seq![EventView::Tabs(tabs), EventView::Done, EventView::Text(query)];
    let e1 = events.drop_first();
    let e2 = e1.drop_first();
    assert(e2.drop_first() =~= Seq::<EventView>::empty());
    reveal_with_fuel(run, 5);
}

} // verus!
