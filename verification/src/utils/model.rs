//! The rules of a session, as functions on plain values: which action an
//! operation begins with, and what follows from each event.
//!
//! An operation first makes sure that a browser runs and that one of its tabs
//! shows the map page, then acts on that tab. Nothing is kept of a tab between
//! two operations: each one looks for it again.

use crate::utils::browser::{BrowserErrorView, TencentMapOptions, TencentMapRead};
use crate::utils::page::{
    present_spec, region_script_spec, HIDE_SEARCH_DROPDOWN, MAP_AREA_SELECT,
    MAP_SEARCH_BAR_CLEAR_BUTTON_SELECT, MAP_SEARCH_BAR_SELECT, NO_POINT_NAME, NO_VALUE, SUBMIT_KEY,
    TERMINAL_ADDRESS_SELECT, TERMINAL_LOCATION_SELECT, TERMINAL_NAME_SELECT, URL, VALUE_ATTRIBUTE,
};
use crate::utils::protocol::{
    ActionView, EventView, GoalView, Lookup, OperationView, Phase, ReplyView, StepView, TabTimeout,
    TaskView,
};
use crate::utils::regions::{lookup_spec, Region};
use crate::utils::text::{occurs_in, trim_spec};
use vstd::prelude::*;

verus! {

/// The seconds that a tab waits where the options give no time.
pub const DEFAULT_TAB_TIMEOUT_SECS: u64 = 60;

/// The seconds that a browser may stay idle before its connection is closed:
/// a day, so that it is not closed while a session lasts.
pub const IDLE_BROWSER_TIMEOUT_SECS: u64 = 86400;

/// What a session is: whether it owns a browser, and its settings.
pub struct Session {
    pub browser: bool,
    pub options: TencentMapOptions,
}

impl Session {
    /// The session once it has given up its browser.
    pub open spec fn without_browser(self) -> Session {
        Session { browser: false, options: self.options }
    }

    /// The session once it owns a browser.
    pub open spec fn with_browser(self) -> Session {
        Session { browser: true, options: self.options }
    }
}

/// The launch of a browser: with a window, with the GPU, with the developer
/// tools if the options ask for them, at the executable that was found, if
/// one was, and not to be closed for being idle.
pub open spec fn launch_spec(options: TencentMapOptions, path: Option<Seq<char>>) -> ActionView {
    ActionView::LaunchBrowser {
        headless: false,
        enable_gpu: true,
        devtools: match options.devtools {
            Some(devtools) => devtools,
            None => false,
        },
        path,
        idle_browser_timeout_secs: IDLE_BROWSER_TIMEOUT_SECS,
    }
}

/// The time that a new tab is told to wait.
pub open spec fn timeout_spec(options: TencentMapOptions) -> TabTimeout {
    match options.tab_timeout {
        Some(given) => TabTimeout::Given(given),
        None => TabTimeout::Seconds(DEFAULT_TAB_TIMEOUT_SECS),
    }
}

/// The tab at this address shows the map page.
pub open spec fn shows_map(url: Seq<char>) -> bool {
    occurs_in(url, URL@)
}

/// `at` is the position of the first tab that shows the map page.
pub open spec fn is_first_map_tab(urls: Seq<Seq<char>>, at: int) -> bool {
    &&& 0 <= at < urls.len()
    &&& shows_map(urls[at])
    &&& forall|earlier: int| 0 <= earlier < at ==> !shows_map(#[trigger] urls[earlier])
}

/// The position of the first tab that shows the map page, if there is one.
pub open spec fn first_map_tab(urls: Seq<Seq<char>>) -> Option<int> {
    if exists|at: int| is_first_map_tab(urls, at) {
        Some(choose|at: int| is_first_map_tab(urls, at))
    } else {
        None
    }
}

/// The reason that an event gives for a failure; empty where it gives none.
pub open spec fn detail(event: EventView) -> Seq<char> {
    match event {
        EventView::Missing(why) => why,
        EventView::Failed(why) => why,
        _ => Seq::<char>::empty(),
    }
}

/// An action on the element that `selector` names, waited for.
pub open spec fn awaited(selector: Seq<char>, operation: OperationView) -> ActionView {
    ActionView::Element { lookup: Lookup::Wait, selector, operation }
}

/// The selector of the input that holds a field.
pub open spec fn input_of(field: TencentMapRead) -> Seq<char> {
    match field {
        TencentMapRead::Name => TERMINAL_NAME_SELECT@,
        TencentMapRead::Location => TERMINAL_LOCATION_SELECT@,
        TencentMapRead::Address => TERMINAL_ADDRESS_SELECT@,
    }
}

/// The error of a field whose input cannot be read.
pub open spec fn unread(field: TencentMapRead) -> BrowserErrorView {
    match field {
        TencentMapRead::Location => BrowserErrorView::GetLocation,
        TencentMapRead::Address => BrowserErrorView::GetAddress,
        TencentMapRead::Name => BrowserErrorView::Get,
    }
}

/// The start of one try to find a tab: the tabs of the session's browser are
/// listed; where the session owns no browser, an executable is looked for
/// first, to start one.
pub open spec fn attempt(session: Session, goal: GoalView, retried: bool) -> StepView {
    if session.browser {
        StepView::Perform(
            ActionView::ListTabs,
            TaskView::Resolve { phase: Phase::Listing, retried, goal },
        )
    } else {
        StepView::Perform(
            ActionView::LocateBrowser,
            TaskView::Resolve { phase: Phase::Locating, retried, goal },
        )
    }
}

/// The first step of an operation on the page.
pub open spec fn begin_spec(session: Session, goal: GoalView) -> StepView {
    attempt(session, goal, false)
}

/// The step that follows once a tab shows the map page.
pub open spec fn first_step(goal: GoalView) -> StepView {
    match goal {
        GoalView::Search { query } => StepView::Perform(
            ActionView::Element {
                lookup: Lookup::Find,
                selector: MAP_SEARCH_BAR_CLEAR_BUTTON_SELECT@,
                operation: OperationView::Click,
            },
            TaskView::ClearSearch { query },
        ),
        GoalView::Read { field: TencentMapRead::Name } => StepView::Perform(
            awaited(TERMINAL_NAME_SELECT@, OperationView::GetInnerText),
            TaskView::ReadName,
        ),
        GoalView::Read { field } => StepView::Perform(
            awaited(input_of(field), OperationView::GetAttributeValue { name: VALUE_ATTRIBUTE@ }),
            TaskView::ReadValue { field },
        ),
        GoalView::Evaluate { script } => StepView::Perform(
            ActionView::Evaluate { script },
            TaskView::RunScript,
        ),
        GoalView::MapRegion => StepView::Perform(
            awaited(MAP_AREA_SELECT@, OperationView::GetInnerText),
            TaskView::ReadRegion,
        ),
    }
}

/// The operation ends with this error, and the session gives up its browser.
pub open spec fn lost(session: Session, error: BrowserErrorView) -> (Session, StepView) {
    (session.without_browser(), StepView::Finished(Err(error)))
}

/// The operation ends with this error.
pub open spec fn failed(session: Session, error: BrowserErrorView) -> (Session, StepView) {
    (session, StepView::Finished(Err(error)))
}

/// The operation ends with this reply.
pub open spec fn finished(session: Session, reply: ReplyView) -> (Session, StepView) {
    (session, StepView::Finished(Ok(reply)))
}

/// What follows from an event while a tab is being found or made.
///
/// A browser is started at the executable that was found, and where none was
/// found it is left to find one itself: that is no failure. A browser that
/// starts is owned from then on. Of the tabs listed, the first
/// that shows the map page is taken as it is. Where none does, a tab is
/// opened, sent to the map page and waited for. Any failure gives up the
/// browser, so that the next operation starts a new one. Only a tab that
/// cannot be opened is tried again, once and from the start; every other
/// failure, and that one the second time, ends the operation.
pub open spec fn resolve_next(
    session: Session,
    phase: Phase,
    retried: bool,
    goal: GoalView,
    event: EventView,
) -> (Session, StepView) {
    match phase {
        Phase::Locating => (
            session.without_browser(),
            StepView::Perform(
                launch_spec(
                    session.options,
                    match event {
                        EventView::Executable(path) => path,
                        _ => None,
                    },
                ),
                TaskView::Resolve { phase: Phase::Launching, retried, goal },
            ),
        ),
        Phase::Launching => match event {
            EventView::Done => (
                session.with_browser(),
                StepView::Perform(
                    ActionView::ListTabs,
                    TaskView::Resolve { phase: Phase::Listing, retried, goal },
                ),
            ),
            _ => lost(session, BrowserErrorView::Launch(detail(event))),
        },
        Phase::Listing => match event {
            EventView::Tabs(urls) => match first_map_tab(urls) {
                Some(at) => (
                    session,
                    StepView::Perform(
                        ActionView::SelectTab { index: at as usize },
                        TaskView::Resolve { phase: Phase::Selecting, retried, goal },
                    ),
                ),
                None => (
                    session,
                    StepView::Perform(
                        ActionView::NewTab,
                        TaskView::Resolve { phase: Phase::Creating, retried, goal },
                    ),
                ),
            },
            _ => lost(session, BrowserErrorView::GetTab),
        },
        Phase::Selecting => match event {
            EventView::Done => (session, first_step(goal)),
            _ => lost(session, BrowserErrorView::GetTab),
        },
        Phase::Creating => match event {
            EventView::Done => (
                session,
                StepView::Perform(
                    ActionView::NavigateTo { url: URL@, timeout: timeout_spec(session.options) },
                    TaskView::Resolve { phase: Phase::Navigating, retried, goal },
                ),
            ),
            _ => if retried {
                lost(session, BrowserErrorView::Browser(detail(event)))
            } else {
                (session.without_browser(), attempt(session.without_browser(), goal, true))
            },
        },
        Phase::Navigating => match event {
            EventView::Done => (
                session,
                StepView::Perform(
                    ActionView::WaitUntilNavigated,
                    TaskView::Resolve { phase: Phase::Loading, retried, goal },
                ),
            ),
            _ => lost(session, BrowserErrorView::OpenMap(detail(event))),
        },
        Phase::Loading => match event {
            EventView::Done => (session, first_step(goal)),
            _ => lost(session, BrowserErrorView::WaitMapLoad(detail(event))),
        },
    }
}

/// What follows from an event: the session after it, and the next step.
///
/// An event that does not answer the action under way counts as that action's
/// failure, with the reason it carries, if any.
pub open spec fn next(session: Session, task: TaskView, event: EventView) -> (Session, StepView) {
    match task {
        TaskView::Resolve { phase, retried, goal } => resolve_next(
            session,
            phase,
            retried,
            goal,
            event,
        ),
        // The button that clears the search input is only there after a
        // search: that it is missing is no failure.
        TaskView::ClearSearch { query } => match event {
            EventView::Done | EventView::Missing(_) => (
                session,
                StepView::Perform(
                    awaited(MAP_SEARCH_BAR_SELECT@, OperationView::Click),
                    TaskView::FocusSearch { query },
                ),
            ),
            _ => failed(session, BrowserErrorView::Browser(detail(event))),
        },
        TaskView::FocusSearch { query } => match event {
            EventView::Done => (
                session,
                StepView::Perform(ActionView::SendCharacter { text: query }, TaskView::TypeQuery),
            ),
            EventView::Missing(why) => failed(session, BrowserErrorView::WaitSearchBar(why)),
            _ => failed(session, BrowserErrorView::ClickSearchBar(detail(event))),
        },
        TaskView::TypeQuery => match event {
            EventView::Done => (
                session,
                StepView::Perform(ActionView::PressKey { key: SUBMIT_KEY@ }, TaskView::SubmitSearch),
            ),
            _ => failed(session, BrowserErrorView::InputSearchContent(detail(event))),
        },
        TaskView::SubmitSearch => match event {
            EventView::Done => (
                session,
                StepView::Perform(
                    awaited(
                        MAP_AREA_SELECT@,
                        OperationView::CallJsFn { declaration: HIDE_SEARCH_DROPDOWN@ },
                    ),
                    TaskView::HideDropdown,
                ),
            ),
            _ => failed(session, BrowserErrorView::Search(detail(event))),
        },
        TaskView::HideDropdown => match event {
            EventView::Done => finished(session, ReplyView::Done),
            _ => failed(session, BrowserErrorView::Browser(detail(event))),
        },
        TaskView::ReadName => match event {
            EventView::Text(text) => finished(
                session,
                ReplyView::Field(present_spec(text, NO_POINT_NAME@)),
            ),
            _ => failed(session, BrowserErrorView::GetName(detail(event))),
        },
        TaskView::ReadValue { field } => match event {
            EventView::Attribute(Some(value)) => finished(
                session,
                ReplyView::Field(present_spec(value, NO_VALUE@)),
            ),
            EventView::Attribute(None) => finished(session, ReplyView::Field(None)),
            _ => failed(session, unread(field)),
        },
        TaskView::RunScript => match event {
            EventView::Done => finished(session, ReplyView::Done),
            _ => failed(session, BrowserErrorView::Browser(detail(event))),
        },
        TaskView::ReadRegion => match event {
            EventView::Text(text) => finished(session, ReplyView::Region(trim_spec(text))),
            EventView::Missing(why) => failed(session, BrowserErrorView::WaitCurrentMapArea(why)),
            _ => failed(session, BrowserErrorView::GetCurrentMapArea(detail(event))),
        },
        // The process is ended as well as can be: a browser without a known
        // process id, or a process that cannot be ended, fails nothing.
        TaskView::FindProcess => match event {
            EventView::ProcessId(Some(pid)) => (
                session,
                StepView::Perform(ActionView::KillProcess { pid }, TaskView::EndProcess),
            ),
            _ => finished(session, ReplyView::Done),
        },
        TaskView::EndProcess => finished(session, ReplyView::Done),
    }
}

/// The selection of a region by its full name. A name that the table does
/// not hold ends the operation at once, before anything is asked of the
/// browser; else the script that selects the region's short name is run.
pub open spec fn set_region_spec(session: Session, regions: Seq<Region>, full_name: Seq<char>)
    -> StepView {
    match lookup_spec(regions, full_name) {
        Some(region) => begin_spec(
            session,
            GoalView::Evaluate { script: region_script_spec(region.name@) },
        ),
        None => StepView::Finished(Err(BrowserErrorView::GetArea)),
    }
}

/// The end of a session's browser. The browser is given up at once; where the
/// session owned one, its process id is asked for, to end the process by
/// force. A session without a browser has nothing to do.
pub open spec fn exit_spec(session: Session) -> (Session, StepView) {
    if session.browser {
        (
            session.without_browser(),
            StepView::Perform(ActionView::GetProcessId, TaskView::FindProcess),
        )
    } else {
        finished(session, ReplyView::Done)
    }
}

} // verus!
