//! What passes between the session and the browser: the actions that the
//! session asks for, the events that answer them, and the task that the
//! session is at between the two.
//!
//! The session itself never touches a browser. It says which call is due
//! next; its caller makes the call and reports what came of it.

use crate::utils::browser::{BrowserError, BrowserErrorView, TencentMapRead};
use crate::utils::page::text_of;
use crate::utils::text::views;
use std::time::Duration;
use vstd::prelude::*;

verus! {

/// The time that a tab waits for an element or a page.
#[derive(Debug, Clone, Copy, PartialEq, Eq)]
pub enum TabTimeout {
    /// The time that the options give.
    Given(Duration),
    /// This many seconds.
    Seconds(u64),
}

/// How an element is looked for.
#[derive(Debug, Clone, Copy, PartialEq, Eq)]
pub enum Lookup {
    /// Once: an element that is not there now is missing.
    Find,
    /// Until the tab's timeout has passed.
    Wait,
}

/// What is done with an element once it is found.
#[derive(Debug, Clone, PartialEq, Eq)]
pub enum Operation {
    Click,
    GetInnerText,
    GetAttributeValue { name: String },
    /// Calls the function on the element, with no arguments and without
    /// awaiting a promise.
    CallJsFn { declaration: String },
}

pub enum OperationView {
    Click,
    GetInnerText,
    GetAttributeValue { name: Seq<char> },
    CallJsFn { declaration: Seq<char> },
}

impl View for Operation {
    type V = OperationView;

    open spec fn view(&self) -> OperationView {
        match *self {
            Operation::Click => OperationView::Click,
            Operation::GetInnerText => OperationView::GetInnerText,
            Operation::GetAttributeValue { name } => OperationView::GetAttributeValue {
                name: name@,
            },
            Operation::CallJsFn { declaration } => OperationView::CallJsFn {
                declaration: declaration@,
            },
        }
    }
}

/// One call that the session asks its caller to make.
#[derive(Debug, Clone, PartialEq, Eq)]
pub enum Action {
    /// Look for a browser executable on this machine and report its path.
    LocateBrowser,
    /// Start a browser with these settings, at the executable at `path`, or
    /// at the one that the browser's own search finds where `path` is `None`.
    /// The new browser takes the place of any that the caller still holds.
    LaunchBrowser {
        headless: bool,
        enable_gpu: bool,
        devtools: bool,
        path: Option<String>,
        idle_browser_timeout_secs: u64,
    },
    /// Report the addresses of the open tabs, in the browser's order.
    ListTabs,
    /// Go on with the tab at this position of the list last reported.
    SelectTab { index: usize },
    /// Open a tab and go on with it.
    NewTab,
    /// Set the tab's timeout, then send it to this address.
    NavigateTo { url: String, timeout: TabTimeout },
    /// Wait until the tab has arrived.
    WaitUntilNavigated,
    /// Look for the element that the selector names and do this with it.
    Element { lookup: Lookup, selector: String, operation: Operation },
    /// Type this text into the tab.
    SendCharacter { text: String },
    /// Press this key in the tab.
    PressKey { key: String },
    /// Run this script in the page, without awaiting a promise.
    Evaluate { script: String },
    /// Report the process id of the browser that the caller holds.
    GetProcessId,
    /// End this process by force.
    KillProcess { pid: u32 },
}

pub enum ActionView {
    LocateBrowser,
    LaunchBrowser {
        headless: bool,
        enable_gpu: bool,
        devtools: bool,
        path: Option<Seq<char>>,
        idle_browser_timeout_secs: u64,
    },
    ListTabs,
    SelectTab { index: usize },
    NewTab,
    NavigateTo { url: Seq<char>, timeout: TabTimeout },
    WaitUntilNavigated,
    Element { lookup: Lookup, selector: Seq<char>, operation: OperationView },
    SendCharacter { text: Seq<char> },
    PressKey { key: Seq<char> },
    Evaluate { script: Seq<char> },
    GetProcessId,
    KillProcess { pid: u32 },
}

impl View for Action {
    type V = ActionView;

    open spec fn view(&self) -> ActionView {
        match *self {
            Action::LocateBrowser => ActionView::LocateBrowser,
            Action::LaunchBrowser {
                headless,
                enable_gpu,
                devtools,
                path,
                idle_browser_timeout_secs,
            } => ActionView::LaunchBrowser {
                headless,
                enable_gpu,
                devtools,
                path: text_of(path),
                idle_browser_timeout_secs,
            },
            Action::ListTabs => ActionView::ListTabs,
            Action::SelectTab { index } => ActionView::SelectTab { index },
            Action::NewTab => ActionView::NewTab,
            Action::NavigateTo { url, timeout } => ActionView::NavigateTo { url: url@, timeout },
            Action::WaitUntilNavigated => ActionView::WaitUntilNavigated,
            Action::Element { lookup, selector, operation } => ActionView::Element {
                lookup,
                selector: selector@,
                operation: operation@,
            },
            Action::SendCharacter { text } => ActionView::SendCharacter { text: text@ },
            Action::PressKey { key } => ActionView::PressKey { key: key@ },
            Action::Evaluate { script } => ActionView::Evaluate { script: script@ },
            Action::GetProcessId => ActionView::GetProcessId,
            Action::KillProcess { pid } => ActionView::KillProcess { pid },
        }
    }
}

/// What came of an action.
#[derive(Debug, Clone, PartialEq, Eq)]
pub enum Event {
    /// The call succeeded and has nothing to report.
    Done,
    /// The element was not found; the text says why.
    Missing(String),
    /// The call failed; the text says why.
    Failed(String),
    /// The path of the browser executable, if one was found.
    Executable(Option<String>),
    /// The addresses of the open tabs.
    Tabs(Vec<String>),
    /// The inner text of the element.
    Text(String),
    /// The value of the attribute, if the element has it.
    Attribute(Option<String>),
    /// The process id of the browser, if it is known.
    ProcessId(Option<u32>),
}

pub enum EventView {
    Done,
    Missing(Seq<char>),
    Failed(Seq<char>),
    Executable(Option<Seq<char>>),
    Tabs(Seq<Seq<char>>),
    Text(Seq<char>),
    Attribute(Option<Seq<char>>),
    ProcessId(Option<u32>),
}

impl View for Event {
    type V = EventView;

    open spec fn view(&self) -> EventView {
        match *self {
            Event::Done => EventView::Done,
            Event::Missing(why) => EventView::Missing(why@),
            Event::Failed(why) => EventView::Failed(why@),
            Event::Executable(path) => EventView::Executable(text_of(path)),
            Event::Tabs(urls) => EventView::Tabs(views(urls@)),
            Event::Text(text) => EventView::Text(text@),
            Event::Attribute(value) => EventView::Attribute(text_of(value)),
            Event::ProcessId(pid) => EventView::ProcessId(pid),
        }
    }
}

/// What an operation hands back when it succeeds.
#[derive(Debug, Clone, PartialEq, Eq)]
pub enum Reply {
    /// Nothing: the operation is done.
    Done,
    /// A field of the chosen point, or `None` while the page shows none.
    Field(Option<String>),
    /// The label of the region that the map shows.
    Region(String),
}

pub enum ReplyView {
    Done,
    Field(Option<Seq<char>>),
    Region(Seq<char>),
}

impl View for Reply {
    type V = ReplyView;

    open spec fn view(&self) -> ReplyView {
        match *self {
            Reply::Done => ReplyView::Done,
            Reply::Field(value) => ReplyView::Field(text_of(value)),
            Reply::Region(label) => ReplyView::Region(label@),
        }
    }
}

/// What an operation is for, once a tab shows the map page.
#[derive(Debug, Clone, PartialEq, Eq)]
pub enum Goal {
    Search { query: String },
    Read { field: TencentMapRead },
    Evaluate { script: String },
    MapRegion,
}

pub enum GoalView {
    Search { query: Seq<char> },
    Read { field: TencentMapRead },
    Evaluate { script: Seq<char> },
    MapRegion,
}

impl View for Goal {
    type V = GoalView;

    open spec fn view(&self) -> GoalView {
        match *self {
            Goal::Search { query } => GoalView::Search { query: query@ },
            Goal::Read { field } => GoalView::Read { field },
            Goal::Evaluate { script } => GoalView::Evaluate { script: script@ },
            Goal::MapRegion => GoalView::MapRegion,
        }
    }
}

/// How far the search for a tab has come: the action that is under way.
#[derive(Debug, Clone, Copy, PartialEq, Eq)]
pub enum Phase {
    Locating,
    Launching,
    Listing,
    Selecting,
    Creating,
    Navigating,
    Loading,
}

/// Where an operation stands while an action is under way.
#[derive(Debug, Clone, PartialEq, Eq)]
pub enum Task {
    /// A tab is being found or made. `retried` says that a tab could not be
    /// made once already, and the browser was given up for it.
    Resolve { phase: Phase, retried: bool, goal: Goal },
    /// The search input is being cleared.
    ClearSearch { query: String },
    /// The search input is being clicked.
    FocusSearch { query: String },
    /// The query is being typed.
    TypeQuery,
    /// The search is being submitted.
    SubmitSearch,
    /// The list below the search input is being removed.
    HideDropdown,
    /// The name of the chosen point is being read.
    ReadName,
    /// An input of the chosen point is being read.
    ReadValue { field: TencentMapRead },
    /// A script is being run.
    RunScript,
    /// The label of the map's region is being read.
    ReadRegion,
    /// The browser's process id is being asked for.
    FindProcess,
    /// The browser's process is being ended.
    EndProcess,
}

pub enum TaskView {
    Resolve { phase: Phase, retried: bool, goal: GoalView },
    ClearSearch { query: Seq<char> },
    FocusSearch { query: Seq<char> },
    TypeQuery,
    SubmitSearch,
    HideDropdown,
    ReadName,
    ReadValue { field: TencentMapRead },
    RunScript,
    ReadRegion,
    FindProcess,
    EndProcess,
}

impl View for Task {
    type V = TaskView;

    open spec fn view(&self) -> TaskView {
        match *self {
            Task::Resolve { phase, retried, goal } => TaskView::Resolve {
                phase,
                retried,
                goal: goal@,
            },
            Task::ClearSearch { query } => TaskView::ClearSearch { query: query@ },
            Task::FocusSearch { query } => TaskView::FocusSearch { query: query@ },
            Task::TypeQuery => TaskView::TypeQuery,
            Task::SubmitSearch => TaskView::SubmitSearch,
            Task::HideDropdown => TaskView::HideDropdown,
            Task::ReadName => TaskView::ReadName,
            Task::ReadValue { field } => TaskView::ReadValue { field },
            Task::RunScript => TaskView::RunScript,
            Task::ReadRegion => TaskView::ReadRegion,
            Task::FindProcess => TaskView::FindProcess,
            Task::EndProcess => TaskView::EndProcess,
        }
    }
}

/// What the caller does next: make a call and come back with its event, or
/// take the operation's result.
#[derive(Debug, PartialEq, Eq)]
pub enum Step {
    Perform(Action, Task),
    Finished(Result<Reply, BrowserError>),
}

pub enum StepView {
    Perform(ActionView, TaskView),
    Finished(Result<ReplyView, BrowserErrorView>),
}

impl View for Step {
    type V = StepView;

    open spec fn view(&self) -> StepView {
        match *self {
            Step::Perform(action, task) => StepView::Perform(action@, task@),
            Step::Finished(Ok(reply)) => StepView::Finished(Ok(reply@)),
            Step::Finished(Err(error)) => StepView::Finished(Err(error@)),
        }
    }
}

} // verus!
