//! The session controller: one browser, one tab on the map page, and the
//! operations on that page.

use crate::utils::model::{
    attempt, awaited, begin_spec, detail, exit_spec, first_map_tab, first_step, is_first_map_tab,
    launch_spec, next, resolve_next, set_region_spec, shows_map, Session,
    DEFAULT_TAB_TIMEOUT_SECS, IDLE_BROWSER_TIMEOUT_SECS,
};
use crate::utils::page::{
    present, region_script, text_of, HIDE_SEARCH_DROPDOWN, MAP_AREA_SELECT,
    MAP_SEARCH_BAR_CLEAR_BUTTON_SELECT, MAP_SEARCH_BAR_SELECT, NO_POINT_NAME, NO_VALUE, SUBMIT_KEY,
    TERMINAL_ADDRESS_SELECT, TERMINAL_LOCATION_SELECT, TERMINAL_NAME_SELECT, URL, VALUE_ATTRIBUTE,
};
use crate::utils::protocol::{
    Action, Event, Goal, GoalView, Lookup, Operation, Phase, Reply, Step, StepView, TabTimeout,
    Task,
};
use crate::utils::regions::Region;
use crate::utils::text::{contains, trim, views};
use std::time::Duration;
use vstd::prelude::*;

verus! {

/// What can go wrong in an operation. Where the browser gave a reason, the
/// error carries it as text.
#[derive(Debug, Clone, PartialEq, Eq)]
pub enum BrowserError {
    /// The open tabs could not be listed.
    GetTab,
    OpenMap(String),
    WaitMapLoad(String),
    WaitSearchBar(String),
    ClickSearchBar(String),
    InputSearchContent(String),
    Search(String),
    GetName(String),
    GetLocation,
    GetAddress,
    Get,
    /// The region table holds no region of that name.
    GetArea,
    WaitCurrentMapArea(String),
    GetCurrentMapArea(String),
    OpenProcess,
    TerminateProcess,
    CloseHandle,
    /// The browser could not be started.
    Launch(String),
    /// A failure that the browser reported, passed on as it came.
    Browser(String),
}

pub enum BrowserErrorView {
    GetTab,
    OpenMap(Seq<char>),
    WaitMapLoad(Seq<char>),
    WaitSearchBar(Seq<char>),
    ClickSearchBar(Seq<char>),
    InputSearchContent(Seq<char>),
    Search(Seq<char>),
    GetName(Seq<char>),
    GetLocation,
    GetAddress,
    Get,
    GetArea,
    WaitCurrentMapArea(Seq<char>),
    GetCurrentMapArea(Seq<char>),
    OpenProcess,
    TerminateProcess,
    CloseHandle,
    Launch(Seq<char>),
    Browser(Seq<char>),
}

impl View for BrowserError {
    type V = BrowserErrorView;

    open spec fn view(&self) -> BrowserErrorView {
        match *self {
            BrowserError::GetTab => BrowserErrorView::GetTab,
            BrowserError::OpenMap(why) => BrowserErrorView::OpenMap(why@),
            BrowserError::WaitMapLoad(why) => BrowserErrorView::WaitMapLoad(why@),
            BrowserError::WaitSearchBar(why) => BrowserErrorView::WaitSearchBar(why@),
            BrowserError::ClickSearchBar(why) => BrowserErrorView::ClickSearchBar(why@),
            BrowserError::InputSearchContent(why) => BrowserErrorView::InputSearchContent(why@),
            BrowserError::Search(why) => BrowserErrorView::Search(why@),
            BrowserError::GetName(why) => BrowserErrorView::GetName(why@),
            BrowserError::GetLocation => BrowserErrorView::GetLocation,
            BrowserError::GetAddress => BrowserErrorView::GetAddress,
            BrowserError::Get => BrowserErrorView::Get,
            BrowserError::GetArea => BrowserErrorView::GetArea,
            BrowserError::WaitCurrentMapArea(why) => BrowserErrorView::WaitCurrentMapArea(why@),
            BrowserError::GetCurrentMapArea(why) => BrowserErrorView::GetCurrentMapArea(why@),
            BrowserError::OpenProcess => BrowserErrorView::OpenProcess,
            BrowserError::TerminateProcess => BrowserErrorView::TerminateProcess,
            BrowserError::CloseHandle => BrowserErrorView::CloseHandle,
            BrowserError::Launch(why) => BrowserErrorView::Launch(why@),
            BrowserError::Browser(why) => BrowserErrorView::Browser(why@),
        }
    }
}

pub const GET_TAB_TEXT: &'static str = "获取标签失败";

pub const OPEN_MAP_TEXT: &'static str = "打开腾讯地图失败: ";

pub const WAIT_MAP_LOAD_TEXT: &'static str = "等待腾讯地图加载失败: ";

pub const WAIT_SEARCH_BAR_TEXT: &'static str = "等待搜索框失败: ";

pub const CLICK_SEARCH_BAR_TEXT: &'static str = "点击搜索框失败: ";

pub const INPUT_SEARCH_CONTENT_TEXT: &'static str = "输入搜索内容失败: ";

pub const SEARCH_TEXT: &'static str = "搜索失败: ";

pub const GET_NAME_TEXT: &'static str = "获取名称失败: ";

pub const GET_LOCATION_TEXT: &'static str = "获取坐标失败";

pub const GET_ADDRESS_TEXT: &'static str = "获取地址失败";

pub const GET_TEXT: &'static str = "获取失败";

pub const GET_AREA_TEXT: &'static str = "获取地区失败";

pub const WAIT_CURRENT_MAP_AREA_TEXT: &'static str = "等待当前地图区域失败: ";

pub const GET_CURRENT_MAP_AREA_TEXT: &'static str = "获取当前地图区域失败: ";

pub const OPEN_PROCESS_TEXT: &'static str = "无法打开进程";

pub const TERMINATE_PROCESS_TEXT: &'static str = "进程终止失败";

pub const CLOSE_HANDLE_TEXT: &'static str = "无法关闭句柄";

impl BrowserErrorView {
    /// The text that names the kind of the error. Where the error carries a
    /// reason, the text ends in a colon and a space, and the reason follows it.
    pub open spec fn heading(self) -> Seq<char> {
        match self {
            BrowserErrorView::GetTab => GET_TAB_TEXT@,
            BrowserErrorView::OpenMap(_) => OPEN_MAP_TEXT@,
            BrowserErrorView::WaitMapLoad(_) => WAIT_MAP_LOAD_TEXT@,
            BrowserErrorView::WaitSearchBar(_) => WAIT_SEARCH_BAR_TEXT@,
            BrowserErrorView::ClickSearchBar(_) => CLICK_SEARCH_BAR_TEXT@,
            BrowserErrorView::InputSearchContent(_) => INPUT_SEARCH_CONTENT_TEXT@,
            BrowserErrorView::Search(_) => SEARCH_TEXT@,
            BrowserErrorView::GetName(_) => GET_NAME_TEXT@,
            BrowserErrorView::GetLocation => GET_LOCATION_TEXT@,
            BrowserErrorView::GetAddress => GET_ADDRESS_TEXT@,
            BrowserErrorView::Get => GET_TEXT@,
            BrowserErrorView::GetArea => GET_AREA_TEXT@,
            BrowserErrorView::WaitCurrentMapArea(_) => WAIT_CURRENT_MAP_AREA_TEXT@,
            BrowserErrorView::GetCurrentMapArea(_) => GET_CURRENT_MAP_AREA_TEXT@,
            BrowserErrorView::OpenProcess => OPEN_PROCESS_TEXT@,
            BrowserErrorView::TerminateProcess => TERMINATE_PROCESS_TEXT@,
            BrowserErrorView::CloseHandle => CLOSE_HANDLE_TEXT@,
            BrowserErrorView::Launch(_) => Seq::<char>::empty(),
            BrowserErrorView::Browser(_) => Seq::<char>::empty(),
        }
    }

    /// The reason that the error carries; empty where it carries none.
    pub open spec fn reason(self) -> Seq<char> {
        match self {
            BrowserErrorView::OpenMap(why)
            | BrowserErrorView::WaitMapLoad(why)
            | BrowserErrorView::WaitSearchBar(why)
            | BrowserErrorView::ClickSearchBar(why)
            | BrowserErrorView::InputSearchContent(why)
            | BrowserErrorView::Search(why)
            | BrowserErrorView::GetName(why)
            | BrowserErrorView::WaitCurrentMapArea(why)
            | BrowserErrorView::GetCurrentMapArea(why)
            | BrowserErrorView::Launch(why)
            | BrowserErrorView::Browser(why) => why,
            _ => Seq::<char>::empty(),
        }
    }

    /// The text that describes the error: its heading, then its reason.
    pub open spec fn message(self) -> Seq<char> {
        self.heading() + self.reason()
    }
}

/// `heading` followed by `reason`.
fn headed(heading: &str, reason: &String) -> (text: String)
    ensures
        text@ == heading@ + reason@,
{
    let mut text = heading.to_owned();
    text.append(reason.as_str());
    text
}

impl BrowserError {
    /// The text that describes the error.
    pub fn message(&self) -> (text: String)
        ensures
            text@ == self@.message(),
    {
        let text = match self {
            BrowserError::GetTab => GET_TAB_TEXT.to_owned(),
            BrowserError::OpenMap(why) => headed(OPEN_MAP_TEXT, why),
            BrowserError::WaitMapLoad(why) => headed(WAIT_MAP_LOAD_TEXT, why),
            BrowserError::WaitSearchBar(why) => headed(WAIT_SEARCH_BAR_TEXT, why),
            BrowserError::ClickSearchBar(why) => headed(CLICK_SEARCH_BAR_TEXT, why),
            BrowserError::InputSearchContent(why) => headed(INPUT_SEARCH_CONTENT_TEXT, why),
            BrowserError::Search(why) => headed(SEARCH_TEXT, why),
            BrowserError::GetName(why) => headed(GET_NAME_TEXT, why),
            BrowserError::GetLocation => GET_LOCATION_TEXT.to_owned(),
            BrowserError::GetAddress => GET_ADDRESS_TEXT.to_owned(),
            BrowserError::Get => GET_TEXT.to_owned(),
            BrowserError::GetArea => GET_AREA_TEXT.to_owned(),
            BrowserError::WaitCurrentMapArea(why) => headed(WAIT_CURRENT_MAP_AREA_TEXT, why),
            BrowserError::GetCurrentMapArea(why) => headed(GET_CURRENT_MAP_AREA_TEXT, why),
            BrowserError::OpenProcess => OPEN_PROCESS_TEXT.to_owned(),
            BrowserError::TerminateProcess => TERMINATE_PROCESS_TEXT.to_owned(),
            BrowserError::CloseHandle => CLOSE_HANDLE_TEXT.to_owned(),
            BrowserError::Launch(why) => why.clone(),
            BrowserError::Browser(why) => why.clone(),
        };
        assert(text@ =~= self@.message());
        text
    }
}

/// The field of the chosen point that `read` reads.
#[derive(Debug, Clone, Copy, PartialEq, Eq)]
pub enum TencentMapRead {
    Name,
    Location,
    Address,
}

/// The settings of a session. They are read whenever a browser is started
/// and whenever a tab is sent to the map page.
#[derive(Debug, Clone, Copy, PartialEq, Eq)]
pub struct TencentMapOptions {
    /// How long a tab waits for an element or a page; 60 seconds if `None`.
    pub tab_timeout: Option<Duration>,
    /// Whether the browser opens its developer tools; not if `None`.
    pub devtools: Option<bool>,
}

impl Default for TencentMapOptions {
    fn default() -> (options: Self)
        ensures
            options.tab_timeout is None,
            options.devtools is None,
    {
        Self { tab_timeout: None, devtools: None }
    }
}

/// The controller of one session: it owns at most one browser, and finds the
/// tab that shows the map page anew for each operation.
///
/// An operation is begun by the method of its name, which hands back the
/// first step. The caller performs the action of a step and hands the event
/// to `advance`, until a step is `Finished`.
#[derive(Debug)]
pub struct TencentMap {
    browser: bool,
    options: TencentMapOptions,
}

impl View for TencentMap {
    type V = Session;

    closed spec fn view(&self) -> Session {
        Session { browser: self.browser, options: self.options }
    }
}

impl Default for TencentMap {
    /// A session with the default settings that owns no browser yet.
    fn default() -> (session: Self)
        ensures
            session@ == (Session {
                browser: false,
                options: TencentMapOptions { tab_timeout: None, devtools: None },
            }),
    {
        Self { browser: false, options: TencentMapOptions { tab_timeout: None, devtools: None } }
    }
}

/// The reason that an event gives for a failure.
fn reason_of(event: Event) -> (why: String)
    ensures
        why@ == detail(event@),
{
    match event {
        Event::Missing(why) => why,
        Event::Failed(why) => why,
        _ => String::new(),
    }
}

/// An action on the element that `selector` names, waited for.
fn wait_for_element(selector: &str, operation: Operation) -> (action: Action)
    ensures
        action@ == awaited(selector@, operation@),
{
    Action::Element { lookup: Lookup::Wait, selector: selector.to_owned(), operation }
}

/// The position of the first tab that shows the map page.
fn find_map_tab(urls: &Vec<String>) -> (found: Option<usize>)
    ensures
        match found {
            Some(at) => first_map_tab(views(urls@)) == Some(at as int),
            None => first_map_tab(views(urls@)) is None,
        },
{
    let mut at: usize = 0;
    while at < urls.len()
        invariant
            at <= urls.len(),
            forall|earlier: int| 0 <= earlier < at ==> !shows_map(#[trigger] views(urls@)[earlier]),
        decreases urls.len() - at,
    {
        if contains(urls[at].as_str(), URL) {
            assert(views(urls@)[at as int] == urls@[at as int]@);
            assert(is_first_map_tab(views(urls@), at as int));
            let ghost chosen = choose|k: int| is_first_map_tab(views(urls@), k);
            assert(chosen == at);
            return Some(at);
        }
        assert(views(urls@)[at as int] == urls@[at as int]@);
        at += 1;
    }
    None
}

/// The step that follows once a tab shows the map page.
fn first_step_of(goal: Goal) -> (step: Step)
    ensures
        step@ == first_step(goal@),
{
    match goal {
        Goal::Search { query } => Step::Perform(
            Action::Element {
                lookup: Lookup::Find,
                selector: MAP_SEARCH_BAR_CLEAR_BUTTON_SELECT.to_owned(),
                operation: Operation::Click,
            },
            Task::ClearSearch { query },
        ),
        Goal::Read { field } => match field {
            TencentMapRead::Name => Step::Perform(
                wait_for_element(TERMINAL_NAME_SELECT, Operation::GetInnerText),
                Task::ReadName,
            ),
            TencentMapRead::Location => Step::Perform(
                wait_for_element(
                    TERMINAL_LOCATION_SELECT,
                    Operation::GetAttributeValue { name: VALUE_ATTRIBUTE.to_owned() },
                ),
                Task::ReadValue { field },
            ),
            TencentMapRead::Address => Step::Perform(
                wait_for_element(
                    TERMINAL_ADDRESS_SELECT,
                    Operation::GetAttributeValue { name: VALUE_ATTRIBUTE.to_owned() },
                ),
                Task::ReadValue { field },
            ),
        },
        Goal::Evaluate { script } => Step::Perform(Action::Evaluate { script }, Task::RunScript),
        Goal::MapRegion => Step::Perform(
            wait_for_element(MAP_AREA_SELECT, Operation::GetInnerText),
            Task::ReadRegion,
        ),
    }
}

impl TencentMap {
    /// A session with these settings that owns no browser yet.
    pub fn new(options: TencentMapOptions) -> (session: Self)
        ensures
            session@ == (Session { browser: false, options }),
    {
        Self { browser: false, options }
    }

    /// Whether the session owns a browser.
    pub fn has_browser(&self) -> (owned: bool)
        ensures
            owned == self@.browser,
    {
        self.browser
    }

    /// The settings of the session.
    pub fn options(&self) -> (options: TencentMapOptions)
        ensures
            options == self@.options,
    {
        self.options
    }

    /// The launch of a browser at the executable at `path`, if there is one.
    fn get_browser(&self, path: Option<String>) -> (launch: Action)
        ensures
            launch@ == launch_spec(self@.options, text_of(path)),
    {
        Action::LaunchBrowser {
            headless: false,
            enable_gpu: true,
            devtools: match self.options.devtools {
                Some(devtools) => devtools,
                None => false,
            },
            path,
            idle_browser_timeout_secs: IDLE_BROWSER_TIMEOUT_SECS,
        }
    }

    fn set_browser_none(&mut self)
        ensures
            final(self)@ == old(self)@.without_browser(),
    {
        self.browser = false;
    }

    /// The start of one try to find a tab.
    fn attempt_tab(&self, goal: Goal, retried: bool) -> (step: Step)
        ensures
            step@ == attempt(self@, goal@, retried),
    {
        if self.browser {
            Step::Perform(Action::ListTabs, Task::Resolve { phase: Phase::Listing, retried, goal })
        } else {
            Step::Perform(
                Action::LocateBrowser,
                Task::Resolve { phase: Phase::Locating, retried, goal },
            )
        }
    }

    /// The operation ends with this error, and the browser is given up.
    fn lose_browser(&mut self, error: BrowserError) -> (step: Step)
        ensures
            final(self)@ == old(self)@.without_browser(),
            step@ == StepView::Finished(Err(error@)),
    {
        self.set_browser_none();
        Step::Finished(Err(error))
    }

    /// What follows from an event while a tab is being found or made.
    fn get_tab(&mut self, phase: Phase, retried: bool, goal: Goal, event: Event) -> (step: Step)
        ensures
            (final(self)@, step@) == resolve_next(old(self)@, phase, retried, goal@, event@),
    {
        match phase {
            Phase::Locating => {
                let path = match event {
                    Event::Executable(path) => path,
                    _ => None,
                };
                self.set_browser_none();
                Step::Perform(
                    self.get_browser(path),
                    Task::Resolve { phase: Phase::Launching, retried, goal },
                )
            },
            Phase::Launching => match event {
                Event::Done => {
                    self.browser = true;
                    Step::Perform(
                        Action::ListTabs,
                        Task::Resolve { phase: Phase::Listing, retried, goal },
                    )
                },
                _ => {
                    let why = reason_of(event);
                    self.lose_browser(BrowserError::Launch(why))
                },
            },
            Phase::Listing => match event {
                Event::Tabs(urls) => match find_map_tab(&urls) {
                    Some(index) => Step::Perform(
                        Action::SelectTab { index },
                        Task::Resolve { phase: Phase::Selecting, retried, goal },
                    ),
                    None => Step::Perform(
                        Action::NewTab,
                        Task::Resolve { phase: Phase::Creating, retried, goal },
                    ),
                },
                _ => self.lose_browser(BrowserError::GetTab),
            },
            Phase::Selecting => match event {
                Event::Done => first_step_of(goal),
                _ => self.lose_browser(BrowserError::GetTab),
            },
            Phase::Creating => match event {
                Event::Done => Step::Perform(
                    Action::NavigateTo {
                        url: URL.to_owned(),
                        timeout: match self.options.tab_timeout {
                            Some(given) => TabTimeout::Given(given),
                            None => TabTimeout::Seconds(DEFAULT_TAB_TIMEOUT_SECS),
                        },
                    },
                    Task::Resolve { phase: Phase::Navigating, retried, goal },
                ),
                _ => if retried {
                    let why = reason_of(event);
                    self.lose_browser(BrowserError::Browser(why))
                } else {
                    self.set_browser_none();
                    self.attempt_tab(goal, true)
                },
            },
            Phase::Navigating => match event {
                Event::Done => Step::Perform(
                    Action::WaitUntilNavigated,
                    Task::Resolve { phase: Phase::Loading, retried, goal },
                ),
                _ => {
                    let why = reason_of(event);
                    self.lose_browser(BrowserError::OpenMap(why))
                },
            },
            Phase::Loading => match event {
                Event::Done => first_step_of(goal),
                _ => {
                    let why = reason_of(event);
                    self.lose_browser(BrowserError::WaitMapLoad(why))
                },
            },
        }
    }

    /// What follows from the event of the action that was under way: the
    /// next action, or the operation's result.
    pub fn advance(&mut self, task: Task, event: Event) -> (step: Step)
        ensures
            (final(self)@, step@) == next(old(self)@, task@, event@),
    {
        match task {
            Task::Resolve { phase, retried, goal } => self.get_tab(phase, retried, goal, event),
            Task::ClearSearch { query } => match event {
                Event::Done | Event::Missing(_) => Step::Perform(
                    wait_for_element(MAP_SEARCH_BAR_SELECT, Operation::Click),
                    Task::FocusSearch { query },
                ),
                _ => Step::Finished(Err(BrowserError::Browser(reason_of(event)))),
            },
            Task::FocusSearch { query } => match event {
                Event::Done => Step::Perform(Action::SendCharacter { text: query }, Task::TypeQuery),
                Event::Missing(why) => Step::Finished(Err(BrowserError::WaitSearchBar(why))),
                _ => Step::Finished(Err(BrowserError::ClickSearchBar(reason_of(event)))),
            },
            Task::TypeQuery => match event {
                Event::Done => Step::Perform(
                    Action::PressKey { key: SUBMIT_KEY.to_owned() },
                    Task::SubmitSearch,
                ),
                _ => Step::Finished(Err(BrowserError::InputSearchContent(reason_of(event)))),
            },
            Task::SubmitSearch => match event {
                Event::Done => Step::Perform(
                    wait_for_element(
                        MAP_AREA_SELECT,
                        Operation::CallJsFn { declaration: HIDE_SEARCH_DROPDOWN.to_owned() },
                    ),
                    Task::HideDropdown,
                ),
                _ => Step::Finished(Err(BrowserError::Search(reason_of(event)))),
            },
            Task::HideDropdown => match event {
                Event::Done => Step::Finished(Ok(Reply::Done)),
                _ => Step::Finished(Err(BrowserError::Browser(reason_of(event)))),
            },
            Task::ReadName => match event {
                Event::Text(text) => Step::Finished(Ok(Reply::Field(present(text, NO_POINT_NAME)))),
                _ => Step::Finished(Err(BrowserError::GetName(reason_of(event)))),
            },
            Task::ReadValue { field } => match event {
                Event::Attribute(Some(value)) => Step::Finished(
                    Ok(Reply::Field(present(value, NO_VALUE))),
                ),
                Event::Attribute(None) => Step::Finished(Ok(Reply::Field(None))),
                _ => Step::Finished(
                    Err(
                        match field {
                            TencentMapRead::Location => BrowserError::GetLocation,
                            TencentMapRead::Address => BrowserError::GetAddress,
                            TencentMapRead::Name => BrowserError::Get,
                        },
                    ),
                ),
            },
            Task::RunScript => match event {
                Event::Done => Step::Finished(Ok(Reply::Done)),
                _ => Step::Finished(Err(BrowserError::Browser(reason_of(event)))),
            },
            Task::ReadRegion => match event {
                Event::Text(text) => Step::Finished(Ok(Reply::Region(trim(text.as_str())))),
                Event::Missing(why) => Step::Finished(Err(BrowserError::WaitCurrentMapArea(why))),
                _ => Step::Finished(Err(BrowserError::GetCurrentMapArea(reason_of(event)))),
            },
            Task::FindProcess => match event {
                Event::ProcessId(Some(pid)) => Step::Perform(
                    Action::KillProcess { pid },
                    Task::EndProcess,
                ),
                _ => Step::Finished(Ok(Reply::Done)),
            },
            Task::EndProcess => Step::Finished(Ok(Reply::Done)),
        }
    }

    /// Begins a search for `query`: the search input is cleared if it can
    /// be, clicked, the query is typed and submitted, and the list that drops
    /// down below the input is removed.
    pub fn search(&mut self, query: &str) -> (step: Step)
        ensures
            final(self)@ == old(self)@,
            step@ == begin_spec(old(self)@, GoalView::Search { query: query@ }),
    {
        self.attempt_tab(Goal::Search { query: query.to_owned() }, false)
    }

    /// Begins the reading of a field of the chosen point.
    pub fn read(&mut self, read: TencentMapRead) -> (step: Step)
        ensures
            final(self)@ == old(self)@,
            step@ == begin_spec(old(self)@, GoalView::Read { field: read }),
    {
        self.attempt_tab(Goal::Read { field: read }, false)
    }

    /// Begins the selection of the region that `region_full_name` names in
    /// `regions`. The page is not waited for: what the map shows afterwards
    /// is for `get_map_region` to tell.
    pub fn set_map_region_by_region_full_name(
        &mut self,
        regions: &Vec<Region>,
        region_full_name: &str,
    ) -> (step: Step)
        ensures
            final(self)@ == old(self)@,
            step@ == set_region_spec(old(self)@, regions@, region_full_name@),
    {
        match Region::get_map_region_by_region_full_name(regions, region_full_name) {
            Some(region) => {
                let script = region_script(region.name.as_str());
                self.attempt_tab(Goal::Evaluate { script }, false)
            },
            None => Step::Finished(Err(BrowserError::GetArea)),
        }
    }

    /// Begins the reading of the label of the region that the map shows.
    pub fn get_map_region(&mut self) -> (step: Step)
        ensures
            final(self)@ == old(self)@,
            step@ == begin_spec(old(self)@, GoalView::MapRegion),
    {
        self.attempt_tab(Goal::MapRegion, false)
    }

    /// Begins the end of the session's browser.
    pub fn exit(&mut self) -> (step: Step)
        ensures
            (final(self)@, step@) == exit_spec(old(self)@),
    {
        if self.browser {
            self.set_browser_none();
            Step::Perform(Action::GetProcessId, Task::FindProcess)
        } else {
            Step::Finished(Ok(Reply::Done))
        }
    }

    /// Begins the running of a script in the page. What the script returns
    /// is dropped.
    pub fn call_js(&mut self, js: &str) -> (step: Step)
        ensures
            final(self)@ == old(self)@,
            step@ == begin_spec(old(self)@, GoalView::Evaluate { script: js@ }),
    {
        self.attempt_tab(Goal::Evaluate { script: js.to_owned() }, false)
    }
}

} // verus!
