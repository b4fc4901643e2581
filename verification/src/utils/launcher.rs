//! The search for a browser executable: which paths are tried for which
//! candidate, and in which order. What is made of the answers of the file
//! system is in `locator`.
//!
//! A path is given by its parts and never put together here: how a directory
//! and a name make a path is for the platform to say.

use crate::utils::page::text_of;
use crate::utils::text::{same_text, split, split_spec, views};
use vstd::prelude::*;

verus! {

pub const OS_MACOS: &'static str = "macos";

pub const OS_LINUX: &'static str = "linux";

pub const OS_OPENBSD: &'static str = "openbsd";

pub const OS_WINDOWS: &'static str = "windows";

pub const MAC_CHROME: &'static str = "/Applications/Google Chrome.app/Contents/MacOS/Google Chrome";

pub const MAC_CHROMIUM: &'static str = "/Applications/Chromium.app/Contents/MacOS/Chromium";

pub const MAC_EDGE: &'static str = "/Applications/Microsoft Edge.app/Contents/MacOS/Microsoft Edge";

pub const MAC_CHROME_CANARY: &'static str =
    "/Applications/Google Chrome Canary.app/Contents/MacOS/Google Chrome Canary";

pub const CHROME: &'static str = "chrome";

pub const GOOGLE_CHROME: &'static str = "google-chrome";

pub const MICROSOFT_EDGE: &'static str = "microsoft-edge";

pub const CHROMIUM: &'static str = "chromium";

pub const CHROMIUM_BROWSER: &'static str = "chromium-browser";

pub const EDGE: &'static str = "edge";

pub const USR_BIN_GOOGLE_CHROME_STABLE: &'static str = "/usr/bin/google-chrome-stable";

pub const USR_BIN_GOOGLE_CHROME: &'static str = "/usr/bin/google-chrome";

pub const USR_BIN_MICROSOFT_EDGE: &'static str = "/usr/bin/microsoft-edge";

pub const USR_BIN_CHROMIUM: &'static str = "/usr/bin/chromium";

pub const USR_BIN_CHROMIUM_BROWSER: &'static str = "/usr/bin/chromium-browser";

pub const SNAP_CHROMIUM: &'static str = "/snap/bin/chromium";

pub const TERMUX_CHROMIUM_BROWSER: &'static str =
    "/data/data/com.termux/files/usr/bin/chromium-browser";

pub const WINDOWS_CHROME_EXE: &'static str = "Google\\Chrome\\Application\\chrome.exe";

pub const WINDOWS_CHROMIUM_EXE: &'static str = "Chromium\\Application\\chrome.exe";

pub const WINDOWS_EDGE_EXE: &'static str = "Microsoft\\Edge\\Application\\msedge.exe";

pub const EXTENSION_EXE: &'static str = "exe";

pub const EXTENSION_COM: &'static str = "com";

pub const EXTENSION_BAT: &'static str = "bat";

pub const EXTENSION_CMD: &'static str = "cmd";

/// What stands between a name and its extension.
pub const EXTENSION_DOT: &'static str = ".";

/// The platforms that the search knows.
#[derive(Debug, Clone, Copy, PartialEq, Eq)]
pub enum Platform {
    MacOs,
    Linux,
    OpenBsd,
    Windows,
    /// Any other: nothing is looked for.
    Other,
}

/// The platform that an operating system's name stands for.
pub open spec fn platform_spec(os: Seq<char>) -> Platform {
    if os == OS_MACOS@ {
        Platform::MacOs
    } else if os == OS_LINUX@ {
        Platform::Linux
    } else if os == OS_OPENBSD@ {
        Platform::OpenBsd
    } else if os == OS_WINDOWS@ {
        Platform::Windows
    } else {
        Platform::Other
    }
}

/// The platform that an operating system's name stands for.
pub fn platform_of(os: &str) -> (platform: Platform)
    ensures
        platform == platform_spec(os@),
{
    if same_text(os, OS_MACOS) {
        Platform::MacOs
    } else if same_text(os, OS_LINUX) {
        Platform::Linux
    } else if same_text(os, OS_OPENBSD) {
        Platform::OpenBsd
    } else if same_text(os, OS_WINDOWS) {
        Platform::Windows
    } else {
        Platform::Other
    }
}

/// The installation directories of the machine and of the user, as far as the
/// environment names them.
#[derive(Debug, Clone, PartialEq, Eq)]
pub struct InstallRoots {
    pub program_files: Option<String>,
    pub program_files_x86: Option<String>,
    pub local_app_data: Option<String>,
}

pub struct InstallRootsView {
    pub program_files: Option<Seq<char>>,
    pub program_files_x86: Option<Seq<char>>,
    pub local_app_data: Option<Seq<char>>,
}

impl View for InstallRoots {
    type V = InstallRootsView;

    open spec fn view(&self) -> InstallRootsView {
        InstallRootsView {
            program_files: text_of(self.program_files),
            program_files_x86: text_of(self.program_files_x86),
            local_app_data: text_of(self.local_app_data),
        }
    }
}

/// An executable that may be installed: a name or a path, below an
/// installation directory where `root` gives one.
#[derive(Debug, Clone, PartialEq, Eq)]
pub struct Candidate {
    pub root: Option<String>,
    pub name: String,
}

pub struct CandidateView {
    pub root: Option<Seq<char>>,
    pub name: Seq<char>,
}

impl View for Candidate {
    type V = CandidateView;

    open spec fn view(&self) -> CandidateView {
        CandidateView { root: text_of(self.root), name: self.name@ }
    }
}

/// One path to try: the candidate as it is, or below `dir` where one is
/// given.
#[derive(Debug, Clone, PartialEq, Eq)]
pub struct Probe {
    pub dir: Option<String>,
    pub candidate: Candidate,
}

pub struct ProbeView {
    pub dir: Option<Seq<char>>,
    pub candidate: CandidateView,
}

impl View for Probe {
    type V = ProbeView;

    open spec fn view(&self) -> ProbeView {
        ProbeView { dir: text_of(self.dir), candidate: self.candidate@ }
    }
}

/// The views of a list of candidates, in order.
pub open spec fn candidate_views(v: Seq<Candidate>) -> Seq<CandidateView> {
    Seq::new(v.len(), |i: int| v[i]@)
}

/// The views of a list of probes, in order.
pub open spec fn probe_views(v: Seq<Probe>) -> Seq<ProbeView> {
    Seq::new(v.len(), |i: int| v[i]@)
}

/// The texts of a list of names, in order.
pub open spec fn name_views(v: Seq<&'static str>) -> Seq<Seq<char>> {
    Seq::new(v.len(), |i: int| v[i]@)
}

/// The names and paths under which a browser is looked for, by platform, in
/// the order in which they are tried.
pub open spec fn names_spec(platform: Platform) -> Seq<&'static str> {
    match platform {
        Platform::MacOs => seq![
            MAC_CHROME,
            MAC_CHROMIUM,
            MAC_EDGE,
            MAC_CHROME_CANARY,
            USR_BIN_GOOGLE_CHROME_STABLE,
            USR_BIN_GOOGLE_CHROME,
            USR_BIN_CHROMIUM,
            USR_BIN_CHROMIUM_BROWSER,
        ],
        Platform::Linux => seq![
            CHROME,
            GOOGLE_CHROME,
            USR_BIN_GOOGLE_CHROME,
            MICROSOFT_EDGE,
            USR_BIN_MICROSOFT_EDGE,
            CHROMIUM,
            CHROMIUM_BROWSER,
            USR_BIN_GOOGLE_CHROME_STABLE,
            USR_BIN_CHROMIUM,
            USR_BIN_CHROMIUM_BROWSER,
            SNAP_CHROMIUM,
            TERMUX_CHROMIUM_BROWSER,
        ],
        Platform::OpenBsd => seq![CHROME, CHROMIUM],
        Platform::Windows => seq![CHROME, EDGE],
        Platform::Other => Seq::<&'static str>::empty(),
    }
}

/// The paths, from an installation directory on, at which a browser is
/// installed on Windows.
pub open spec fn windows_exe_paths_spec() -> Seq<&'static str> {
    seq![WINDOWS_CHROME_EXE, WINDOWS_CHROMIUM_EXE, WINDOWS_EDGE_EXE]
}

/// The names and paths under which a browser is looked for on `platform`.
pub fn names(platform: Platform) -> (list: Vec<&'static str>)
    ensures
        list@ == names_spec(platform),
{
    match platform {
        Platform::MacOs => vec![
            MAC_CHROME,
            MAC_CHROMIUM,
            MAC_EDGE,
            MAC_CHROME_CANARY,
            USR_BIN_GOOGLE_CHROME_STABLE,
            USR_BIN_GOOGLE_CHROME,
            USR_BIN_CHROMIUM,
            USR_BIN_CHROMIUM_BROWSER,
        ],
        Platform::Linux => vec![
            CHROME,
            GOOGLE_CHROME,
            USR_BIN_GOOGLE_CHROME,
            MICROSOFT_EDGE,
            USR_BIN_MICROSOFT_EDGE,
            CHROMIUM,
            CHROMIUM_BROWSER,
            USR_BIN_GOOGLE_CHROME_STABLE,
            USR_BIN_CHROMIUM,
            USR_BIN_CHROMIUM_BROWSER,
            SNAP_CHROMIUM,
            TERMUX_CHROMIUM_BROWSER,
        ],
        Platform::OpenBsd => vec![CHROME, CHROMIUM],
        Platform::Windows => vec![CHROME, EDGE],
        Platform::Other => Vec::new(),
    }
}

/// A candidate that is a bare name or a whole path.
pub open spec fn plain(name: Seq<char>) -> CandidateView {
    CandidateView { root: None, name }
}

/// The names as candidates, in order.
pub open spec fn plain_candidates(names: Seq<Seq<char>>) -> Seq<CandidateView> {
    Seq::new(names.len(), |i: int| plain(names[i]))
}

/// `relative` below one installation directory, if the environment names
/// that directory.
pub open spec fn below(root: Option<Seq<char>>, relative: Seq<char>) -> Seq<CandidateView> {
    match root {
        Some(root) => seq![CandidateView { root: Some(root), name: relative }],
        None => Seq::<CandidateView>::empty(),
    }
}

/// `relative` below each installation directory that the environment names:
/// that of the machine, that of its 32-bit programs, that of the user.
pub open spec fn below_roots(relative: Seq<char>, roots: InstallRootsView) -> Seq<CandidateView> {
    below(roots.program_files, relative) + below(roots.program_files_x86, relative) + below(
        roots.local_app_data,
        relative,
    )
}

/// Each path of `list` below each installation directory, path by path.
pub open spec fn expand_spec(list: Seq<Seq<char>>, roots: InstallRootsView) -> Seq<CandidateView>
    decreases list.len(),
{
    if list.len() == 0 {
        Seq::<CandidateView>::empty()
    } else {
        expand_spec(list.drop_last(), roots) + below_roots(list.last(), roots)
    }
}

/// The candidates of a platform: its names, and on Windows the installed
/// paths below the installation directories after them.
pub open spec fn candidates_spec(platform: Platform, roots: InstallRootsView) -> Seq<
    CandidateView,
> {
    plain_candidates(name_views(names_spec(platform))) + if platform == Platform::Windows {
        expand_spec(name_views(windows_exe_paths_spec()), roots)
    } else {
        Seq::<CandidateView>::empty()
    }
}

/// The character that separates the directories of a search path.
pub open spec fn path_separator(windows: bool) -> char {
    if windows {
        ';'
    } else {
        ':'
    }
}

/// The candidate with an extension after its name.
pub open spec fn with_extension(candidate: CandidateView, extension: Seq<char>) -> CandidateView {
    CandidateView { root: candidate.root, name: candidate.name + EXTENSION_DOT@ + extension }
}

/// The candidate below `dir`.
pub open spec fn inside(dir: Seq<char>, candidate: CandidateView) -> ProbeView {
    ProbeView { dir: Some(dir), candidate }
}

/// The paths tried in one directory of the search path: the candidate, and
/// on Windows the candidate with each extension of an executable.
pub open spec fn probes_in_dir(candidate: CandidateView, dir: Seq<char>, windows: bool) -> Seq<
    ProbeView,
> {
    if windows {
        seq![
            inside(dir, candidate),
            inside(dir, with_extension(candidate, EXTENSION_EXE@)),
            inside(dir, with_extension(candidate, EXTENSION_COM@)),
            inside(dir, with_extension(candidate, EXTENSION_BAT@)),
            inside(dir, with_extension(candidate, EXTENSION_CMD@)),
        ]
    } else {
        seq![inside(dir, candidate)]
    }
}

/// The paths tried in the directories `dirs`, directory by directory.
pub open spec fn probes_in_dirs(candidate: CandidateView, dirs: Seq<Seq<char>>, windows: bool)
    -> Seq<ProbeView>
    decreases dirs.len(),
{
    if dirs.len() == 0 {
        Seq::<ProbeView>::empty()
    } else {
        probes_in_dirs(candidate, dirs.drop_last(), windows) + probes_in_dir(
            candidate,
            dirs.last(),
            windows,
        )
    }
}

/// The paths tried for one candidate: the candidate as it is, then the
/// candidate in each directory of the search path, if there is a search path.
pub open spec fn probes_spec(candidate: CandidateView, path: Option<Seq<char>>, windows: bool)
    -> Seq<ProbeView> {
    seq![ProbeView { dir: None, candidate }] + match path {
        Some(path) => probes_in_dirs(
            candidate,
            split_spec(path, path_separator(windows)),
            windows,
        ),
        None => Seq::<ProbeView>::empty(),
    }
}

/// The paths tried for the candidates: for each candidate, in order, the
/// paths tried for it.
pub open spec fn plan_spec(candidates: Seq<CandidateView>, path: Option<Seq<char>>, windows: bool)
    -> Seq<Seq<ProbeView>> {
    Seq::new(candidates.len(), |i: int| probes_spec(candidates[i], path, windows))
}

/// The views of a plan: the views of the probes of each candidate.
pub open spec fn plan_views(plan: Seq<Vec<Probe>>) -> Seq<Seq<ProbeView>> {
    Seq::new(plan.len(), |i: int| probe_views(plan[i]@))
}

/// The text of an optional string slice.
pub open spec fn slice_text(value: Option<&str>) -> Option<Seq<char>> {
    match value {
        Some(text) => Some(text@),
        None => None,
    }
}

/// A copy of an optional string.
fn copy_of(value: &Option<String>) -> (copy: Option<String>)
    ensures
        text_of(copy) == text_of(*value),
{
    match value {
        Some(text) => Some(text.clone()),
        None => None,
    }
}

/// A copy of a candidate.
fn copy_candidate(candidate: &Candidate) -> (copy: Candidate)
    ensures
        copy@ == candidate@,
{
    Candidate { root: copy_of(&candidate.root), name: candidate.name.clone() }
}

/// Adds `relative` below `root` to the candidates, if there is a `root`.
fn push_below(out: &mut Vec<Candidate>, root: &Option<String>, relative: &str)
    ensures
        candidate_views(final(out)@) == candidate_views(old(out)@) + below(
            text_of(*root),
            relative@,
        ),
{
    match root {
        Some(root) => {
            out.push(Candidate { root: Some(root.clone()), name: relative.to_owned() });
            assert(candidate_views(out@) =~= candidate_views(old(out)@) + below(
                Some(root@),
                relative@,
            ));
        },
        None => {
            assert(candidate_views(out@) =~= candidate_views(old(out)@) + below(None, relative@));
        },
    }
}

/// Each path of `list` below each installation directory that the
/// environment names: for every path in turn, the directory of the machine's
/// programs, that of its 32-bit programs, and that of the user.
pub fn expand_windows_exe_paths(list: Vec<&'static str>, roots: &InstallRoots) -> (expanded: Vec<
    Candidate,
>)
    ensures
        candidate_views(expanded@) == expand_spec(name_views(list@), roots@),
{
    let mut expanded: Vec<Candidate> = Vec::new();
    let mut i: usize = 0;
    assert(name_views(list@).take(0) =~= Seq::<Seq<char>>::empty());
    assert(candidate_views(expanded@) =~= expand_spec(name_views(list@).take(0), roots@));
    while i < list.len()
        invariant
            i <= list.len(),
            candidate_views(expanded@) == expand_spec(name_views(list@).take(i as int), roots@),
        decreases list.len() - i,
    {
        let ghost before = candidate_views(expanded@);
        let relative: &str = list[i];
        push_below(&mut expanded, &roots.program_files, relative);
        push_below(&mut expanded, &roots.program_files_x86, relative);
        push_below(&mut expanded, &roots.local_app_data, relative);
        proof {
            let upto = name_views(list@).take(i + 1);
            assert(upto.drop_last() =~= name_views(list@).take(i as int));
            assert(upto.last() == relative@);
            assert(candidate_views(expanded@) =~= before + below_roots(relative@, roots@));
        }
        i += 1;
    }
    assert(name_views(list@).take(i as int) =~= name_views(list@));
    expanded
}

/// The candidates of a platform, in the order in which they are tried.
pub fn candidates(platform: Platform, roots: &InstallRoots) -> (list: Vec<Candidate>)
    ensures
        candidate_views(list@) == candidates_spec(platform, roots@),
{
    let plain_names = names(platform);
    let mut list: Vec<Candidate> = Vec::new();
    let mut i: usize = 0;
    while i < plain_names.len()
        invariant
            i <= plain_names.len(),
            list.len() == i,
            plain_names@ == names_spec(platform),
            candidate_views(list@) == plain_candidates(name_views(plain_names@)).take(i as int),
        decreases plain_names.len() - i,
    {
        let ghost before = candidate_views(list@);
        let name: &str = plain_names[i];
        list.push(Candidate { root: None, name: name.to_owned() });
        assert(name_views(plain_names@)[i as int] == name@);
        assert(list@[i as int]@ == plain(name@));
        assert(candidate_views(list@) =~= before.push(plain(name@)));
        assert(candidate_views(list@) =~= plain_candidates(name_views(plain_names@)).take(i + 1));
        i += 1;
    }
    assert(candidate_views(list@) =~= plain_candidates(name_views(plain_names@)));
    match platform {
        Platform::Windows => {
            let mut expanded = expand_windows_exe_paths(
                vec![WINDOWS_CHROME_EXE, WINDOWS_CHROMIUM_EXE, WINDOWS_EDGE_EXE],
                roots,
            );
            let ghost head = candidate_views(list@);
            let ghost tail = candidate_views(expanded@);
            list.append(&mut expanded);
            assert(candidate_views(list@) =~= head + tail);
        },
        _ => {
            assert(candidate_views(list@) =~= candidates_spec(platform, roots@));
        },
    }
    list
}

/// The candidate with an extension after its name.
fn extended(candidate: &Candidate, extension: &str) -> (longer: Candidate)
    ensures
        longer@ == with_extension(candidate@, extension@),
{
    let mut name = candidate.name.clone();
    name.append(EXTENSION_DOT);
    name.append(extension);
    Candidate { root: copy_of(&candidate.root), name }
}

/// Adds the paths tried in one directory of the search path.
fn push_probes_in_dir(out: &mut Vec<Probe>, candidate: &Candidate, dir: &String, windows: bool)
    ensures
        probe_views(final(out)@) == probe_views(old(out)@) + probes_in_dir(
            candidate@,
            dir@,
            windows,
        ),
{
    out.push(Probe { dir: Some(dir.clone()), candidate: copy_candidate(candidate) });
    if windows {
        out.push(Probe { dir: Some(dir.clone()), candidate: extended(candidate, EXTENSION_EXE) });
        out.push(Probe { dir: Some(dir.clone()), candidate: extended(candidate, EXTENSION_COM) });
        out.push(Probe { dir: Some(dir.clone()), candidate: extended(candidate, EXTENSION_BAT) });
        out.push(Probe { dir: Some(dir.clone()), candidate: extended(candidate, EXTENSION_CMD) });
    }
    assert(probe_views(out@) =~= probe_views(old(out)@) + probes_in_dir(
        candidate@,
        dir@,
        windows,
    ));
}

/// The paths to try for one candidate, in order: the candidate as it is,
/// then the candidate in each of the directories `dirs` of the search path,
/// if there is a search path.
fn _look_path(input: &Candidate, dirs: &Option<Vec<String>>, windows: bool) -> (probes: Vec<Probe>)
    ensures
        probe_views(probes@) == seq![ProbeView { dir: None, candidate: input@ }] + match *dirs {
            Some(dirs) => probes_in_dirs(input@, views(dirs@), windows),
            None => Seq::<ProbeView>::empty(),
        },
{
    let ghost direct = seq![ProbeView { dir: None, candidate: input@ }];
    let mut probes: Vec<Probe> = Vec::new();
    probes.push(Probe { dir: None, candidate: copy_candidate(input) });
    assert(probe_views(probes@) =~= direct);
    match dirs {
        Some(dirs) => {
            let mut i: usize = 0;
            assert(views(dirs@).take(0) =~= Seq::<Seq<char>>::empty());
            assert(probe_views(probes@) =~= direct + probes_in_dirs(
                input@,
                views(dirs@).take(0),
                windows,
            ));
            while i < dirs.len()
                invariant
                    i <= dirs.len(),
                    direct == seq![ProbeView { dir: None, candidate: input@ }],
                    probe_views(probes@) == direct + probes_in_dirs(
                        input@,
                        views(dirs@).take(i as int),
                        windows,
                    ),
                decreases dirs.len() - i,
            {
                let ghost before = probes_in_dirs(input@, views(dirs@).take(i as int), windows);
                push_probes_in_dir(&mut probes, input, &dirs[i], windows);
                proof {
                    let upto = views(dirs@).take(i + 1);
                    assert(upto.drop_last() =~= views(dirs@).take(i as int));
                    assert(upto.last() == dirs@[i as int]@);
                    assert(probe_views(probes@) =~= direct + (before + probes_in_dir(
                        input@,
                        dirs@[i as int]@,
                        windows,
                    )));
                }
                i += 1;
            }
            assert(views(dirs@).take(i as int) =~= views(dirs@));
        },
        None => {
            assert(probe_views(probes@) =~= direct + Seq::<ProbeView>::empty());
        },
    }
    probes
}

/// The plan of the search for a browser executable: for each candidate of
/// the platform that `os` names, in order, the paths to try for it. These are
/// the candidate as it is, then the candidate in each directory of the search
/// path `path`.
pub fn look_path(os: &str, path: Option<&str>, roots: &InstallRoots) -> (plan: Vec<Vec<Probe>>)
    ensures
        plan_views(plan@) == plan_spec(
            candidates_spec(platform_spec(os@), roots@),
            slice_text(path),
            platform_spec(os@) == Platform::Windows,
        ),
{
    let platform = platform_of(os);
    let windows = match platform {
        Platform::Windows => true,
        _ => false,
    };
    let dirs: Option<Vec<String>> = match path {
        Some(path) => Some(
            split(
                path,
                if windows {
                    ';'
                } else {
                    ':'
                },
            ),
        ),
        None => None,
    };
    let list = candidates(platform, roots);
    let mut plan: Vec<Vec<Probe>> = Vec::new();
    let mut i: usize = 0;
    while i < list.len()
        invariant
            i <= list.len(),
            plan.len() == i,
            match dirs {
                Some(dirs) => slice_text(path) matches Some(text) && views(dirs@) == split_spec(
                    text,
                    path_separator(windows),
                ),
                None => slice_text(path) is None,
            },
            forall|k: int|
                0 <= k < i ==> probe_views(#[trigger] plan@[k]@) == probes_spec(
                    list@[k]@,
                    slice_text(path),
                    windows,
                ),
        decreases list.len() - i,
    {
        let probes = _look_path(&list[i], &dirs, windows);
        plan.push(probes);
        i += 1;
    }
    assert(plan_views(plan@) =~= plan_spec(candidate_views(list@), slice_text(path), windows));
    plan
}

} // verus!
