use headless_chrome_operation_map::utils::launcher::{
    look_path, Candidate, InstallRoots, Probe,
};
use headless_chrome_operation_map::utils::locator::{
    look_advance, look_begin, probed, LookStep, Probed,
};

/// What is at a path of the file system of these tests.
#[derive(Clone, Copy, PartialEq)]
enum Entry {
    File,
    Directory,
    /// A file whose full path cannot be had.
    Dangling,
}

/// A file system: the paths at which something is.
struct Disk {
    entries: Vec<(&'static str, Entry)>,
}

impl Disk {
    fn entry(&self, path: &str) -> Option<Entry> {
        self.entries.iter().find(|(at, _)| *at == path).map(|(_, entry)| *entry)
    }

    /// What this file system says of a probe, as a caller would ask it.
    fn answer(&self, probe: &Probe) -> Probed {
        let path = match &probe.dir {
            Some(dir) if probe.candidate.name.starts_with('/') => {
                let _ = dir;
                probe.candidate.name.clone()
            }
            Some(dir) => format!("{}/{}", dir, probe.candidate.name),
            None => probe.candidate.name.clone(),
        };
        let entry = self.entry(&path);
        let resolved = matches!(entry, Some(Entry::File) | Some(Entry::Directory));
        let regular = match entry {
            Some(Entry::File) | Some(Entry::Dangling) => Some(true),
            Some(Entry::Directory) => Some(false),
            None => None,
        };
        probed(probe, resolved, regular)
    }
}

/// Looks for the executable on a file system, step by step, and hands back
/// the path found and the number of paths tried.
fn find(plan: &Vec<Vec<Probe>>, disk: &Disk) -> (Option<Probe>, usize) {
    let mut tried = 0;
    let mut step = look_begin(plan);
    loop {
        match step {
            LookStep::NotFound => return (None, tried),
            LookStep::Found { candidate, probe } => {
                return (Some(plan[candidate][probe].clone()), tried)
            }
            LookStep::Try { candidate, probe } => {
                tried += 1;
                assert!(tried <= 1000);
                let found = disk.answer(&plan[candidate][probe]);
                step = look_advance(plan, candidate, probe, found);
            }
        }
    }
}

fn no_roots() -> InstallRoots {
    InstallRoots { program_files: None, program_files_x86: None, local_app_data: None }
}

fn plain(name: &str) -> Candidate {
    Candidate { root: None, name: name.to_string() }
}

fn direct(name: &str) -> Probe {
    Probe { dir: None, candidate: plain(name) }
}

fn inside(dir: &str, name: &str) -> Probe {
    Probe { dir: Some(dir.to_string()), candidate: plain(name) }
}

#[test]
fn answers_are_read_by_the_kind_of_the_probe() {
    let as_it_is = direct("chrome");
    assert_eq!(probed(&as_it_is, false, None), Probed::Other);
    assert_eq!(probed(&as_it_is, false, Some(true)), Probed::Other);
    assert_eq!(probed(&as_it_is, true, None), Probed::Unresolved);
    assert_eq!(probed(&as_it_is, true, Some(true)), Probed::Regular);
    assert_eq!(probed(&as_it_is, true, Some(false)), Probed::Other);

    let in_dir = inside("/usr/bin", "chrome");
    assert_eq!(probed(&in_dir, true, None), Probed::Other);
    assert_eq!(probed(&in_dir, false, None), Probed::Other);
    assert_eq!(probed(&in_dir, true, Some(false)), Probed::Other);
    assert_eq!(probed(&in_dir, true, Some(true)), Probed::Regular);
    assert_eq!(probed(&in_dir, false, Some(true)), Probed::Unresolved);
}

#[test]
fn empty_plan_finds_nothing() {
    let plan: Vec<Vec<Probe>> = Vec::new();
    assert_eq!(look_begin(&plan), LookStep::NotFound);
    assert_eq!(look_advance(&plan, 0, 0, Probed::Regular), LookStep::NotFound);
    let plan = look_path("plan9", Some("/bin"), &no_roots());
    assert_eq!(find(&plan, &Disk { entries: vec![("/bin/chrome", Entry::File)] }), (None, 0));
}

#[test]
fn steps_go_through_the_plan_in_order() {
    let plan = vec![vec![direct("a"), inside("/x", "a")], vec![], vec![direct("b")]];
    assert_eq!(look_begin(&plan), LookStep::Try { candidate: 0, probe: 0 });
    assert_eq!(
        look_advance(&plan, 0, 0, Probed::Other),
        LookStep::Try { candidate: 0, probe: 1 }
    );
    assert_eq!(
        look_advance(&plan, 0, 1, Probed::Other),
        LookStep::Try { candidate: 2, probe: 0 }
    );
    assert_eq!(look_advance(&plan, 2, 0, Probed::Other), LookStep::NotFound);
    assert_eq!(
        look_advance(&plan, 0, 1, Probed::Regular),
        LookStep::Found { candidate: 0, probe: 1 }
    );
    assert_eq!(
        look_advance(&plan, 0, 0, Probed::Unresolved),
        LookStep::Try { candidate: 2, probe: 0 }
    );
    assert_eq!(look_advance(&plan, 2, 0, Probed::Unresolved), LookStep::NotFound);
    assert_eq!(look_advance(&plan, 1, 0, Probed::Regular), LookStep::NotFound);
    assert_eq!(look_advance(&plan, 3, 0, Probed::Regular), LookStep::NotFound);
    assert_eq!(look_advance(&plan, 0, 2, Probed::Regular), LookStep::NotFound);
}

#[test]
fn nothing_installed_finds_nothing() {
    let plan = look_path("linux", Some("/usr/local/bin:/usr/bin"), &no_roots());
    assert_eq!(find(&plan, &Disk { entries: Vec::new() }), (None, 12 * 3));
    let plan = look_path("linux", None, &no_roots());
    assert_eq!(find(&plan, &Disk { entries: Vec::new() }), (None, 12));
}

#[test]
fn earlier_candidate_wins_over_a_later_one_on_the_search_path() {
    let plan = look_path("linux", Some("/usr/local/bin:/opt/bin"), &no_roots());
    let disk = Disk {
        entries: vec![
            ("/opt/bin/chromium", Entry::File),
            ("/usr/bin/google-chrome", Entry::File),
            ("/snap/bin/chromium", Entry::File),
        ],
    };
    let (found, tried) = find(&plan, &disk);
    assert_eq!(found, Some(direct("/usr/bin/google-chrome")));
    assert_eq!(tried, 3 + 3 + 1);
}

#[test]
fn first_directory_of_the_search_path_wins_and_a_directory_is_passed_over() {
    let plan = look_path("linux", Some("/a:/b:/c"), &no_roots());
    let disk = Disk {
        entries: vec![
            ("/a/chrome", Entry::Directory),
            ("/b/chrome", Entry::File),
            ("/c/chrome", Entry::File),
        ],
    };
    assert_eq!(find(&plan, &disk), (Some(inside("/b", "chrome")), 3));
}

#[test]
fn candidate_that_is_a_file_is_found_without_a_search_path() {
    let disk = Disk { entries: vec![("/usr/bin/chromium", Entry::File)] };
    for path in [None, Some(""), Some("/a:/b")] {
        let plan = look_path("macos", path, &no_roots());
        let (found, _) = find(&plan, &disk);
        assert_eq!(found, Some(direct("/usr/bin/chromium")));
    }
    let disk = Disk { entries: vec![("/usr/bin/chromium", Entry::Directory)] };
    assert_eq!(find(&look_path("macos", None, &no_roots()), &disk), (None, 8));
}

#[test]
fn unresolved_path_gives_up_its_candidate_only() {
    let plan = look_path("openbsd", Some("/a:/b"), &no_roots());
    let disk = Disk {
        entries: vec![
            ("/a/chrome", Entry::Dangling),
            ("/b/chrome", Entry::File),
            ("/b/chromium", Entry::File),
        ],
    };
    assert_eq!(find(&plan, &disk), (Some(inside("/b", "chromium")), 2 + 3));
}

#[test]
fn windows_tries_the_bare_name_before_the_extensions() {
    let plan = look_path("windows", Some("C:"), &no_roots());
    let disk = Disk {
        entries: vec![("C:/chrome.com", Entry::File), ("C:/chrome.cmd", Entry::File)],
    };
    assert_eq!(find(&plan, &disk), (Some(inside("C:", "chrome.com")), 4));
}
