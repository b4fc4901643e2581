use headless_chrome_operation_map::utils::launcher::{
    candidates, expand_windows_exe_paths, look_path, names, platform_of, Candidate, InstallRoots,
    Platform, Probe,
};

fn no_roots() -> InstallRoots {
    InstallRoots { program_files: None, program_files_x86: None, local_app_data: None }
}

fn plain(name: &str) -> Candidate {
    Candidate { root: None, name: name.to_string() }
}

fn below(root: &str, name: &str) -> Candidate {
    Candidate { root: Some(root.to_string()), name: name.to_string() }
}

fn direct(candidate: Candidate) -> Probe {
    Probe { dir: None, candidate }
}

fn inside(dir: &str, candidate: Candidate) -> Probe {
    Probe { dir: Some(dir.to_string()), candidate }
}

#[test]
fn platforms_are_known_by_their_names() {
    assert_eq!(platform_of("macos"), Platform::MacOs);
    assert_eq!(platform_of("linux"), Platform::Linux);
    assert_eq!(platform_of("openbsd"), Platform::OpenBsd);
    assert_eq!(platform_of("windows"), Platform::Windows);
    assert_eq!(platform_of("freebsd"), Platform::Other);
    assert_eq!(platform_of("Linux"), Platform::Other);
    assert_eq!(platform_of(""), Platform::Other);
}

#[test]
fn names_are_tried_in_a_fixed_order() {
    assert_eq!(
        names(Platform::MacOs),
        vec![
            "/Applications/Google Chrome.app/Contents/MacOS/Google Chrome",
            "/Applications/Chromium.app/Contents/MacOS/Chromium",
            "/Applications/Microsoft Edge.app/Contents/MacOS/Microsoft Edge",
            "/Applications/Google Chrome Canary.app/Contents/MacOS/Google Chrome Canary",
            "/usr/bin/google-chrome-stable",
            "/usr/bin/google-chrome",
            "/usr/bin/chromium",
            "/usr/bin/chromium-browser",
        ]
    );
    assert_eq!(
        names(Platform::Linux),
        vec![
            "chrome",
            "google-chrome",
            "/usr/bin/google-chrome",
            "microsoft-edge",
            "/usr/bin/microsoft-edge",
            "chromium",
            "chromium-browser",
            "/usr/bin/google-chrome-stable",
            "/usr/bin/chromium",
            "/usr/bin/chromium-browser",
            "/snap/bin/chromium",
            "/data/data/com.termux/files/usr/bin/chromium-browser",
        ]
    );
    assert_eq!(names(Platform::OpenBsd), vec!["chrome", "chromium"]);
    assert_eq!(names(Platform::Windows), vec!["chrome", "edge"]);
    assert_eq!(names(Platform::Other), Vec::<&str>::new());
}

#[test]
fn windows_paths_are_expanded_below_the_roots_that_are_set() {
    let roots = InstallRoots {
        program_files: Some("C:\\Program Files".to_string()),
        program_files_x86: None,
        local_app_data: Some("C:\\Users\\me\\AppData\\Local".to_string()),
    };
    assert_eq!(
        expand_windows_exe_paths(vec!["a.exe", "b\\c.exe"], &roots),
        vec![
            below("C:\\Program Files", "a.exe"),
            below("C:\\Users\\me\\AppData\\Local", "a.exe"),
            below("C:\\Program Files", "b\\c.exe"),
            below("C:\\Users\\me\\AppData\\Local", "b\\c.exe"),
        ]
    );
    assert_eq!(expand_windows_exe_paths(vec!["a.exe"], &no_roots()), Vec::<Candidate>::new());
    assert_eq!(expand_windows_exe_paths(Vec::new(), &roots), Vec::<Candidate>::new());

    let all = InstallRoots {
        program_files: Some("P".to_string()),
        program_files_x86: Some("X".to_string()),
        local_app_data: Some("L".to_string()),
    };
    assert_eq!(
        expand_windows_exe_paths(vec!["a"], &all),
        vec![below("P", "a"), below("X", "a"), below("L", "a")]
    );
}

#[test]
fn windows_candidates_are_the_names_and_then_the_installed_paths() {
    let roots = InstallRoots {
        program_files: Some("P".to_string()),
        program_files_x86: Some("X".to_string()),
        local_app_data: None,
    };
    assert_eq!(
        candidates(Platform::Windows, &roots),
        vec![
            plain("chrome"),
            plain("edge"),
            below("P", "Google\\Chrome\\Application\\chrome.exe"),
            below("X", "Google\\Chrome\\Application\\chrome.exe"),
            below("P", "Chromium\\Application\\chrome.exe"),
            below("X", "Chromium\\Application\\chrome.exe"),
            below("P", "Microsoft\\Edge\\Application\\msedge.exe"),
            below("X", "Microsoft\\Edge\\Application\\msedge.exe"),
        ]
    );
    assert_eq!(candidates(Platform::OpenBsd, &roots), vec![plain("chrome"), plain("chromium")]);
}

#[test]
fn each_candidate_is_tried_as_it_is_and_then_in_each_directory() {
    let plan = look_path("openbsd", Some("/usr/local/bin:/usr/bin"), &no_roots());
    assert_eq!(
        plan,
        vec![
            vec![
                direct(plain("chrome")),
                inside("/usr/local/bin", plain("chrome")),
                inside("/usr/bin", plain("chrome")),
            ],
            vec![
                direct(plain("chromium")),
                inside("/usr/local/bin", plain("chromium")),
                inside("/usr/bin", plain("chromium")),
            ],
        ]
    );
}

#[test]
fn without_a_search_path_only_the_candidates_are_tried() {
    assert_eq!(
        look_path("openbsd", None, &no_roots()),
        vec![vec![direct(plain("chrome"))], vec![direct(plain("chromium"))]]
    );
    assert!(look_path("linux", None, &no_roots()).iter().all(|probes| probes.len() == 1));
    assert_eq!(look_path("linux", None, &no_roots()).len(), 12);
    assert_eq!(look_path("macos", None, &no_roots()).len(), 8);
}

#[test]
fn empty_search_path_is_one_empty_directory() {
    assert_eq!(
        look_path("openbsd", Some(""), &no_roots()),
        vec![
            vec![direct(plain("chrome")), inside("", plain("chrome"))],
            vec![direct(plain("chromium")), inside("", plain("chromium"))],
        ]
    );
}

#[test]
fn unknown_platform_has_nothing_to_try() {
    assert_eq!(look_path("plan9", Some("/bin"), &no_roots()), Vec::<Vec<Probe>>::new());
}

#[test]
fn linux_tries_every_name_in_every_directory() {
    let plan = look_path("linux", Some("/a:/b:/c"), &no_roots());
    assert_eq!(plan.len(), 12);
    assert!(plan.iter().all(|probes| probes.len() == 4));
    assert_eq!(plan[0][0], direct(plain("chrome")));
    assert_eq!(plan[0][3], inside("/c", plain("chrome")));
    assert_eq!(plan[1][0], direct(plain("google-chrome")));
    assert_eq!(plan[2][0], direct(plain("/usr/bin/google-chrome")));
    assert_eq!(plan[5][2], inside("/b", plain("chromium")));
    assert_eq!(
        plan[11][3],
        inside("/c", plain("/data/data/com.termux/files/usr/bin/chromium-browser"))
    );
}

#[test]
fn windows_splits_at_semicolons_and_tries_the_extensions() {
    let roots =
        InstallRoots { program_files: Some("P".to_string()), program_files_x86: None, local_app_data: None };
    let plan = look_path("windows", Some("C:\\bin;D:\\tools"), &roots);
    assert_eq!(plan.len(), 5);
    assert!(plan.iter().all(|probes| probes.len() == 1 + 2 * 5));
    assert_eq!(
        plan[0],
        vec![
            direct(plain("chrome")),
            inside("C:\\bin", plain("chrome")),
            inside("C:\\bin", plain("chrome.exe")),
            inside("C:\\bin", plain("chrome.com")),
            inside("C:\\bin", plain("chrome.bat")),
            inside("C:\\bin", plain("chrome.cmd")),
            inside("D:\\tools", plain("chrome")),
            inside("D:\\tools", plain("chrome.exe")),
            inside("D:\\tools", plain("chrome.com")),
            inside("D:\\tools", plain("chrome.bat")),
            inside("D:\\tools", plain("chrome.cmd")),
        ]
    );
    assert_eq!(plan[2][0], direct(below("P", "Google\\Chrome\\Application\\chrome.exe")));
    assert_eq!(
        plan[2][2],
        inside("C:\\bin", below("P", "Google\\Chrome\\Application\\chrome.exe.exe"))
    );
}

#[test]
fn colon_does_not_split_a_windows_path() {
    let plan = look_path("windows", Some("C:\\bin"), &no_roots());
    assert_eq!(plan[0][1], inside("C:\\bin", plain("chrome")));
    let plan = look_path("linux", Some("/a;/b"), &no_roots());
    assert_eq!(plan[0][1], inside("/a;/b", plain("chrome")));
    assert!(plan.iter().all(|probes| probes.len() == 2));
}
