use ybuild::binaries::{
    is_executable, is_executable_name, order_newest_first, search_step, skip_entry, Entry, Found, SearchAction,
    SearchEvent, SearchStage,
};

fn file(dir: &str, name: &str, executable: bool, modified: u128) -> Entry {
    Entry {
        name: name.to_string(),
        id: 100,
        path: Some(format!("{}/{}", dir, name)),
        is_dir: false,
        executable,
        modified,
    }
}

fn dir(parent: &str, name: &str, id: usize) -> Entry {
    Entry { name: name.to_string(), id, path: Some(format!("{}/{}", parent, name)), is_dir: true, executable: false, modified: 0 }
}

#[test]
fn hidden_and_tool_directories_are_skipped() {
    assert!(skip_entry(".git"));
    assert!(skip_entry(".hidden"));
    assert!(skip_entry("node_modules"));
    assert!(skip_entry("__pycache__"));
    assert!(skip_entry("obj"));
    assert!(!skip_entry("target"));
    assert!(!skip_entry("objects"));
    assert!(!skip_entry(""));
}

#[test]
fn execute_permission_marks_executables() {
    assert!(is_executable(true, 0o755));
    assert!(is_executable(true, 0o100));
    assert!(!is_executable(true, 0o644));
    assert!(!is_executable(false, 0o755));
}

#[test]
fn windows_extensions_mark_executables() {
    assert!(is_executable_name("app.exe"));
    assert!(is_executable_name("RUN.BAT"));
    assert!(is_executable_name("x.tar.Cmd"));
    assert!(!is_executable_name("app.exe.txt"));
    assert!(!is_executable_name(".exe"));
    assert!(!is_executable_name("exe"));
}

#[test]
fn newest_comes_first_and_ties_keep_reverse_discovery_order() {
    let fs = vec![
        Found { path: Some("a".to_string()), modified: 5 },
        Found { path: Some("b".to_string()), modified: 9 },
        Found { path: Some("c".to_string()), modified: 5 },
        Found { path: None, modified: 7 },
    ];
    let order: Vec<Option<String>> = order_newest_first(fs).into_iter().map(|f| f.path).collect();
    assert_eq!(
        order,
        vec![Some("b".to_string()), None, Some("c".to_string()), Some("a".to_string())]
    );
}

#[test]
fn search_walks_depth_first_and_offers_newest_first() {
    let (st, act) = search_step(SearchStage::Begin(".".to_string()), &SearchEvent::Start);
    assert_eq!(act, SearchAction::List(0));
    let top = vec![dir(".", "bin", 1), dir(".", ".git", 2), file(".", "old", true, 10), file(".", "notes", false, 50), dir(".", "out", 5)];
    let (st, act) = search_step(st, &SearchEvent::Listed(Some(top)));
    assert_eq!(act, SearchAction::List(5));
    let (st, act) = search_step(st, &SearchEvent::Listed(Some(vec![file("./out", "app", true, 30)])));
    assert_eq!(act, SearchAction::List(1));
    let (st, act) = search_step(st, &SearchEvent::Listed(None));
    assert_eq!(
        act,
        SearchAction::Ask {
            prompt: "Select executable to run".to_string(),
            options: vec!["./out/app".to_string(), "./old".to_string()]
        }
    );
    let (_, act) = search_step(st, &SearchEvent::Picked("./old".to_string()));
    assert_eq!(act, SearchAction::Run("./old".to_string()));
}

#[test]
fn a_single_executable_runs_without_asking() {
    let (st, _) = search_step(SearchStage::Begin("build".to_string()), &SearchEvent::Start);
    let (st, act) = search_step(st, &SearchEvent::Listed(Some(vec![file("build", "hello", true, 1)])));
    assert_eq!(act, SearchAction::Run("build/hello".to_string()));
    let (_, act) = search_step(st, &SearchEvent::Done);
    assert_eq!(act, SearchAction::Finish);
}

#[test]
fn nothing_found_is_a_warning() {
    let (st, _) = search_step(SearchStage::Begin("build".to_string()), &SearchEvent::Start);
    let (st, act) = search_step(st, &SearchEvent::Listed(Some(vec![file("build", "data", false, 1)])));
    assert_eq!(act, SearchAction::Warn("No executables found in build".to_string()));
    assert_eq!(st, SearchStage::Over);
}

#[test]
fn directories_whose_path_is_not_unicode_are_searched_too() {
    let (st, _) = search_step(SearchStage::Begin(".".to_string()), &SearchEvent::Start);
    let odd = Entry { name: String::new(), id: 7, path: None, is_dir: true, executable: false, modified: 0 };
    let (st, act) = search_step(st, &SearchEvent::Listed(Some(vec![odd])));
    assert_eq!(act, SearchAction::List(7));
    let hidden = Entry { name: "x".to_string(), id: 8, path: None, is_dir: false, executable: true, modified: 3 };
    let (st, act) = search_step(st, &SearchEvent::Listed(Some(vec![hidden])));
    assert_eq!(act, SearchAction::Finish);
    assert_eq!(st, SearchStage::Over);
}
