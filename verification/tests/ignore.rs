use ybuild::ignore::{change_matters, glob_matches, ignore_patterns, path_is_ignored, should_rebuild, Change};

fn chars(s: &str) -> Vec<char> {
    s.chars().collect()
}

fn names(p: &str) -> Vec<Vec<char>> {
    p.split('/').map(chars).collect()
}

fn file(p: &str) -> Change {
    Change { names: names(p), is_dir: false }
}

fn ignored(gitignore: &str, p: &str, is_dir: bool) -> bool {
    path_is_ignored(&ignore_patterns(gitignore), &names(p), is_dir)
}

#[test]
fn gitignore_lines_give_patterns() {
    let pats = ignore_patterns("# build output\n/target/\n*.log\n\n!keep.log\ndocs/out\n  .env  \r\n");
    assert_eq!(pats.len(), 5);
    assert!(pats[0].anchored && pats[0].dir_only && !pats[0].negate);
    assert_eq!(pats[0].parts, vec![chars("target")]);
    assert!(!pats[1].anchored && !pats[1].dir_only);
    assert!(pats[2].negate);
    assert!(pats[3].anchored);
    assert_eq!(pats[3].parts, vec![chars("docs"), chars("out")]);
    assert_eq!(pats[4].parts, vec![chars(".env")]);
}

#[test]
fn globs_treat_every_star_as_a_wildcard() {
    assert!(glob_matches(&chars("*.log"), &chars("app.log")));
    assert!(!glob_matches(&chars("*.log"), &chars("app.logs")));
    assert!(glob_matches(&chars("a*b*c"), &chars("aXXbYYc")));
    assert!(!glob_matches(&chars("a*b*c"), &chars("aXXcYYb")));
    assert!(glob_matches(&chars("file?.txt"), &chars("file1.txt")));
    assert!(!glob_matches(&chars("file?.txt"), &chars("file.txt")));
}

#[test]
fn names_match_at_any_depth() {
    assert!(ignored("*.log\n", "logs/run.log", false));
    assert!(ignored("node_modules\n", "web/node_modules/x/index.js", false));
    assert!(!ignored("*.log\n", "src/main.rs", false));
}

#[test]
fn paths_with_a_slash_are_matched_from_the_project_directory() {
    assert!(ignored("docs/build\n", "docs/build/index.html", false));
    assert!(!ignored("docs/build\n", "src/docs/build/index.html", false));
    assert!(ignored("/target\n", "target/debug/app", false));
    assert!(!ignored("/target\n", "sub/target/debug/app", false));
    assert!(ignored("**/gen\n", "a/b/gen/x.rs", false));
    assert!(ignored("out/**/*.o\n", "out/a/b/c.o", false));
}

#[test]
fn directory_patterns_match_directories_only() {
    assert!(ignored("build/\n", "build/x", false));
    assert!(ignored("build/\n", "build", true));
    assert!(!ignored("build/\n", "build", false));
}

#[test]
fn negations_apply_in_order() {
    assert!(!ignored("*.log\n!keep.log\n", "keep.log", false));
    assert!(ignored("*.log\n!keep.log\n", "other.log", false));
    assert!(ignored("!keep.log\n*.log\n", "keep.log", false));
    assert!(ignored("logs/\n!logs/keep.log\n", "logs/keep.log", false));
}

#[test]
fn ignored_changes_do_not_rebuild() {
    let pats = ignore_patterns("target/\n*.log\n");
    assert!(!change_matters(&vec![file("target/debug/app")], &pats));
    assert!(!change_matters(&vec![file("logs/run.log"), file("target/x")], &pats));
    assert!(change_matters(&vec![file("target/x"), file("src/main.rs")], &pats));
    assert!(change_matters(&vec![], &pats));
    assert!(should_rebuild(600_000_000, &vec![file("src/lib.rs")], &pats));
    assert!(!should_rebuild(400_000_000, &vec![file("src/lib.rs")], &pats));
    assert!(!should_rebuild(600_000_000, &vec![file("build.log")], &pats));
}
