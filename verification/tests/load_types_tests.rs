use dsv_gui::tasks::load_types::{
    find_header_files, is_header_extension, is_header_file, is_ignored, step_status,
    CrawlAction, CrawlProgress, FsEntry, LoadTypesTask, LoadTypesTaskOptions, RunOutcome,
};

fn s(x: &str) -> String {
    x.to_string()
}

fn file(p: &str) -> FsEntry {
    FsEntry::Other { path: s(p) }
}

fn dir(p: &str, entries: Vec<FsEntry>) -> FsEntry {
    FsEntry::Dir { path: s(p), entries }
}

fn options() -> LoadTypesTaskOptions {
    LoadTypesTaskOptions {
        project_root: s("/proj"),
        include_paths: vec![s("/proj/include"), s("/proj/libs")],
        ignore_paths: vec![s("/proj/build/gen")],
        short_enums: true,
    }
}

#[test]
fn header_extensions() {
    assert!(is_header_extension(Some("h")));
    assert!(is_header_extension(Some("hpp")));
    assert!(!is_header_extension(Some("c")));
    assert!(!is_header_extension(Some("H")));
    assert!(!is_header_extension(Some("hh")));
    assert!(!is_header_extension(None));
}

#[test]
fn header_files_by_path() {
    assert!(is_header_file("/proj/include/actor.hpp"));
    assert!(is_header_file("types.h"));
    assert!(is_header_file("/a.b/c.h"));
    assert!(!is_header_file("/proj/src/actor.cpp"));
    assert!(!is_header_file("/proj/include/h"));
    assert!(!is_header_file("/proj/.h"));
    assert!(!is_header_file("/proj/a.h.txt"));
}

#[test]
fn ignored_directories_lie_at_or_above_an_ignore_path() {
    let ignore = vec![s("/proj/build/gen")];
    assert!(is_ignored(&ignore, "/proj/build/gen"));
    assert!(is_ignored(&ignore, "/proj/build"));
    assert!(is_ignored(&ignore, "/proj"));
    assert!(!is_ignored(&ignore, "/proj/build/gen/x"));
    assert!(!is_ignored(&ignore, "/proj/bui"));
    assert!(!is_ignored(&ignore, "/proj/src"));
    assert!(!is_ignored(&vec![], "/proj"));
}

#[test]
fn headers_found_in_order() {
    let tree = dir(
        "/proj",
        vec![
            file("/proj/a.h"),
            dir("/proj/src", vec![file("/proj/src/x.cpp"), file("/proj/src/x.hpp")]),
            file("/proj/readme.md"),
            dir("/proj/inc", vec![dir("/proj/inc/sub", vec![file("/proj/inc/sub/y.h")])]),
            file("/proj/z.hpp"),
        ],
    );
    let found = find_header_files(&vec![], &tree);
    assert_eq!(
        found,
        vec![s("/proj/a.h"), s("/proj/src/x.hpp"), s("/proj/inc/sub/y.h"), s("/proj/z.hpp")]
    );
}

#[test]
fn headers_skip_directories_above_ignore_paths() {
    let tree = dir(
        "/proj",
        vec![
            dir("/proj/src", vec![file("/proj/src/x.h")]),
            dir("/proj/out", vec![file("/proj/out/y.h")]),
        ],
    );
    // The project root itself lies above the ignore path, so nothing is gathered.
    let found = find_header_files(&vec![s("/proj/out/gen")], &tree);
    assert!(found.is_empty());
    // A subdirectory that is an ignore path is skipped when the root is not above it.
    let found = find_header_files(&vec![s("/other"), s("/proj/out")], &tree);
    assert!(found.is_empty());
    let found = find_header_files(&vec![s("/other")], &tree);
    assert_eq!(found, vec![s("/proj/src/x.h"), s("/proj/out/y.h")]);
    let found = find_header_files(&vec![s("out")], &tree);
    assert_eq!(found, vec![s("/proj/src/x.h"), s("/proj/out/y.h")]);
    let none = find_header_files(&vec![s("/proj/src/deep")], &dir("/proj", vec![]));
    assert!(none.is_empty());
    let root_ignored = find_header_files(&vec![s("/proj/src")], &tree);
    assert!(root_ignored.is_empty());
}

#[test]
fn headers_of_a_root_that_is_no_directory() {
    assert!(find_header_files(&vec![], &file("/proj/a.h")).is_empty());
}

#[test]
fn new_task_is_idle() {
    let task = LoadTypesTask::new(options());
    assert!(!task.worker_started());
    assert_eq!(task.status(), "");
    assert_eq!(task.project_root(), "/proj");
    assert_eq!(task.include_paths(), &vec![s("/proj/include"), s("/proj/libs")]);
    assert_eq!(task.ignore_paths(), &vec![s("/proj/build/gen")]);
    assert!(task.short_enums());
}

#[test]
fn run_starts_one_worker() {
    let mut task = LoadTypesTask::new(options());
    match task.run() {
        RunOutcome::Start(plan) => {
            assert_eq!(plan.project_root, "/proj");
            assert_eq!(plan.include_paths, vec![s("/proj/include"), s("/proj/libs")]);
            assert_eq!(plan.ignore_paths, vec![s("/proj/build/gen")]);
            assert!(plan.short_enums);
        }
        RunOutcome::AlreadyRunning => panic!("a new task must start"),
    }
    assert!(task.worker_started());
    assert!(matches!(task.run(), RunOutcome::AlreadyRunning));
    assert!(task.worker_started());
}

#[test]
fn terminate_then_run_again() {
    let mut task = LoadTypesTask::new(options());
    assert!(!task.terminate());
    task.run();
    assert!(task.terminate());
    assert!(!task.worker_started());
    assert!(!task.terminate());
    assert!(matches!(task.run(), RunOutcome::Start(_)));
}

#[test]
fn status_is_what_the_worker_reported() {
    let mut task = LoadTypesTask::new(options());
    task.set_status(s("/proj/a.h"));
    assert_eq!(task.status(), "/proj/a.h");
    task.run();
    assert_eq!(task.status(), "/proj/a.h");
    task.terminate();
    assert_eq!(task.status(), "/proj/a.h");
}

#[test]
fn task_finds_headers_with_its_ignore_paths() {
    let task = LoadTypesTask::new(options());
    let tree = dir(
        "/proj",
        vec![dir("/proj/src", vec![file("/proj/src/a.h")]), dir("/proj/build", vec![file("/proj/build/b.h")])],
    );
    assert_eq!(task.find_header_files(&tree), Vec::<String>::new());
    let inner = dir("/proj/src", vec![file("/proj/src/a.h")]);
    assert_eq!(task.find_header_files(&inner), vec![s("/proj/src/a.h")]);
}

#[test]
fn crawl_without_stop() {
    let mut p = CrawlProgress::new(3);
    assert_eq!(p.step(false), CrawlAction::Parse(0));
    assert_eq!(p.step(false), CrawlAction::Parse(1));
    assert_eq!(p.step(false), CrawlAction::Parse(2));
    assert_eq!(p.step(false), CrawlAction::Finish);
    assert!(p.done);
}

#[test]
fn crawl_of_nothing_finishes() {
    let mut p = CrawlProgress::new(0);
    assert_eq!(p.step(false), CrawlAction::Finish);
    assert!(p.done);
}

#[test]
fn crawl_stops_between_headers() {
    let mut p = CrawlProgress::new(3);
    assert_eq!(p.step(false), CrawlAction::Parse(0));
    assert_eq!(p.step(true), CrawlAction::Abort);
    assert!(p.done);
    assert_eq!(p.next, 1);
}

#[test]
fn crawl_stop_after_last_header_still_finishes() {
    let mut p = CrawlProgress::new(1);
    assert_eq!(p.step(false), CrawlAction::Parse(0));
    assert_eq!(p.step(true), CrawlAction::Finish);
}

#[test]
fn status_shows_each_header_as_it_is_crawled() {
    let headers = vec![s("/proj/a.h"), s("/proj/b.hpp")];
    let mut status = LoadTypesTask::new(options()).status();
    assert_eq!(status, "");
    let mut p = CrawlProgress::new(headers.len());
    let mut shown = Vec::new();
    loop {
        let action = p.step(false);
        status = step_status(&status, action, &headers);
        shown.push(status.clone());
        if action == CrawlAction::Finish {
            break;
        }
    }
    assert_eq!(shown, vec![s("/proj/a.h"), s("/proj/b.hpp"), s("/proj/b.hpp")]);
}

#[test]
fn status_kept_when_stopped() {
    let headers = vec![s("/proj/a.h")];
    assert_eq!(step_status(&s("/proj/z.h"), CrawlAction::Abort, &headers), "/proj/z.h");
    assert_eq!(step_status(&s(""), CrawlAction::Parse(0), &headers), "/proj/a.h");
}

#[test]
fn found_headers_are_distinct_and_inside_the_root() {
    let tree = dir(
        "/proj",
        vec![
            dir("/proj/a", vec![file("/proj/a/x.h"), file("/proj/a/y.h")]),
            dir("/proj/ab", vec![file("/proj/ab/x.h")]),
            file("/proj/x.h"),
        ],
    );
    let found = find_header_files(&vec![], &tree);
    assert_eq!(found, vec![s("/proj/a/x.h"), s("/proj/a/y.h"), s("/proj/ab/x.h"), s("/proj/x.h")]);
    for p in &found {
        assert!(p.starts_with("/proj/"));
    }
    let mut sorted = found.clone();
    sorted.sort();
    sorted.dedup();
    assert_eq!(sorted.len(), found.len());
}
