use agpt_we::archive::render_markdown;
use agpt_we::model::SearchResult;
use agpt_we::nav::{content_nav_plan, search_nav_plan, NavController, NavDirective, NavEvent};
use agpt_we::run::{RunDirective, RunError, RunMachine};

fn fresh_hit(title: &str, url: &str) -> SearchResult {
    SearchResult {
        title: title.to_string(),
        url: url.to_string(),
        content: None,
    }
}

#[test]
fn nav_plans_carry_the_fixed_policy() {
    let p = search_nav_plan("u".to_string());
    assert_eq!(p.ready_selector, "a.result__a");
    assert_eq!(p.max_attempts, 5);
    assert_eq!(p.retry_wait_ms, 1000);
    assert_eq!(p.settle_ms, 1000);
    let q = content_nav_plan("v".to_string());
    assert_eq!(q.ready_selector, "body");
    assert_eq!(q.max_attempts, 4);
    assert_eq!(q.retry_wait_ms, 1500);
    assert_eq!(q.settle_ms, 3000);
}

#[test]
fn navigation_succeeds_as_soon_as_ready_is_seen() {
    let mut ctl = NavController::start(search_nav_plan("u".to_string()));
    assert!(ctl.running());
    let d = ctl.record(NavEvent::ReadyMissing);
    assert!(matches!(d, NavDirective::PauseAndRetry { ms: 1000 }));
    assert!(ctl.running());
    let d = ctl.record(NavEvent::IssueFailed);
    assert!(matches!(d, NavDirective::PauseAndRetry { ms: 1000 }));
    let d = ctl.record(NavEvent::ReadySeen);
    assert!(matches!(d, NavDirective::Settle { ms: 1000 }));
    assert!(!ctl.running());
    assert_eq!(ctl.attempts_made, 3);
}

#[test]
fn navigation_gives_up_after_the_attempt_bound() {
    let mut ctl = NavController::start(content_nav_plan("v".to_string()));
    for _ in 0..3 {
        let d = ctl.record(NavEvent::ReadyMissing);
        assert!(matches!(d, NavDirective::PauseAndRetry { ms: 1500 }));
        assert!(ctl.running());
    }
    let d = ctl.record(NavEvent::ReadyMissing);
    assert!(matches!(d, NavDirective::GiveUp { attempts: 4 }));
    assert!(!ctl.running());
    let e = ctl.failure();
    assert_eq!(e.selector, "body");
    assert_eq!(e.attempts, 4);
}

#[test]
fn one_failed_fetch_does_not_abort_the_run() {
    // Fetch succeeds for A and C, fails for B; the archive is still written and
    // B's content is the failure placeholder.
    let mut run = RunMachine::start("rust tutorial".to_string());
    assert!(matches!(run.directive(), RunDirective::DoSearch));
    run.on_search_ok(vec![
        fresh_hit("A", "http://a"),
        fresh_hit("B", "http://b"),
        fresh_hit("C", "http://c"),
    ]);
    assert!(matches!(run.directive(), RunDirective::DoFetch { idx: 0 }));
    run.on_fetch(Ok("<html>a</html>".to_string()));
    assert!(matches!(run.directive(), RunDirective::DoFetch { idx: 1 }));
    run.on_fetch(Err("boom".to_string()));
    assert!(matches!(run.directive(), RunDirective::DoFetch { idx: 2 }));
    run.on_fetch(Ok("<html>c</html>".to_string()));
    assert!(matches!(run.directive(), RunDirective::DoWrite));
    assert_eq!(
        run.results[1].content.as_deref(),
        Some("Failed to fetch content: boom")
    );

    let md = render_markdown("rust tutorial", &run.results);
    let expected = "# Query: rust tutorial\n\n## Results\n\
                    - [A](http://a)\n- [B](http://b)\n- [C](http://c)\n\
                    \n---\n\n## Page Content\n\
                    \n### A\n<html>a</html>\n\
                    \n### B\nFailed to fetch content: boom\n\
                    \n### C\n<html>c</html>\n";
    assert_eq!(md, expected);

    run.on_write(true);
    assert!(matches!(run.directive(), RunDirective::ReportSuccess));
}

#[test]
fn failed_search_is_fatal_and_nothing_is_written() {
    let mut run = RunMachine::start("q".to_string());
    run.on_search_failed();
    assert!(matches!(run.directive(), RunDirective::ReportFailure));
    assert!(run.results.is_empty());
}

#[test]
fn search_with_no_hits_still_writes_the_archive() {
    let mut run = RunMachine::start("q".to_string());
    run.on_search_ok(Vec::new());
    assert!(matches!(run.directive(), RunDirective::DoWrite));
    let md = render_markdown("q", &run.results);
    assert_eq!(md, "# Query: q\n\n## Results\n\n---\n\n## Page Content\n");
    run.on_write(true);
    assert!(matches!(run.directive(), RunDirective::ReportSuccess));
}

#[test]
fn failed_write_is_reported() {
    let mut run = RunMachine::start("q".to_string());
    run.on_search_ok(Vec::new());
    run.on_write(false);
    assert!(matches!(run.directive(), RunDirective::ReportFailure));
}

#[test]
fn record_content_never_leaves_content_absent() {
    let mut hit = fresh_hit("t", "u");
    hit.record_content(Ok("<html></html>".to_string()));
    assert_eq!(hit.content.as_deref(), Some("<html></html>"));
    let mut hit2 = fresh_hit("t", "u");
    hit2.record_content(Err("no route".to_string()));
    assert_eq!(
        hit2.content.as_deref(),
        Some("Failed to fetch content: no route")
    );
    assert_eq!(hit2.title, "t");
    assert_eq!(hit2.url, "u");
}

#[test]
fn error_kinds_describe_themselves() {
    let launch = RunError::Launch {
        detail: "no binary".to_string(),
    };
    assert_eq!(launch.describe(), "failed to launch the browser: no binary");
    let nav = RunError::Navigation {
        selector: "a.result__a".to_string(),
        attempts: 5,
    };
    assert_eq!(
        nav.describe(),
        "navigation failed: readiness signal 'a.result__a' never appeared"
    );
    let io = RunError::Io {
        detail: "disk full".to_string(),
    };
    assert_eq!(io.describe(), "could not write the archive: disk full");
}
