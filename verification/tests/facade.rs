use gh_rs::config::{load_options, AppOptions};
use gh_rs::facade::{App, FetchError, JobInfo, JobItem, RunInfo, RunItem};

fn options() -> AppOptions {
    load_options(
        None,
        Some("tok".to_string()),
        Some("octocat".to_string()),
        Some("hello-world".to_string()),
        None,
        None,
    )
    .unwrap()
}

fn run_item(id: u64, name: &str) -> RunItem {
    RunItem {
        id,
        name: name.to_string(),
        status: "completed".to_string(),
    }
}

fn job_item(id: u64, run_id: u64, name: &str) -> JobItem {
    JobItem {
        id,
        run_id,
        name: name.to_string(),
        status: "completed".to_string(),
    }
}

fn runs_of(r: Result<Vec<RunInfo>, FetchError>) -> Vec<RunInfo> {
    match r {
        Ok(v) => v,
        Err(e) => panic!("expected Ok, got {:?}", e),
    }
}

fn jobs_of(r: Result<Vec<JobInfo>, FetchError>) -> Vec<JobInfo> {
    match r {
        Ok(v) => v,
        Err(e) => panic!("expected Ok, got {:?}", e),
    }
}

#[test]
fn new_binds_options() {
    let app = App::new(options());
    assert_eq!(app.opts.gh_user, "octocat");
    assert_eq!(app.opts.repo_name, "hello-world");
}

#[test]
fn runs_request_asks_for_first_page() {
    let app = App::new(options());
    let req = app.runs_request();
    assert_eq!(req.owner, "octocat");
    assert_eq!(req.repo, "hello-world");
    assert_eq!(req.per_page, 50);
    assert_eq!(req.page, 1);
}

#[test]
fn jobs_request_asks_for_first_page() {
    let app = App::new(options());
    let req = app.jobs_request(77);
    assert_eq!(req.owner, "octocat");
    assert_eq!(req.repo, "hello-world");
    assert_eq!(req.run_id, 77);
    assert_eq!(req.per_page, 50);
    assert_eq!(req.page, 1);
}

#[test]
fn three_runs_map_in_order() {
    let app = App::new(options());
    let items = vec![run_item(5, "build"), run_item(3, "test"), run_item(9, "deploy")];
    let infos = runs_of(app.get_runs(Ok(items)));
    assert_eq!(infos.len(), 3);
    assert_eq!(infos[0].id, 5);
    assert_eq!(infos[0].name, "build");
    assert_eq!(infos[1].id, 3);
    assert_eq!(infos[1].name, "test");
    assert_eq!(infos[2].id, 9);
    assert_eq!(infos[2].name, "deploy");
}

#[test]
fn runs_capped_at_page_size() {
    let app = App::new(options());
    let mut items = Vec::new();
    for i in 0..60u64 {
        items.push(run_item(i, "run"));
    }
    let infos = runs_of(app.get_runs(Ok(items)));
    assert_eq!(infos.len(), 50);
    for (i, info) in infos.iter().enumerate() {
        assert_eq!(info.id, i as u64);
    }
}

#[test]
fn jobs_capped_at_page_size() {
    let app = App::new(options());
    let mut items = Vec::new();
    for i in 0..123u64 {
        items.push(job_item(i, 7, "job"));
    }
    let infos = jobs_of(app.get_jobs(Ok(items)));
    assert_eq!(infos.len(), 50);
    for (i, info) in infos.iter().enumerate() {
        assert_eq!(info.id, i as u64);
        assert_eq!(info.run_id, 7);
    }
}

#[test]
fn zero_jobs_yield_empty_sequence() {
    let app = App::new(options());
    let infos = jobs_of(app.get_jobs(Ok(Vec::new())));
    assert!(infos.is_empty());
}

#[test]
fn jobs_map_preserves_fields_and_order() {
    let app = App::new(options());
    let items = vec![job_item(11, 7, "lint"), job_item(12, 7, "unit")];
    let infos = jobs_of(app.get_jobs(Ok(items)));
    assert_eq!(infos.len(), 2);
    assert_eq!(infos[0].id, 11);
    assert_eq!(infos[0].run_id, 7);
    assert_eq!(infos[0].name, "lint");
    assert_eq!(infos[1].id, 12);
    assert_eq!(infos[1].run_id, 7);
    assert_eq!(infos[1].name, "unit");
}

#[test]
fn run_fetch_failure_is_passed_through() {
    let app = App::new(options());
    match app.get_runs(Err(FetchError::Network)) {
        Ok(_) => panic!("expected the failure back"),
        Err(e) => assert_eq!(e, FetchError::Network),
    }
}

#[test]
fn job_fetch_failure_is_passed_through() {
    let app = App::new(options());
    match app.get_jobs(Err(FetchError::Authentication)) {
        Ok(_) => panic!("expected the failure back"),
        Err(e) => assert_eq!(e, FetchError::Authentication),
    }
    match app.get_jobs(Err(FetchError::NotFound)) {
        Ok(_) => panic!("expected the failure back"),
        Err(e) => assert_eq!(e, FetchError::NotFound),
    }
}
