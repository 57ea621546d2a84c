use cross_seed::client::{SearchResults, TorznabClient};
use cross_seed::error::{ClientError, TransportError};
use cross_seed::orchestrator::{
    ClientSlot, IndexerRecord, IndexerStatus, RunReport, SearchTask, TaskOutcome, plan_run,
    torrent_query,
};

fn indexer(name: &str, enabled: Option<bool>) -> IndexerRecord {
    IndexerRecord {
        name: name.to_string(),
        enabled,
        url: format!("http://{}.example", name),
        api_key: "SECRET-REDACTED".to_string(),
    }
}

fn names(names: &[&str]) -> Vec<String> {
    names.iter().map(|n| n.to_string()).collect()
}

fn transport_failure() -> TaskOutcome {
    TaskOutcome::Failed(ClientError::HttpError(TransportError {
        status: None,
        message: "connection refused".to_string(),
    }))
}

fn success(results: Vec<cross_seed::torrent_result::TorrentResult>) -> TaskOutcome {
    TaskOutcome::Success(SearchResults {
        results,
        item_errors: Vec::new(),
    })
}

#[test]
fn three_torrents_two_indexers_is_six_tasks() {
    let torrents = names(&["A.S01E01", "B.S02E03", "C.2019"]);
    let indexers = vec![indexer("alpha", Some(true)), indexer("beta", None)];
    let plan = plan_run(&torrents, &indexers);
    assert_eq!(plan.n_torrents, 3);
    assert_eq!(plan.tasks.len(), 6);
    assert_eq!(plan.statuses, vec![IndexerStatus::Active, IndexerStatus::Active]);
    for t in 0..3 {
        for j in 0..2 {
            assert!(plan
                .tasks
                .iter()
                .any(|task| task.torrent == t && task.indexer == j));
        }
    }
}

#[test]
fn disabled_indexer_is_skipped_not_failed() {
    let torrents = names(&["Example.S01E01"]);
    let indexers = vec![indexer("alpha", None), indexer("beta", Some(false))];
    let plan = plan_run(&torrents, &indexers);
    assert_eq!(plan.tasks.len(), 1);
    assert_eq!(plan.tasks[0], SearchTask { torrent: 0, indexer: 0 });
    assert_eq!(plan.statuses, vec![IndexerStatus::Active, IndexerStatus::Skipped]);
}

#[test]
fn no_enabled_indexers_means_no_tasks() {
    let torrents = names(&["Example.S01E01"]);
    let indexers = vec![indexer("alpha", Some(false))];
    let plan = plan_run(&torrents, &indexers);
    assert!(plan.tasks.is_empty());
    assert_eq!(plan.statuses, vec![IndexerStatus::Skipped]);
}

#[test]
fn torrent_query_is_name_only() {
    let q = torrent_query("Example.S01E01");
    assert_eq!(q.query.as_deref(), Some("Example.S01E01"));
    assert!(q.categories.is_empty());
    assert!(q.attributes.is_empty());
    assert_eq!(q.to_params(), "&q=Example.S01E01");
}

#[test]
fn report_fills_in_any_order() {
    let torrents = names(&["A", "B", "C"]);
    let indexers = vec![indexer("alpha", None), indexer("beta", None)];
    let plan = plan_run(&torrents, &indexers);
    let mut report = RunReport::new(&plan);
    assert!(!report.is_complete());
    for k in [5usize, 0, 3, 1, 4, 2] {
        report.record(k, success(Vec::new()));
    }
    assert!(report.is_complete());
}

#[test]
fn one_indexer_failing_does_not_touch_the_other() {
    let torrents = names(&["A", "B", "C"]);
    let indexers = vec![indexer("alpha", None), indexer("beta", None)];
    let plan = plan_run(&torrents, &indexers);
    let mut report = RunReport::new(&plan);
    for (k, task) in plan.tasks.iter().enumerate() {
        if task.indexer == 0 {
            report.record(k, success(Vec::new()));
        } else {
            report.record(k, transport_failure());
        }
    }
    let alpha_successes = plan
        .tasks
        .iter()
        .zip(report.outcomes.iter())
        .filter(|(task, outcome)| {
            task.indexer == 0 && matches!(outcome, Some(TaskOutcome::Success(_)))
        })
        .count();
    assert_eq!(alpha_successes, 3);
    assert!(report.is_complete());
}

#[test]
fn client_slot_installs_once() {
    let mut slot = ClientSlot::Vacant;
    assert!(slot.needs_init());
    assert!(slot.client().is_none());
    let client = TorznabClient::new_no_capabilities(
        "alpha".to_string(),
        "http://alpha.example",
        "SECRET-REDACTED",
    );
    slot.install(client);
    assert!(!slot.needs_init());
    let held = slot.client().unwrap();
    assert_eq!(held.name, "alpha");
}
