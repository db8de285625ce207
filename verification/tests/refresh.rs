use runtara_management_sdk::{
    HealthStatus, InstanceStatus, MetricsBucket, MetricsGranularity, RunnerType,
};
use runtara_tui::{
    App, AppError, ConnectError, Fetch, ImagePage, ImageSummary, InstanceInfo, InstancePage,
    InstanceSummary,
    Operation, Request, StatusFilter, TenantMetrics, ViewMode, PAGE_LIMIT,
};

fn instance(id: &str) -> InstanceSummary {
    InstanceSummary {
        instance_id: id.to_string(),
        tenant_id: "acme".to_string(),
        image_id: "image-1".to_string(),
        status: InstanceStatus::Running,
        created_at: 1_700_000_000,
        finished_at: Some(1_700_000_060),
    }
}

fn image(id: &str) -> ImageSummary {
    ImageSummary {
        image_id: id.to_string(),
        name: "billing".to_string(),
        tenant_id: "acme".to_string(),
        runner_type: RunnerType::Native,
        created_at: 1_700_000_000,
        description: Some("nightly".to_string()),
    }
}

fn info(id: &str) -> InstanceInfo {
    InstanceInfo {
        instance_id: id.to_string(),
        status: InstanceStatus::Completed,
        tenant_id: "acme".to_string(),
        image_id: "image-1".to_string(),
        image_name: "billing:3".to_string(),
        created_at: 1_700_000_000,
        started_at: Some(1_700_000_001),
        finished_at: Some(1_700_000_060),
        heartbeat_at: None,
        checkpoint_id: None,
        retry_count: 0,
        max_retries: 3,
        input: Some(serde_json::Value::Bool(true)),
        output: None,
        error: None,
    }
}

fn instances(ids: &[&str], total: u32) -> Result<InstancePage, String> {
    Ok(InstancePage { items: ids.iter().map(|id| instance(id)).collect(), total_count: total })
}

fn images(ids: &[&str], total: u32) -> Result<ImagePage, String> {
    Ok(ImagePage { items: ids.iter().map(|id| image(id)).collect(), total_count: total })
}

fn health(version: &str) -> Result<HealthStatus, String> {
    Ok(HealthStatus {
        healthy: true,
        version: version.to_string(),
        uptime_ms: 90_000,
        active_instances: 3,
    })
}

fn metrics(buckets: usize) -> Result<TenantMetrics, String> {
    let bucket = MetricsBucket {
        bucket_time: chrono::DateTime::from_timestamp(1_700_000_000, 0).unwrap(),
        invocation_count: 4,
        success_count: 4,
        failure_count: 0,
        cancelled_count: 0,
        avg_duration_seconds: None,
        min_duration_seconds: None,
        max_duration_seconds: None,
        avg_memory_bytes: None,
        max_memory_bytes: None,
        success_rate_percent: Some(100.0),
    };
    Ok(TenantMetrics {
        start_time: 1_700_000_000,
        end_time: 1_700_003_600,
        buckets: (0..buckets).map(|_| bucket.clone()).collect(),
    })
}

/// The answers that a server gives in one cycle.
struct Server {
    connect: Result<(), ConnectError>,
    health: Result<HealthStatus, String>,
    instances: Result<InstancePage, String>,
    images: Result<ImagePage, String>,
    metrics: Result<TenantMetrics, String>,
}

fn server() -> Server {
    Server {
        connect: Ok(()),
        health: health("1.6.4"),
        instances: instances(&["a", "b", "c"], 3),
        images: images(&["x", "y"], 2),
        metrics: metrics(2),
    }
}

/// Runs one refresh cycle against `server` and returns the requests made.
fn run(app: &mut App, server: Server, now: u64) -> Vec<Request> {
    assert!(app.is_wf());
    let Server { connect, health, instances, images, metrics } = server;
    let (mut connect, mut health, mut instances, mut images, mut metrics) =
        (Some(connect), Some(health), Some(instances), Some(images), Some(metrics));
    let mut asked = Vec::new();
    let mut next = Some(app.refresh());
    while let Some(request) = next {
        next = match &request {
            Request::Connect => app.connected(Operation::Refresh, connect.take().unwrap(), now),
            Request::HealthCheck => app.health_fetched(health.take().unwrap()),
            Request::ListInstances { .. } => app.instances_fetched(instances.take().unwrap()),
            Request::ListImages { .. } => app.images_fetched(images.take().unwrap(), now),
            Request::GetTenantMetrics { .. } => app.metrics_fetched(metrics.take().unwrap(), now),
            other => panic!("a refresh does not ask for {:?}", other),
        };
        asked.push(request);
        assert!(app.is_wf());
    }
    asked
}

#[test]
fn refresh_asks_in_order_with_a_tenant() {
    let mut app = App::new(None, true, Some("acme".to_string()), 5_000);
    app.cycle_status_filter();
    app.toggle_metrics_granularity();
    let asked = run(&mut app, server(), 42);
    assert_eq!(
        asked,
        vec![
            Request::Connect,
            Request::HealthCheck,
            Request::ListInstances {
                tenant_id: Some("acme".to_string()),
                status: Some(InstanceStatus::Running),
                limit: 100,
            },
            Request::ListImages { tenant_id: Some("acme".to_string()), limit: 100 },
            Request::GetTenantMetrics {
                tenant_id: "acme".to_string(),
                granularity: MetricsGranularity::Daily,
            },
        ]
    );
    assert_eq!(PAGE_LIMIT, 100);
}

#[test]
fn refresh_without_a_tenant_asks_for_no_metrics() {
    let mut app = App::new(None, true, None, 5_000);
    let asked = run(&mut app, server(), 42);
    assert_eq!(
        asked,
        vec![
            Request::Connect,
            Request::HealthCheck,
            Request::ListInstances { tenant_id: None, status: None, limit: 100 },
            Request::ListImages { tenant_id: None, limit: 100 },
        ]
    );
    assert!(app.metrics.is_none());
    assert_eq!(app.last_refresh, Some(42));
}

#[test]
fn refresh_commits_everything_that_came() {
    let mut app = App::new(None, true, Some("acme".to_string()), 5_000);
    run(&mut app, server(), 1_000);
    assert!(app.connected);
    assert_eq!(app.error, None);
    assert_eq!(app.health.as_ref().unwrap().version, "1.6.4");
    assert_eq!(app.health.as_ref().unwrap().uptime_ms, 90_000);
    assert_eq!(app.instances, vec![instance("a"), instance("b"), instance("c")]);
    assert_eq!(app.instances_total, 3);
    assert_eq!(app.images, vec![image("x"), image("y")]);
    assert_eq!(app.images_total, 2);
    assert_eq!(app.metrics.as_ref().unwrap().buckets.len(), 2);
    assert_eq!(app.metrics.as_ref().unwrap().end_time, 1_700_003_600);
    assert_eq!(app.last_refresh, Some(1_000));
    assert_eq!(app.view_mode, ViewMode::List);
}

#[test]
fn refresh_clears_the_error_of_the_cycle_before() {
    let mut app = App::new(None, true, None, 5_000);
    app.set_error(AppError::CheckpointNotFound);
    let first = app.refresh();
    assert_eq!(first, Request::Connect);
    assert_eq!(app.error, None);
}

#[test]
fn total_may_exceed_the_page() {
    let mut app = App::new(None, true, None, 5_000);
    let mut answers = server();
    answers.instances = instances(&["a", "b"], 2_500);
    answers.images = images(&["x"], 101);
    run(&mut app, answers, 7);
    assert_eq!(app.instances.len(), 2);
    assert_eq!(app.instances_total, 2_500);
    assert_eq!(app.images.len(), 1);
    assert_eq!(app.images_total, 101);
}

#[test]
fn empty_list_with_running_filter() {
    let mut app = App::new(None, true, None, 5_000);
    app.cycle_status_filter();
    assert_eq!(app.status_filter, StatusFilter::Running);
    let mut answers = server();
    answers.instances = instances(&[], 0);
    let asked = run(&mut app, answers, 7);
    assert_eq!(
        asked[2],
        Request::ListInstances {
            tenant_id: None,
            status: Some(InstanceStatus::Running),
            limit: 100,
        }
    );
    assert!(app.instances.is_empty());
    assert_eq!(app.instances_total, 0);
    assert_eq!(app.instances_selected, 0);
    assert_eq!(app.error, None);
    app.next_item();
    app.previous_item();
    assert_eq!(app.instances_selected, 0);
    assert_eq!(app.open_instance_detail(), None);
}

#[test]
fn shrinking_list_moves_the_cursor_to_the_last_row() {
    let mut app = App::new(None, true, None, 5_000);
    run(&mut app, server(), 7);
    app.next_item();
    app.next_item();
    assert_eq!(app.instances_selected, 2);
    let mut answers = server();
    answers.instances = instances(&["a"], 1);
    run(&mut app, answers, 8);
    assert_eq!(app.instances.len(), 1);
    assert_eq!(app.instances_selected, 0);
}

#[test]
fn cursor_clamps_to_the_last_row() {
    let mut app = App::new(None, true, Some("acme".to_string()), 5_000);
    let mut answers = server();
    answers.instances = instances(&["a", "b", "c", "d", "e"], 5);
    answers.images = images(&["v", "w", "x", "y"], 4);
    answers.metrics = metrics(6);
    run(&mut app, answers, 1);
    for _ in 0..4 {
        app.next_item();
    }
    app.set_tab(1);
    for _ in 0..3 {
        app.next_item();
    }
    app.set_tab(2);
    for _ in 0..5 {
        app.next_item();
    }
    assert_eq!((app.instances_selected, app.images_selected, app.metrics_selected), (4, 3, 5));
    let mut answers = server();
    answers.instances = instances(&["a", "b", "c"], 3);
    answers.images = images(&["v", "w"], 2);
    answers.metrics = metrics(4);
    run(&mut app, answers, 2);
    assert_eq!((app.instances_selected, app.images_selected, app.metrics_selected), (2, 1, 3));
    // A list that grows or keeps its length leaves the cursor alone.
    let mut answers = server();
    answers.instances = instances(&["a", "b", "c", "d"], 4);
    answers.images = images(&["v", "w"], 2);
    answers.metrics = metrics(9);
    run(&mut app, answers, 3);
    assert_eq!((app.instances_selected, app.images_selected, app.metrics_selected), (2, 1, 3));
    // An empty list puts it on 0.
    let mut answers = server();
    answers.instances = instances(&[], 0);
    answers.images = images(&[], 0);
    answers.metrics = metrics(0);
    run(&mut app, answers, 4);
    assert_eq!((app.instances_selected, app.images_selected, app.metrics_selected), (0, 0, 0));
}

#[test]
fn failed_connect_keeps_the_display() {
    let mut app = App::new(None, true, Some("acme".to_string()), 5_000);
    run(&mut app, server(), 1_000);
    app.next_item();
    let mut answers = server();
    answers.connect = Err(ConnectError::Unreachable("connection refused".to_string()));
    answers.health = health("9.9.9");
    answers.instances = instances(&["z"], 1);
    answers.images = images(&[], 0);
    answers.metrics = metrics(7);
    let asked = run(&mut app, answers, 9_000);
    assert_eq!(asked, vec![Request::Connect]);
    assert!(!app.connected);
    assert_eq!(app.error, Some(AppError::Connection("connection refused".to_string())));
    assert_eq!(app.error.as_ref().unwrap().message(), "Connection failed: connection refused");
    assert_eq!(app.health.as_ref().unwrap().version, "1.6.4");
    assert_eq!(app.instances, vec![instance("a"), instance("b"), instance("c")]);
    assert_eq!(app.instances_total, 3);
    assert_eq!(app.instances_selected, 1);
    assert_eq!(app.images, vec![image("x"), image("y")]);
    assert_eq!(app.metrics.as_ref().unwrap().buckets.len(), 2);
    assert_eq!(app.last_refresh, Some(9_000));
}

#[test]
fn client_that_cannot_be_set_up_ends_the_cycle() {
    let mut app = App::new(None, true, None, 5_000);
    let mut answers = server();
    answers.connect = Err(ConnectError::Client("no tls provider".to_string()));
    let asked = run(&mut app, answers, 3);
    assert_eq!(asked, vec![Request::Connect]);
    assert!(!app.connected);
    assert_eq!(app.error.as_ref().unwrap().message(), "Failed to create SDK: no tls provider");
    assert!(app.instances.is_empty());
    assert_eq!(app.last_refresh, Some(3));
}

#[test]
fn partial_failure_commits_the_rest() {
    let mut app = App::new(None, true, Some("acme".to_string()), 5_000);
    run(&mut app, server(), 1_000);
    app.next_item();
    let mut answers = server();
    answers.instances = Err("timed out".to_string());
    answers.images = images(&["p", "q", "r"], 30);
    let asked = run(&mut app, answers, 2_000);
    assert_eq!(asked.len(), 5);
    assert!(app.connected);
    assert_eq!(app.images, vec![image("p"), image("q"), image("r")]);
    assert_eq!(app.images_total, 30);
    assert_eq!(app.instances, vec![instance("a"), instance("b"), instance("c")]);
    assert_eq!(app.instances_total, 3);
    assert_eq!(app.instances_selected, 1);
    assert_eq!(app.error, Some(AppError::Request(Fetch::Instances, "timed out".to_string())));
    assert_eq!(app.error.as_ref().unwrap().message(), "Failed to list instances: timed out");
    assert_eq!(app.last_refresh, Some(2_000));
}

#[test]
fn last_error_wins() {
    let mut app = App::new(None, true, Some("acme".to_string()), 5_000);
    let mut answers = server();
    answers.health = Err("h".to_string());
    answers.instances = Err("i".to_string());
    answers.images = Err("g".to_string());
    answers.metrics = Err("m".to_string());
    let asked = run(&mut app, answers, 5);
    assert_eq!(asked.len(), 5);
    assert!(app.connected);
    assert_eq!(app.error, Some(AppError::Request(Fetch::Metrics, "m".to_string())));
    assert!(app.health.is_none());
    assert!(app.instances.is_empty());
    assert!(app.images.is_empty());
    assert!(app.metrics.is_none());
    assert_eq!(app.last_refresh, Some(5));

    let mut app = App::new(None, true, None, 5_000);
    let mut answers = server();
    answers.health = Err("h".to_string());
    answers.instances = Err("i".to_string());
    run(&mut app, answers, 6);
    assert_eq!(app.error, Some(AppError::Request(Fetch::Instances, "i".to_string())));
    assert_eq!(app.images.len(), 2);

    let mut app = App::new(None, true, None, 5_000);
    let mut answers = server();
    answers.health = Err("h".to_string());
    run(&mut app, answers, 6);
    assert_eq!(app.error, Some(AppError::Request(Fetch::Health, "h".to_string())));
    assert_eq!(app.error.as_ref().unwrap().message(), "Health check failed: h");
    assert_eq!(app.instances.len(), 3);
}

#[test]
fn failed_fetches_keep_what_was_on_display() {
    let mut app = App::new(None, true, Some("acme".to_string()), 5_000);
    run(&mut app, server(), 1);
    let mut answers = server();
    answers.health = Err("h".to_string());
    answers.images = Err("g".to_string());
    answers.metrics = Err("m".to_string());
    answers.instances = instances(&["n"], 1);
    run(&mut app, answers, 2);
    assert_eq!(app.health.as_ref().unwrap().version, "1.6.4");
    assert_eq!(app.images, vec![image("x"), image("y")]);
    assert_eq!(app.metrics.as_ref().unwrap().buckets.len(), 2);
    assert_eq!(app.instances, vec![instance("n")]);
    assert_eq!(app.error.as_ref().unwrap().message(), "Failed to get metrics: m");
    assert_eq!(app.last_refresh, Some(2));
}

#[test]
fn refresh_reaches_the_base_lists_from_a_detail_frame() {
    let mut app = App::new(None, true, None, 5_000);
    run(&mut app, server(), 1);
    assert_eq!(app.open_instance_detail(), Some(Request::Connect));
    let next = app.connected(Operation::OpenInstance, Ok(()), 2);
    assert_eq!(next, Some(Request::GetInstance { instance_id: "a".to_string() }));
    app.instance_fetched(Ok(info("a")));
    assert_eq!(app.view_mode, ViewMode::InstanceDetail);
    app.scroll_down();
    let mut answers = server();
    answers.instances = instances(&["k"], 1);
    run(&mut app, answers, 3);
    assert_eq!(app.instances, vec![instance("k")]);
    assert_eq!(app.view_mode, ViewMode::InstanceDetail);
    assert_eq!(app.instance_detail.as_ref().unwrap().instance_id, "a");
    assert_eq!(app.detail_scroll, 1);
    assert_eq!(app.last_refresh, Some(3));
}

#[test]
fn auto_refresh_follows_the_stamp() {
    let mut app = App::new(None, true, None, 5_000);
    assert!(app.should_refresh(100));
    run(&mut app, server(), 100);
    assert!(!app.should_refresh(100));
    assert!(!app.should_refresh(5_099));
    assert!(app.should_refresh(5_100));
    let mut answers = server();
    answers.connect = Err(ConnectError::Unreachable("down".to_string()));
    run(&mut app, answers, 5_100);
    assert!(!app.should_refresh(5_200));
    assert!(app.should_refresh(10_100));
}
