use ratatui::style::Color;
use runtara_management_sdk::{InstanceStatus, RunnerType};
use runtara_tui::rows::{
    checkpoint_row, image_row, instance_row, runner_name, CheckpointRow, ImageRow, InstanceRow,
};
use runtara_tui::{
    App, Checkpoint, CheckpointPage, CheckpointSummary, ImagePage, ImageSummary, InstanceInfo,
    InstancePage, InstanceSummary,
};

fn instance(id: &str) -> InstanceSummary {
    InstanceSummary {
        instance_id: id.to_string(),
        tenant_id: "a-tenant-with-a-long-name".to_string(),
        image_id: "image-1".to_string(),
        status: InstanceStatus::Completed,
        created_at: 1_431_648_000,
        finished_at: None,
    }
}

fn image(id: &str) -> ImageSummary {
    ImageSummary {
        image_id: id.to_string(),
        name: "billing".to_string(),
        tenant_id: "acme".to_string(),
        runner_type: RunnerType::Wasm,
        created_at: 0,
        description: None,
    }
}

fn checkpoint_summary(id: &str) -> CheckpointSummary {
    CheckpointSummary {
        checkpoint_id: id.to_string(),
        instance_id: "a".to_string(),
        created_at: 1_431_648_000,
        data_size_bytes: 2_048,
    }
}

fn info(id: &str) -> InstanceInfo {
    InstanceInfo {
        instance_id: id.to_string(),
        status: InstanceStatus::Completed,
        tenant_id: "acme".to_string(),
        image_id: "image-1".to_string(),
        image_name: "billing:3".to_string(),
        created_at: 1_700_000_000,
        started_at: None,
        finished_at: None,
        heartbeat_at: None,
        checkpoint_id: None,
        retry_count: 0,
        max_retries: 0,
        input: None,
        output: None,
        error: None,
    }
}

#[test]
fn instance_row_cuts_to_the_columns() {
    let mut summary = instance("0123456789012345678901234567890123456789");
    summary.finished_at = Some(1_431_648_000 + 61);
    let row = instance_row(&summary, true);
    assert_eq!(
        row,
        Some(InstanceRow {
            instance_id: "012345678901234567890123456789012...".to_string(),
            status: "Completed",
            status_color: Color::Green,
            tenant_id: "a-tenant-with-a-l...".to_string(),
            image_id: "image-1".to_string(),
            created_at: "2015-05-15 00:00:00".to_string(),
            finished_at: "2015-05-15 00:01:01".to_string(),
            selected: true,
        })
    );
    let row = instance_row(&instance("short"), false).unwrap();
    assert_eq!(row.instance_id, "short");
    assert_eq!(row.finished_at, "-");
    assert!(!row.selected);
}

#[test]
fn image_row_shows_a_dash_for_no_description() {
    let row = image_row(&image("img"), false);
    assert_eq!(
        row,
        Some(ImageRow {
            image_id: "img".to_string(),
            name: "billing".to_string(),
            tenant_id: "acme".to_string(),
            runner: "Wasm",
            created_at: "1970-01-01 00:00:00".to_string(),
            description: "-".to_string(),
            selected: false,
        })
    );
    let mut described = image("img");
    described.description = Some("the nightly build of the billing workflow".to_string());
    described.name = "a-name-of-more-than-thirty-bytes!".to_string();
    let row = image_row(&described, true).unwrap();
    assert_eq!(row.description, "the nightly build of the bi...");
    assert_eq!(row.name, "a-name-of-more-than-thirty-...");
    assert!(row.selected);
}

#[test]
fn runner_names() {
    assert_eq!(runner_name(RunnerType::Oci), "Oci");
    assert_eq!(runner_name(RunnerType::Native), "Native");
    assert_eq!(runner_name(RunnerType::Wasm), "Wasm");
    assert_eq!(runner_name(RunnerType::Oci), format!("{:?}", RunnerType::Oci));
    assert_eq!(runner_name(RunnerType::Native), format!("{:?}", RunnerType::Native));
    assert_eq!(runner_name(RunnerType::Wasm), format!("{:?}", RunnerType::Wasm));
}

#[test]
fn checkpoint_row_keeps_the_size() {
    let row = checkpoint_row(&checkpoint_summary("cp-1"), true);
    assert_eq!(
        row,
        Some(CheckpointRow {
            checkpoint_id: "cp-1".to_string(),
            created_at: "2015-05-15 00:00:00".to_string(),
            data_size_bytes: 2_048,
            selected: true,
        })
    );
    let long = checkpoint_summary("c23456789012345678901234567890123456789012345");
    assert_eq!(
        checkpoint_row(&long, false).unwrap().checkpoint_id,
        "c234567890123456789012345678901234567..."
    );
}

#[test]
fn a_cut_inside_a_character_gives_no_row() {
    // 17 letters of two bytes each: the tenant column would be cut at byte 17.
    let mut summary = instance("a");
    summary.tenant_id = "\u{e4}".repeat(17);
    assert_eq!(instance_row(&summary, false), None);
    summary.tenant_id = "\u{e4}".repeat(10);
    assert_eq!(instance_row(&summary, false).unwrap().tenant_id, "\u{e4}".repeat(10));

    let mut app = App::new(None, true, None, 5_000);
    let mut odd = instance("b");
    odd.instance_id = format!("{}{}", "x".repeat(32), "\u{e4}".repeat(4));
    app.instances_fetched(Ok(InstancePage { items: vec![instance("a"), odd], total_count: 2 }));
    assert_eq!(app.instance_rows(), None);

    let mut odd = image("i");
    odd.description = Some(format!("{}{}", "x".repeat(26), "\u{e4}".repeat(4)));
    assert_eq!(image_row(&odd, false), None);
    let mut odd = checkpoint_summary("c");
    odd.checkpoint_id = format!("{}{}", "x".repeat(36), "\u{e4}".repeat(4));
    assert_eq!(checkpoint_row(&odd, false), None);
}

#[test]
fn rows_follow_the_list_and_mark_the_cursor() {
    let mut app = App::new(None, true, None, 5_000);
    assert_eq!(app.instance_rows(), Some(vec![]));
    assert_eq!(app.image_rows(), Some(vec![]));
    assert_eq!(app.checkpoint_rows(), Some(vec![]));
    app.instances_fetched(Ok(InstancePage {
        items: vec![instance("a"), instance("b"), instance("c")],
        total_count: 3,
    }));
    app.images_fetched(Ok(ImagePage { items: vec![image("x"), image("y")], total_count: 2 }), 1);
    app.next_item();
    let rows = app.instance_rows().unwrap();
    assert_eq!(rows.len(), 3);
    assert_eq!(
        rows.iter().map(|r| (r.instance_id.as_str(), r.selected)).collect::<Vec<_>>(),
        vec![("a", false), ("b", true), ("c", false)]
    );
    let rows = app.image_rows().unwrap();
    assert_eq!(
        rows.iter().map(|r| (r.image_id.as_str(), r.selected)).collect::<Vec<_>>(),
        vec![("x", true), ("y", false)]
    );
    app.instance_fetched(Ok(info("b")));
    app.checkpoints_fetched(Ok(CheckpointPage {
        items: vec![checkpoint_summary("1"), checkpoint_summary("2")],
        total_count: 9,
    }));
    app.next_checkpoint();
    let rows = app.checkpoint_rows().unwrap();
    assert_eq!(
        rows.iter().map(|r| (r.checkpoint_id.as_str(), r.selected)).collect::<Vec<_>>(),
        vec![("1", false), ("2", true)]
    );
}

#[test]
fn titles_count_what_is_on_display() {
    let mut app = App::new(None, true, None, 5_000);
    assert_eq!(app.instances_title(), " Instances (0) ");
    assert_eq!(app.images_title(), " Images (0) ");
    assert_eq!(app.checkpoints_title(), Some(" Checkpoints for Unknown (0) ".to_string()));
    assert_eq!(app.checkpoint_title(), None);
    app.instances_fetched(Ok(InstancePage {
        items: (0..12).map(|i| instance(&i.to_string())).collect(),
        total_count: 400,
    }));
    app.images_fetched(Ok(ImagePage { items: vec![image("x")], total_count: 7 }), 1);
    assert_eq!(app.instances_title(), " Instances (12) ");
    assert_eq!(app.images_title(), " Images (1) ");
    app.instance_fetched(Ok(info("an-instance-with-a-long-name")));
    app.checkpoints_fetched(Ok(CheckpointPage {
        items: vec![checkpoint_summary("1")],
        total_count: 31,
    }));
    assert_eq!(
        app.checkpoints_title(),
        Some(" Checkpoints for an-instance-with-... (31) ".to_string())
    );
    app.checkpoint_fetched(Ok(Some(Checkpoint {
        checkpoint_id: "step-7/after-payment-was-captured".to_string(),
        instance_id: "an-instance-with-a-long-name".to_string(),
        created_at: 0,
        data: serde_json::Value::Null,
    })));
    assert_eq!(
        app.checkpoint_title(),
        Some(" Checkpoint: step-7/after-payment-was-ca... ".to_string())
    );
}

#[test]
fn notes_of_header_and_footer() {
    let mut app = App::new(None, true, None, 5_000);
    assert_eq!(app.connection_label(), " Disconnected ");
    assert_eq!(app.tenant_note(), "");
    assert_eq!(app.refresh_note(1_000), "");
    assert_eq!(app.last_refresh_note(1_000), "Never");
    app.connected = true;
    app.tenant_id = Some("acme".to_string());
    app.last_refresh = Some(1_000);
    assert_eq!(app.connection_label(), " Connected ");
    assert_eq!(app.tenant_note(), " | Tenant: acme");
    assert_eq!(app.refresh_note(1_000), " | Next refresh in 5s");
    assert_eq!(app.refresh_note(3_500), " | Next refresh in 3s");
    assert_eq!(app.refresh_note(60_000), " | Next refresh in 0s");
    assert_eq!(app.last_refresh_note(1_000), "0s ago");
    assert_eq!(app.last_refresh_note(76_999), "75s ago");
    app.instances_fetched(Ok(InstancePage { items: vec![instance("a")], total_count: 1 }));
    app.instance_fetched(Ok(info("a")));
    assert_eq!(app.refresh_note(3_500), "");
    assert_eq!(app.last_refresh_note(3_500), "2s ago");
}
