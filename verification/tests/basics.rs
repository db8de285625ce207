use runtara_management_sdk::InstanceStatus;
use runtara_tui::selection::{clamp, step_down, step_up};
use runtara_tui::{StatusFilter, Tab, ViewMode};

#[test]
fn status_filter_names() {
    assert_eq!(StatusFilter::All.as_str(), "All");
    assert_eq!(StatusFilter::Running.as_str(), "Running");
    assert_eq!(StatusFilter::Completed.as_str(), "Completed");
    assert_eq!(StatusFilter::Failed.as_str(), "Failed");
    assert_eq!(StatusFilter::Pending.as_str(), "Pending");
    assert_eq!(StatusFilter::Suspended.as_str(), "Suspended");
}

#[test]
fn status_filter_order() {
    assert_eq!(StatusFilter::All.next(), StatusFilter::Running);
    assert_eq!(StatusFilter::Running.next(), StatusFilter::Completed);
    assert_eq!(StatusFilter::Completed.next(), StatusFilter::Failed);
    assert_eq!(StatusFilter::Failed.next(), StatusFilter::Pending);
    assert_eq!(StatusFilter::Pending.next(), StatusFilter::Suspended);
    assert_eq!(StatusFilter::Suspended.next(), StatusFilter::All);
}

#[test]
fn status_filter_comes_round_in_six_steps() {
    let start = StatusFilter::All;
    let mut filter = start;
    for step in 1..=6 {
        filter = filter.next();
        if step < 6 {
            assert_ne!(filter, start);
        }
    }
    assert_eq!(filter, StatusFilter::All);
}

#[test]
fn status_filter_to_instance_status() {
    assert_eq!(StatusFilter::All.to_instance_status(), None);
    assert_eq!(StatusFilter::Running.to_instance_status(), Some(InstanceStatus::Running));
    assert_eq!(StatusFilter::Completed.to_instance_status(), Some(InstanceStatus::Completed));
    assert_eq!(StatusFilter::Failed.to_instance_status(), Some(InstanceStatus::Failed));
    assert_eq!(StatusFilter::Pending.to_instance_status(), Some(InstanceStatus::Pending));
    assert_eq!(StatusFilter::Suspended.to_instance_status(), Some(InstanceStatus::Suspended));
}

#[test]
fn defaults_are_the_first_variants() {
    assert_eq!(StatusFilter::default(), StatusFilter::All);
    assert_eq!(Tab::default(), Tab::Instances);
    assert_eq!(ViewMode::default(), ViewMode::List);
}

#[test]
fn tab_names() {
    assert_eq!(Tab::Instances.as_str(), "Instances");
    assert_eq!(Tab::Images.as_str(), "Images");
    assert_eq!(Tab::Metrics.as_str(), "Metrics");
    assert_eq!(Tab::Health.as_str(), "Health");
}

#[test]
fn tab_all_is_the_tab_bar() {
    let tabs = Tab::all();
    assert_eq!(tabs.len(), 4);
    assert_eq!(tabs[0], Tab::Instances);
    assert_eq!(tabs[1], Tab::Images);
    assert_eq!(tabs[2], Tab::Metrics);
    assert_eq!(tabs[3], Tab::Health);
    for (position, tab) in tabs.iter().enumerate() {
        assert_eq!(tab.index(), position);
        assert_eq!(Tab::from_index(position), *tab);
    }
}

#[test]
fn tab_from_index_outside_the_bar_is_instances() {
    assert_eq!(Tab::from_index(4), Tab::Instances);
    assert_eq!(Tab::from_index(usize::MAX), Tab::Instances);
}

#[test]
fn step_down_wraps_at_the_end() {
    assert_eq!(step_down(0, 3), 1);
    assert_eq!(step_down(1, 3), 2);
    assert_eq!(step_down(2, 3), 0);
    assert_eq!(step_down(0, 1), 0);
    assert_eq!(step_down(0, 0), 0);
}

#[test]
fn step_up_wraps_at_the_start() {
    assert_eq!(step_up(0, 3), 2);
    assert_eq!(step_up(2, 3), 1);
    assert_eq!(step_up(1, 3), 0);
    assert_eq!(step_up(0, 1), 0);
    assert_eq!(step_up(0, 0), 0);
}

#[test]
fn steps_come_round() {
    for len in 1..6usize {
        for start in 0..len {
            let mut down = start;
            let mut up = start;
            for _ in 0..len {
                down = step_down(down, len);
                up = step_up(up, len);
            }
            assert_eq!(down, start);
            assert_eq!(up, start);
            assert_eq!(step_up(step_down(start, len), len), start);
        }
    }
}

#[test]
fn clamp_keeps_or_moves_to_the_last_row() {
    assert_eq!(clamp(2, 1), 0);
    assert_eq!(clamp(2, 3), 2);
    assert_eq!(clamp(2, 2), 1);
    assert_eq!(clamp(0, 5), 0);
    assert_eq!(clamp(7, 0), 0);
    assert_eq!(clamp(0, 0), 0);
    assert_eq!(clamp(usize::MAX, 4), 3);
}
