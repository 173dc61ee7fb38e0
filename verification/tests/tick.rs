use status_alert::tick::{plan_tick, process_tick, TickAction};

const LABEL_CLASS: &str = "ags-ServerStatus-content-serverStatuses-server-item-label";

fn status_page(label: &str) -> String {
    let mut body = String::from("<html><body><span class=\"");
    body.push_str(LABEL_CLASS);
    body.push_str("\" aria-label=\"");
    body.push_str(label);
    body.push_str("\">status</span></body></html>");
    body
}

#[test]
fn agreeing_statuses_change_nothing() {
    assert!(matches!(plan_tick(false, false, "2024-06-01T12:00:00.000Z"), TickAction::Unchanged));
    assert!(matches!(plan_tick(true, true, "2024-06-01T12:00:00.000Z"), TickAction::Unchanged));
}

#[test]
fn flip_to_maintenance_notifies_once_and_persists_zero() {
    match plan_tick(true, false, "2024-06-01T12:00:00.000Z") {
        TickAction::Notify { payload, marker } => {
            let value: serde_json::Value = serde_json::from_str(&payload).unwrap();
            assert_eq!(value["embeds"][0]["color"].as_i64().unwrap(), 14495300);
            assert!(value["embeds"][0]["description"]
                .as_str()
                .unwrap()
                .contains("in maintenance"));
            assert_eq!(marker, "0");
        }
        TickAction::Unchanged => panic!("a flip must notify"),
    }
}

#[test]
fn flip_to_live_notifies_once_and_persists_one() {
    match plan_tick(false, true, "2024-06-01T12:00:00.000Z") {
        TickAction::Notify { payload, marker } => {
            let value: serde_json::Value = serde_json::from_str(&payload).unwrap();
            assert_eq!(value["embeds"][0]["color"].as_i64().unwrap(), 7909721);
            assert!(value["embeds"][0]["description"]
                .as_str()
                .unwrap()
                .contains("is now live"));
            assert_eq!(marker, "1");
        }
        TickAction::Unchanged => panic!("a flip must notify"),
    }
}

#[test]
fn tick_with_agreeing_page_and_store_is_a_no_op() {
    let live_page = status_page("Alexia server status is Good");
    let action = process_tick(&live_page, &Some(String::from("1")));
    assert!(matches!(action, TickAction::Unchanged));

    let maintenance_page = status_page("Alexia server status is Maintenance");
    let action = process_tick(&maintenance_page, &Some(String::from("0")));
    assert!(matches!(action, TickAction::Unchanged));
}

#[test]
fn tick_that_discovers_maintenance_notifies() {
    let page = status_page("Alexia server status is Maintenance");
    match process_tick(&page, &Some(String::from("1"))) {
        TickAction::Notify { payload, marker } => {
            let value: serde_json::Value = serde_json::from_str(&payload).unwrap();
            assert_eq!(value["embeds"][0]["color"].as_i64().unwrap(), 14495300);
            assert_eq!(marker, "0");
        }
        TickAction::Unchanged => panic!("a flip must notify"),
    }
}

#[test]
fn tick_that_discovers_recovery_notifies() {
    let page = status_page("Alexia server status is Good");
    match process_tick(&page, &Some(String::from("0"))) {
        TickAction::Notify { payload, marker } => {
            let value: serde_json::Value = serde_json::from_str(&payload).unwrap();
            assert_eq!(value["embeds"][0]["color"].as_i64().unwrap(), 7909721);
            assert_eq!(marker, "1");
        }
        TickAction::Unchanged => panic!("a flip must notify"),
    }
}

#[test]
fn first_run_without_a_state_file_counts_as_live() {
    let live_page = status_page("Alexia server status is Good");
    assert!(matches!(process_tick(&live_page, &None), TickAction::Unchanged));

    let maintenance_page = status_page("Alexia server status is Maintenance");
    assert!(matches!(process_tick(&maintenance_page, &None), TickAction::Notify { .. }));
}
