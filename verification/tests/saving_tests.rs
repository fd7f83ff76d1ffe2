use bijou::console::{print_to_console, Print};
use bijou::saving::{announce_save, report_save, save_target, with_csv_extension, SaveRequests};

#[test]
fn csv_extension_added_when_missing() {
    assert_eq!(with_csv_extension("data".to_string()), "data.csv");
    assert_eq!(with_csv_extension("/tmp/run.txt".to_string()), "/tmp/run.txt.csv");
    assert_eq!(with_csv_extension("".to_string()), ".csv");
    assert_eq!(with_csv_extension("csv".to_string()), "csv.csv");
}

#[test]
fn csv_extension_kept_when_present() {
    assert_eq!(with_csv_extension("data.csv".to_string()), "data.csv");
    assert_eq!(with_csv_extension(".csv".to_string()), ".csv");
    assert_eq!(with_csv_extension("é.csv".to_string()), "é.csv");
}

#[test]
fn csv_extension_is_idempotent() {
    let once = with_csv_extension("shot".to_string());
    let twice = with_csv_extension(once.clone());
    assert_eq!(once, twice);
}

#[test]
fn save_target_from_dialog() {
    assert_eq!(save_target(Some("/home/u/shot".to_string())), "/home/u/shot.csv");
    assert_eq!(save_target(None), "");
}

#[test]
fn announce_and_report_success() {
    let mut console = vec![Print::EMPTY];
    let path = "out.csv".to_string();
    let index = announce_save(&mut console, &path);
    assert_eq!(index, 1);
    assert!(matches!(&console[1], Print::TASK(s) if s == "saving pulse file to \"out.csv\" ..."));
    report_save(&mut console, index, &path, true);
    assert_eq!(console.len(), 2);
    assert!(matches!(&console[1], Print::OK(s) if s == "saved pulse file to \"out.csv\" "));
}

#[test]
fn announce_and_report_failure() {
    let mut console = vec![Print::EMPTY];
    let path = "".to_string();
    let index = announce_save(&mut console, &path);
    assert!(matches!(&console[1], Print::TASK(s) if s == "saving pulse file to \"\" ..."));
    report_save(&mut console, index, &path, false);
    assert_eq!(console.len(), 3);
    assert!(matches!(&console[1], Print::TASK(_)));
    assert!(matches!(&console[2], Print::ERROR(s) if s == "failed to save file"));
}

#[test]
fn path_with_quote_is_escaped() {
    let mut console: Vec<Print> = Vec::new();
    print_to_console(&mut console, Print::EMPTY);
    let index = announce_save(&mut console, &"a\"b".to_string());
    assert!(matches!(&console[index], Print::TASK(s) if s == "saving pulse file to \"a\\\"b\" ..."));
}

#[test]
fn request_then_take() {
    let mut requests = SaveRequests::new();
    assert_eq!(requests.take_pending(), None);
    requests.receive(None);
    assert_eq!(requests.take_pending(), None);
    requests.receive(Some("a.csv".to_string()));
    assert_eq!(requests.take_pending(), Some("a.csv".to_string()));
    assert_eq!(requests.take_pending(), None);
}

#[test]
fn later_request_wins() {
    let mut requests = SaveRequests::new();
    requests.receive(Some("first.csv".to_string()));
    requests.receive(None);
    requests.receive(Some("second.csv".to_string()));
    assert_eq!(requests.take_pending(), Some("second.csv".to_string()));
    assert_eq!(requests.take_pending(), None);
}

#[test]
fn each_request_saved_once_in_order() {
    let mut requests = SaveRequests::new();
    let delivered = vec![None, Some("a.csv"), None, None, Some("b.csv"), Some("c.csv"), None];
    let mut handed = Vec::new();
    for request in delivered.iter() {
        requests.receive(request.map(|p| p.to_string()));
        handed.push(requests.take_pending());
    }
    let expected: Vec<Option<String>> = delivered.iter().map(|r| r.map(|p| p.to_string())).collect();
    assert_eq!(handed, expected);
}
