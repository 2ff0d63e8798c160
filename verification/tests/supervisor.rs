use sync_pointer::service::stop_outcome;
use sync_pointer::service::RunningService;
use sync_pointer::service::ServiceControl;
use sync_pointer::service::ServiceError;

fn control() -> ServiceControl<u32, &'static str> {
    ServiceControl::new("Mdns Client".to_string())
}

#[test]
fn a_new_supervisor_is_not_running() {
    let sc = control();
    assert!(!sc.is_running());
    assert_eq!(sc.service_name(), "Mdns Client");
}

#[test]
fn start_installs_the_launched_task() {
    let mut sc = control();
    let (result, previous) = sc.start::<String>("tx1", Ok(1));
    assert_eq!(result, Ok(()));
    assert_eq!(previous, None);
    assert!(sc.is_running());
}

#[test]
fn start_twice_leaves_one_task_and_hands_out_the_first() {
    let mut sc = control();
    let _ = sc.start::<String>("tx1", Ok(1));
    let (result, previous) = sc.start::<String>("tx2", Ok(2));
    assert_eq!(result, Ok(()));
    assert_eq!(previous, Some(RunningService { task: 1, shutdown_tx: "tx1" }));
    assert!(sc.is_running());
    assert_eq!(sc.stop(), Some(RunningService { task: 2, shutdown_tx: "tx2" }));
    assert_eq!(sc.stop(), None);
}

#[test]
fn a_failed_start_leaves_the_supervisor_not_running() {
    let mut sc = control();
    let (result, previous) = sc.start("tx1", Err("bind failed".to_string()));
    assert_eq!(result, Err("bind failed".to_string()));
    assert_eq!(previous, None);
    assert!(!sc.is_running());
    assert_eq!(sc.stop(), None);
}

#[test]
fn a_failed_start_over_a_running_task_hands_it_out() {
    let mut sc = control();
    let _ = sc.start::<String>("tx1", Ok(1));
    let (result, previous) = sc.start("tx2", Err("no".to_string()));
    assert_eq!(result, Err("no".to_string()));
    assert_eq!(previous, Some(RunningService { task: 1, shutdown_tx: "tx1" }));
    assert!(!sc.is_running());
}

#[test]
fn stop_hands_out_the_task_and_clears_the_state() {
    let mut sc = control();
    let _ = sc.start::<String>("tx1", Ok(7));
    assert_eq!(sc.stop(), Some(RunningService { task: 7, shutdown_tx: "tx1" }));
    assert!(!sc.is_running());
}

#[test]
fn stop_twice_is_a_no_op_the_second_time() {
    let mut sc = control();
    let _ = sc.start::<String>("tx1", Ok(7));
    assert!(sc.stop().is_some());
    assert_eq!(sc.stop(), None);
    assert_eq!(sc.stop(), None);
    assert!(!sc.is_running());
}

#[test]
fn stop_when_not_running_is_a_no_op() {
    let mut sc = control();
    assert_eq!(sc.stop(), None);
    assert!(!sc.is_running());
    assert_eq!(sc.service_name(), "Mdns Client");
}

#[test]
fn stop_outcome_reports_the_first_failure() {
    assert_eq!(stop_outcome(true, true), Ok(()));
    assert_eq!(stop_outcome(false, true), Err(ServiceError::SendShutdown));
    assert_eq!(stop_outcome(false, false), Err(ServiceError::SendShutdown));
    assert_eq!(stop_outcome(true, false), Err(ServiceError::Join));
}

#[test]
fn service_errors_name_the_service() {
    assert_eq!(
        ServiceError::SendShutdown.message("Tcp Client"),
        "Tcp Client Failed to send shutdown signal"
    );
    assert_eq!(ServiceError::Join.message("Mdns Server"), "Mdns Server Task join error");
}
