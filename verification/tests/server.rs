use l2_frontend::server::{
    exit_status, StartupError, BIND_HOST, BIND_PORT, EXIT_FAILURE, EXIT_SUCCESS, STARTUP_MESSAGE,
};

#[test]
fn listener_binds_every_interface_on_8080() {
    assert_eq!(BIND_HOST, "0.0.0.0");
    assert_eq!(BIND_PORT, 8080);
}

#[test]
fn startup_message_has_its_value() {
    assert_eq!(STARTUP_MESSAGE, "Starting KasVillage L2 Frontend...");
}

#[test]
fn clean_run_exits_with_zero() {
    assert_eq!(exit_status(Ok(())), 0);
    assert_eq!(exit_status(Ok(())), EXIT_SUCCESS);
}

#[test]
fn bind_failure_exits_with_non_zero() {
    let status = exit_status(Err(StartupError::Bind));
    assert_ne!(status, 0);
    assert_eq!(status, 1);
    assert_eq!(status, EXIT_FAILURE);
}
