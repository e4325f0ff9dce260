use snapd::connection::{
    close_outcome, ended_of, ConnectionReuseError, Recycle, SnapdConnection, SnapdRequestError,
};

#[test]
fn closed_connection_is_not_ended() {
    let conn = SnapdConnection::Closed;
    assert!(!conn.is_closed());
    assert!(!conn.is_finished());
    assert!(!conn.connection_ended());
}

#[test]
fn closing_a_closed_connection_succeeds() {
    let conn = SnapdConnection::Closed;
    let handle = conn.begin_close();
    assert!(handle.is_none());
    assert!(close_outcome(None).is_ok());
}

#[test]
fn closed_connection_is_rejected_on_return() {
    let mut conn = SnapdConnection::Closed;
    assert!(matches!(conn.recycle(), Recycle::Reject));
    assert!(matches!(conn.recycle_with(true), Recycle::Reject));
    assert!(matches!(conn, SnapdConnection::Closed));
}

#[test]
fn closed_connection_refuses_requests() {
    let mut conn = SnapdConnection::Closed;
    assert!(matches!(conn.request_sender(), Err(SnapdRequestError::ClosedConnectionError)));
}

#[test]
fn driver_task_outcomes() {
    let rt = tokio::runtime::Builder::new_current_thread().enable_all().build().unwrap();
    let clean = rt.block_on(rt.spawn(async { Ok::<(), hyper::Error>(()) }));
    assert!(close_outcome(Some(clean)).is_ok());
    let panicked = rt.block_on(rt.spawn(async {
        if true {
            panic!("driver failed");
        }
        Ok::<(), hyper::Error>(())
    }));
    assert!(panicked.is_err());
    assert!(matches!(
        close_outcome(Some(panicked)),
        Err(ConnectionReuseError::ConnectionPanicked(_))
    ));
}

#[test]
fn either_answer_ends_a_connection() {
    assert!(!ended_of(false, false));
    assert!(ended_of(true, false));
    assert!(ended_of(false, true));
    assert!(ended_of(true, true));
}
