use r2d2_odbc::connection::ODBCConnection;
use r2d2_odbc::diagnostic::Diagnostic;
use r2d2_odbc::error::Cause;
use r2d2_odbc::error::ODBCError;
use r2d2_odbc::manager::ODBCConnectionManager;
use r2d2_odbc::manager::ODBCConnectionManagerTx;
use r2d2_odbc::manager::OpenOutcome;
use r2d2_odbc::manager::TxEvent;
use r2d2_odbc::manager::TxStep;
use r2d2_odbc::manager::NO_TRANSACTIONS_TEXT;
use r2d2_odbc::manager::PROBE_QUERY;
use r2d2_odbc::mode::AutoCommitting;
use r2d2_odbc::mode::CommitMode;
use r2d2_odbc::mode::CommitTag;
use r2d2_odbc::mode::Transactional;

fn auto_handle(native: u32) -> ODBCConnection<u32, AutoCommitting> {
    match ODBCConnectionManager::new("DSN=PostgreSQL").connect(OpenOutcome::Connected(native)) {
        Ok(handle) => handle,
        Err(error) => panic!("no handle: {}", error.message()),
    }
}

fn manual_handle(native: u64) -> ODBCConnection<u64, Transactional> {
    let manager = ODBCConnectionManagerTx::new("DSN=PostgreSQL");
    match manager.connect::<u32, u64>(TxEvent::Switched(Ok(native))) {
        TxStep::Done(Ok(handle)) => handle,
        _ => panic!("no handle"),
    }
}

#[test]
fn tags_stand_for_their_modes() {
    assert_eq!(AutoCommitting::mode(), CommitMode::AutoCommit);
    assert_eq!(Transactional::mode(), CommitMode::Manual);
    assert_ne!(AutoCommitting::mode(), Transactional::mode());
}

#[test]
fn manager_keeps_its_connection_string() {
    let manager = ODBCConnectionManager::new("DSN=PostgreSQL");
    assert_eq!(manager.connection_string(), "DSN=PostgreSQL");
    let manager = ODBCConnectionManager::new("Driver={SQL Server};Server=db;UID=sa;PWD=x;");
    assert_eq!(manager.connection_string(), "Driver={SQL Server};Server=db;UID=sa;PWD=x;");
}

#[test]
fn transactional_manager_keeps_its_connection_string() {
    let manager = ODBCConnectionManagerTx::new("DSN=PostgreSQL");
    assert_eq!(manager.connection_string(), "DSN=PostgreSQL");
    let empty = ODBCConnectionManagerTx::new("");
    assert_eq!(empty.connection_string(), "");
}

#[test]
fn connect_wraps_the_opened_connection() {
    let manager = ODBCConnectionManager::new("DSN=PostgreSQL");
    let handle = manager.connect(OpenOutcome::Connected(41u32)).ok().expect("a handle");
    assert_eq!(*handle.raw(), 41);
    assert_eq!(handle.mode(), CommitMode::AutoCommit);
}

#[test]
fn connect_reports_a_rejected_connection_string() {
    let manager = ODBCConnectionManager::new("DSN=Nowhere");
    let record = Diagnostic::new("IM002", 0, "Data source name not found");
    let error = manager
        .connect(OpenOutcome::<u32>::Rejected(record))
        .err()
        .expect("no handle for a rejected string");
    assert_eq!(
        error.message(),
        "State: IM002, Native error: 0, Message: Data source name not found"
    );
    assert!(error.message().contains("Data source name not found"));
    assert_eq!(error.diagnostic().map(|d| d.native_error), Some(0));
}

#[test]
fn connect_passes_on_a_missing_environment() {
    let manager = ODBCConnectionManager::new("DSN=PostgreSQL");
    let failure = ODBCError::raised("Unable to create the ODBC environment");
    let error = manager
        .connect(OpenOutcome::<u32>::Unavailable(failure))
        .err()
        .expect("no handle without an environment");
    assert_eq!(error.message(), "Unable to create the ODBC environment");
    assert!(matches!(error.cause, Cause::Raised(_)));
}

#[test]
fn settle_gives_the_connection_or_the_error() {
    assert_eq!(OpenOutcome::Connected(5u8).settle().ok(), Some(5));
    let rejected = OpenOutcome::<u8>::Rejected(Diagnostic::new("08001", 2, "refused")).settle();
    assert_eq!(
        rejected.err().map(|e| e.message()),
        Some(String::from("State: 08001, Native error: 2, Message: refused"))
    );
    let unavailable = OpenOutcome::<u8>::Unavailable(ODBCError::raised("none")).settle();
    assert_eq!(unavailable.err().map(|e| e.message()), Some(String::from("none")));
}

#[test]
fn probe_query_is_a_trivial_select() {
    let manager = ODBCConnectionManager::new("DSN=PostgreSQL");
    assert_eq!(manager.probe_query(), "SELECT 1");
    assert_eq!(PROBE_QUERY, "SELECT 1");
}

#[test]
fn is_valid_passes_a_connection_that_answered() {
    let manager = ODBCConnectionManager::new("DSN=PostgreSQL");
    let mut handle = auto_handle(3);
    assert!(manager.is_valid(&mut handle, Ok(())).is_ok());
    assert_eq!(*handle.raw(), 3);
}

#[test]
fn is_valid_reports_a_failed_probe() {
    let manager = ODBCConnectionManager::new("DSN=PostgreSQL");
    let mut handle = auto_handle(3);
    let record = Diagnostic::new("08S01", 10054, "Communication link failure");
    let error = manager.is_valid(&mut handle, Err(record)).expect_err("the probe failed");
    assert_eq!(
        error.message(),
        "State: 08S01, Native error: 10054, Message: Communication link failure"
    );
    assert_eq!(*handle.raw(), 3);
    assert_eq!(handle.mode(), CommitMode::AutoCommit);
}

#[test]
fn is_valid_repeated_on_a_healthy_handle() {
    let manager = ODBCConnectionManager::new("DSN=PostgreSQL");
    let mut handle = auto_handle(8);
    for _ in 0..25 {
        assert!(manager.is_valid(&mut handle, Ok(())).is_ok());
        assert_eq!(*handle.raw(), 8);
        assert_eq!(handle.mode(), CommitMode::AutoCommit);
    }
    let severed = Diagnostic::new("08003", 0, "Connection not open");
    assert!(manager.is_valid(&mut handle, Err(severed)).is_err());
}

#[test]
fn has_broken_is_always_false() {
    let manager = ODBCConnectionManager::new("DSN=PostgreSQL");
    let mut handle = auto_handle(1);
    assert!(!manager.has_broken(&mut handle));
    let dead = Diagnostic::new("08S01", 1, "Communication link failure");
    assert!(manager.is_valid(&mut handle, Err(dead)).is_err());
    assert!(!manager.has_broken(&mut handle));
    assert_eq!(*handle.raw(), 1);
}

#[test]
fn transactional_has_broken_is_always_false() {
    let manager = ODBCConnectionManagerTx::new("DSN=PostgreSQL");
    let mut handle = manual_handle(2);
    assert!(!manager.has_broken(&mut handle));
    assert!(!manager.has_broken(&mut handle));
    assert_eq!(*handle.raw(), 2);
}

#[test]
fn transactional_is_valid_always_passes() {
    let manager = ODBCConnectionManagerTx::new("DSN=PostgreSQL");
    let mut handle = manual_handle(2);
    for _ in 0..5 {
        assert!(manager.is_valid(&mut handle).is_ok());
    }
    assert_eq!(*handle.raw(), 2);
    assert_eq!(handle.mode(), CommitMode::Manual);
}

#[test]
fn transactional_connect_sends_an_opened_connection_to_the_switch() {
    let manager = ODBCConnectionManagerTx::new("DSN=PostgreSQL");
    let step = manager.connect::<u32, u64>(TxEvent::Opened(OpenOutcome::Connected(9)));
    assert!(matches!(step, TxStep::DisableAutocommit(9)));
}

#[test]
fn transactional_connect_wraps_the_switched_connection() {
    let manager = ODBCConnectionManagerTx::new("DSN=PostgreSQL");
    let step = manager.connect::<u32, u64>(TxEvent::Switched(Ok(900)));
    match step {
        TxStep::Done(Ok(handle)) => {
            assert_eq!(*handle.raw(), 900);
            assert_eq!(handle.mode(), CommitMode::Manual);
        }
        _ => panic!("a handle was due"),
    }
}

#[test]
fn transactional_connect_fails_when_the_switch_is_refused() {
    let manager = ODBCConnectionManagerTx::new("DSN=PostgreSQL");
    let step = manager.connect::<u32, u64>(TxEvent::Switched(Err(9)));
    match step {
        TxStep::Done(Err(error)) => {
            assert_eq!(error.message(), "Unable to use transactions");
            assert_eq!(error.message(), NO_TRANSACTIONS_TEXT);
            assert!(matches!(error.cause, Cause::Raised(_)));
        }
        _ => panic!("an error was due"),
    }
}

#[test]
fn transactional_connect_reports_a_rejected_connection_string() {
    let manager = ODBCConnectionManagerTx::new("DSN=Nowhere");
    let record = Diagnostic::new("28000", 1045, "Access denied for user");
    let step = manager.connect::<u32, u64>(TxEvent::Opened(OpenOutcome::Rejected(record)));
    match step {
        TxStep::Done(Err(error)) => {
            assert_eq!(
                error.message(),
                "State: 28000, Native error: 1045, Message: Access denied for user"
            );
        }
        _ => panic!("an error was due"),
    }
}

#[test]
fn transactional_connect_passes_on_a_missing_environment() {
    let manager = ODBCConnectionManagerTx::new("DSN=PostgreSQL");
    let failure = ODBCError::raised("The ODBC environment is not initialized");
    let step = manager.connect::<u32, u64>(TxEvent::Opened(OpenOutcome::Unavailable(failure)));
    match step {
        TxStep::Done(Err(error)) => {
            assert_eq!(error.message(), "The ODBC environment is not initialized");
        }
        _ => panic!("an error was due"),
    }
}

#[test]
fn transactional_connect_runs_to_a_handle_in_two_steps() {
    let manager = ODBCConnectionManagerTx::new("DSN=PostgreSQL");
    let mut event: TxEvent<u32, u64> = TxEvent::Opened(OpenOutcome::Connected(12));
    let mut switches = 0;
    let made = loop {
        match manager.connect(event) {
            TxStep::DisableAutocommit(on) => {
                switches += 1;
                event = TxEvent::Switched(Ok(u64::from(on) + 1000));
            }
            TxStep::Done(result) => break result,
        }
    };
    assert_eq!(switches, 1);
    let handle = made.ok().expect("a handle");
    assert_eq!(*handle.raw(), 1012);
    assert_eq!(handle.mode(), CommitMode::Manual);
}

#[test]
fn transactional_connect_runs_to_an_error_when_the_driver_keeps_auto_commit() {
    let manager = ODBCConnectionManagerTx::new("DSN=PostgreSQL");
    let mut event: TxEvent<u32, u64> = TxEvent::Opened(OpenOutcome::Connected(12));
    let made = loop {
        match manager.connect(event) {
            TxStep::DisableAutocommit(on) => event = TxEvent::Switched(Err(on)),
            TxStep::Done(result) => break result,
        }
    };
    assert_eq!(made.err().map(|e| e.message()), Some(String::from("Unable to use transactions")));
}

#[test]
fn public_names_are_reachable_from_the_root() {
    let manager = r2d2_odbc::ODBCConnectionManager::new("DSN=PostgreSQL");
    let manager_tx = r2d2_odbc::ODBCConnectionManagerTx::new("DSN=PostgreSQL");
    assert_eq!(manager.connection_string(), manager_tx.connection_string());
    let env: r2d2_odbc::ODBCEnv<u8> = r2d2_odbc::ODBCEnv::new();
    assert!(env.get().is_err());
    let error = r2d2_odbc::ODBCError::from(r2d2_odbc::Diagnostic::new("HY000", 1, "x"));
    assert!(error.diagnostic().is_some());
    let handle: r2d2_odbc::ODBCConnection<u32, AutoCommitting> = auto_handle(4);
    assert_eq!(*handle.raw(), 4);
}
