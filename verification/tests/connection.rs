use ssh_engine::connection::{InputRefused, Pump, SshConnection};

#[test]
fn a_new_connection_runs_three_pumps() {
    let handle = SshConnection::new("s1".to_string());
    assert_eq!(handle.session_id(), "s1");
    assert_eq!(handle.running_pumps(), 3);
    assert!(!handle.shutdown_requested(Pump::Reader));
    assert!(!handle.shutdown_requested(Pump::Writer));
    assert!(!handle.shutdown_requested(Pump::Input));
}

#[test]
fn close_signals_all_and_joins_reader_writer_input() {
    let mut handle = SshConnection::new("s1".to_string());
    assert_eq!(handle.close(), vec![Pump::Reader, Pump::Writer, Pump::Input]);
    assert!(handle.shutdown_requested(Pump::Reader));
    assert!(handle.shutdown_requested(Pump::Writer));
    assert!(handle.shutdown_requested(Pump::Input));
    assert_eq!(handle.running_pumps(), 0);
}

#[test]
fn close_is_idempotent() {
    let mut handle = SshConnection::new("s1".to_string());
    handle.close();
    assert_eq!(handle.close(), Vec::<Pump>::new());
    assert_eq!(handle.running_pumps(), 0);
    assert!(handle.shutdown_requested(Pump::Input));
}

#[test]
fn input_is_queued_in_order_and_taken_once() {
    let mut handle = SshConnection::new("s1".to_string());
    assert_eq!(handle.send_input("ls"), Ok(()));
    assert_eq!(handle.send_input(" -la\n"), Ok(()));
    assert_eq!(handle.take_input(), vec![b"ls".to_vec(), b" -la\n".to_vec()]);
    assert_eq!(handle.take_input(), Vec::<Vec<u8>>::new());
}

#[test]
fn input_is_sent_as_utf8() {
    let mut handle = SshConnection::new("s1".to_string());
    handle.send_input("é").unwrap();
    assert_eq!(handle.take_input(), vec![vec![0xc3, 0xa9]]);
}

#[test]
fn a_closed_connection_takes_no_input_but_keeps_what_it_had() {
    let mut handle = SshConnection::new("s1".to_string());
    handle.send_input("exit\n").unwrap();
    handle.close();
    assert_eq!(handle.send_input("more"), Err(InputRefused::Closed));
    assert_eq!(handle.take_input(), vec![b"exit\n".to_vec()]);
}

#[test]
fn each_pump_can_be_told_to_stop_by_itself() {
    let mut handle = SshConnection::new("s1".to_string());
    handle.request_shutdown(Pump::Writer);
    assert!(!handle.shutdown_requested(Pump::Reader));
    assert!(handle.shutdown_requested(Pump::Writer));
    assert!(!handle.shutdown_requested(Pump::Input));
    assert_eq!(handle.running_pumps(), 3);
    assert_eq!(handle.send_input("still taken"), Ok(()));
    handle.request_shutdown(Pump::Input);
    assert_eq!(handle.send_input("refused"), Err(InputRefused::Closed));
}

#[test]
fn telling_all_pumps_to_stop_joins_none() {
    let mut handle = SshConnection::new("s1".to_string());
    handle.request_shutdown_all();
    assert!(handle.shutdown_requested(Pump::Reader));
    assert!(handle.shutdown_requested(Pump::Writer));
    assert!(handle.shutdown_requested(Pump::Input));
    assert_eq!(handle.running_pumps(), 3);
    assert_eq!(handle.close(), vec![Pump::Reader, Pump::Writer, Pump::Input]);
}
