use ergo_sync::ch::{
    drain, recv, receiver_copies, send, send_all, sender_copies, try_or_report, wait_close,
    NoReceivers, TryOutcome,
};

#[test]
fn fifo_single_sender_single_receiver() {
    let (tx, rx) = crossbeam_channel::unbounded::<u32>();
    for v in [10u32, 20, 30, 40, 50] {
        assert!(send(&tx, v).is_ok());
    }
    drop(tx);
    let got = drain(&rx);
    assert_eq!(got, vec![10, 20, 30, 40, 50]);
}

#[test]
fn send_all_delivers_in_list_order() {
    let (tx, rx) = crossbeam_channel::unbounded::<String>();
    let values = vec!["a".to_string(), "b".to_string(), "c".to_string()];
    let delivered = send_all(&tx, values.clone());
    assert!(matches!(delivered, Ok(3)));
    drop(tx);
    assert_eq!(drain(&rx), values);
}

#[test]
fn send_with_no_receivers_reports_broken_pipe() {
    let (tx, rx) = crossbeam_channel::unbounded::<u32>();
    drop(rx);
    match send(&tx, 7) {
        Err(NoReceivers(v)) => assert_eq!(v, 7),
        Ok(()) => panic!("send succeeded on a channel with no receivers"),
    }
}

#[test]
fn send_all_with_no_receivers_hands_first_message_back() {
    let (tx, rx) = crossbeam_channel::unbounded::<u32>();
    drop(rx);
    match send_all(&tx, vec![5, 6, 7]) {
        Err(stopped) => {
            assert_eq!(stopped.delivered, 0);
            assert_eq!(stopped.undelivered, 5);
        }
        Ok(_) => panic!("send_all succeeded on a channel with no receivers"),
    }
}

#[test]
fn recv_with_no_senders_and_empty_buffer_reports_broken_pipe() {
    let (tx, rx) = crossbeam_channel::unbounded::<u32>();
    drop(tx);
    assert!(recv(&rx).is_err());
}

#[test]
fn recv_drains_buffered_values_before_reporting_closed() {
    let (tx, rx) = crossbeam_channel::bounded::<u32>(4);
    assert!(send(&tx, 1).is_ok());
    assert!(send(&tx, 2).is_ok());
    drop(tx);
    assert_eq!(recv(&rx).ok(), Some(1));
    assert_eq!(recv(&rx).ok(), Some(2));
    assert!(recv(&rx).is_err());
}

#[test]
fn wait_close_returns_once_last_sender_clone_is_dropped() {
    let (tx, rx) = crossbeam_channel::bounded::<u32>(8);
    let clones = sender_copies(&tx, 2);
    for (i, s) in clones.iter().enumerate() {
        assert!(send(s, i as u32).is_ok());
    }
    // Buffered-but-unread values must not keep wait_close from returning.
    drop(tx);
    drop(clones);
    wait_close(&rx);
    assert!(recv(&rx).is_err());
}

#[test]
fn try_or_report_yields_the_success_value() {
    let (errs, err_rx) = crossbeam_channel::unbounded::<String>();
    match try_or_report::<u32, String>(&errs, Ok(11)) {
        TryOutcome::Success(v) => assert_eq!(v, 11),
        _ => panic!("a success value was not yielded"),
    }
    drop(errs);
    assert!(drain(&err_rx).is_empty());
}

#[test]
fn try_or_report_forwards_the_failure_to_the_error_channel() {
    let (errs, err_rx) = crossbeam_channel::unbounded::<String>();
    match try_or_report::<u32, String>(&errs, Err("boom".to_string())) {
        TryOutcome::Reported => {}
        _ => panic!("the failure was not reported"),
    }
    drop(errs);
    assert_eq!(drain(&err_rx), vec!["boom".to_string()]);
}

#[test]
fn try_or_report_hands_the_failure_back_when_the_error_channel_is_broken() {
    let (errs, err_rx) = crossbeam_channel::unbounded::<String>();
    drop(err_rx);
    match try_or_report::<u32, String>(&errs, Err("boom".to_string())) {
        TryOutcome::ReportFailed(e) => assert_eq!(e, "boom"),
        _ => panic!("the broken error channel went unnoticed"),
    }
}

#[test]
fn sender_copies_share_the_same_channel() {
    let (tx, rx) = crossbeam_channel::unbounded::<u32>();
    let clones = sender_copies(&tx, 3);
    assert_eq!(clones.len(), 3);
    drop(tx);
    // The clones keep the channel open and deliver into the same buffer.
    assert!(send(&clones[0], 1).is_ok());
    assert!(send(&clones[2], 2).is_ok());
    assert_eq!(recv(&rx).ok(), Some(1));
    assert_eq!(recv(&rx).ok(), Some(2));
    drop(clones);
    assert!(recv(&rx).is_err());
}

#[test]
fn receiver_copies_share_out_each_message_exactly_once() {
    let (tx, rx) = crossbeam_channel::unbounded::<u32>();
    let clones = receiver_copies(&rx, 2);
    assert_eq!(clones.len(), 2);
    drop(rx);
    for v in 0..4u32 {
        assert!(send(&tx, v).is_ok());
    }
    drop(tx);
    let mut got = drain(&clones[0]);
    got.extend(drain(&clones[1]));
    got.sort();
    assert_eq!(got, vec![0, 1, 2, 3]);
}
