use ergo_sync::ch::{drain, recv, receiver_copies, send, sender_copies};

/// Eight workers take path strings from a shared bounded channel and
/// forward per-path line counts to a results channel. Every worker owns
/// one clone of the results sender and drops it on exit, so once the pool
/// is done the aggregating drain terminates on its own — no deadlock from
/// forgotten sender clones — and the total is stable.
#[test]
fn worker_pool_forwards_counts_and_the_aggregation_terminates() {
    let (path_tx, path_rx) = crossbeam_channel::bounded::<String>(128);
    let (res_tx, res_rx) = crossbeam_channel::unbounded::<u64>();

    let mut expected: u64 = 0;
    for i in 0..64 {
        let path = format!("work/batch{}/item{}", i % 7, i);
        expected += path.split('/').count() as u64;
        assert!(send(&path_tx, path).is_ok());
    }
    drop(path_tx);

    let worker_rx = receiver_copies(&path_rx, 8);
    let worker_tx = sender_copies(&res_tx, 8);
    drop(path_rx);
    drop(res_tx);

    rayon::scope(|scope| {
        for (rx, tx) in worker_rx.into_iter().zip(worker_tx.into_iter()) {
            scope.spawn(move |_| {
                while let Ok(path) = recv(&rx) {
                    let count = path.split('/').count() as u64;
                    assert!(send(&tx, count).is_ok());
                }
            });
        }
    });

    // The scope has joined all eight workers, so all clones of the results
    // sender are dropped and the drain terminates.
    let counts = drain(&res_rx);
    assert_eq!(counts.len(), 64);
    assert_eq!(counts.iter().sum::<u64>(), expected);
}
