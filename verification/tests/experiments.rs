use channel_bench::experiments::{async_experiments, busy_experiments, AsyncExperiments, InterProcessSync};
use channel_bench::logs::{latency_log_path, Role, Setup};
use std::collections::HashSet;

#[test]
fn async_experiments_run_in_order() {
    assert_eq!(
        async_experiments(),
        vec![
            AsyncExperiments::Kanal,
            AsyncExperiments::Flume,
            AsyncExperiments::Tokio,
            AsyncExperiments::AsyncChannel,
            AsyncExperiments::Crossfire,
            AsyncExperiments::Thingbuf,
            AsyncExperiments::Tachyonix,
            AsyncExperiments::Postage,
            AsyncExperiments::AsyncBroadcast,
        ]
    );
}

#[test]
fn busy_experiments_run_in_order() {
    assert_eq!(
        busy_experiments(),
        vec![
            InterProcessSync::Rtrb,
            InterProcessSync::Ringbuf,
            InterProcessSync::CrossbeamChannel,
            InterProcessSync::CrossbeamQueue,
            InterProcessSync::Kanal,
            InterProcessSync::Flume,
            InterProcessSync::Omango,
            InterProcessSync::Npnc,
            InterProcessSync::Magnetic,
            InterProcessSync::Tokio,
        ]
    );
}

#[test]
fn experiments_are_listed_once() {
    let a = async_experiments();
    for (i, x) in a.iter().enumerate() {
        for (j, y) in a.iter().enumerate() {
            assert_eq!(i == j, x == y);
        }
    }
    let b = busy_experiments();
    for (i, x) in b.iter().enumerate() {
        for (j, y) in b.iter().enumerate() {
            assert_eq!(i == j, x == y);
        }
    }
}

#[test]
fn experiment_debug_names() {
    assert_eq!(format!("{:?}", AsyncExperiments::AsyncChannel), "AsyncChannel");
    assert_eq!(format!("{:?}", InterProcessSync::CrossbeamQueue), "CrossbeamQueue");
}

#[test]
fn file_stems() {
    assert_eq!(AsyncExperiments::Kanal.file_stem(), "kanal");
    assert_eq!(AsyncExperiments::AsyncChannel.file_stem(), "async_channel");
    assert_eq!(AsyncExperiments::AsyncBroadcast.file_stem(), "async_broadcast");
    assert_eq!(InterProcessSync::CrossbeamChannel.file_stem(), "crossbeam_channel");
    assert_eq!(InterProcessSync::CrossbeamQueue.file_stem(), "crossbeam_queue");
    assert_eq!(InterProcessSync::Npnc.file_stem(), "npnc");
}

#[test]
fn log_paths() {
    assert_eq!(
        latency_log_path(Setup::InterProcessAsync, AsyncExperiments::Kanal.file_stem(), Role::Sender),
        "inter_latencies/async/kanal_sender.txt"
    );
    assert_eq!(
        latency_log_path(Setup::InterProcessBusy, InterProcessSync::Rtrb.file_stem(), Role::Receiver),
        "inter_latencies/busy/rtrb_receiver.txt"
    );
    assert_eq!(
        latency_log_path(Setup::IntraProcessAsyncMultiThread, AsyncExperiments::Postage.file_stem(), Role::Sender),
        "intra_latencies/async_multi_thread/postage_sender.txt"
    );
    assert_eq!(
        latency_log_path(
            Setup::IntraProcessAsyncSingleThread,
            AsyncExperiments::AsyncBroadcast.file_stem(),
            Role::Receiver
        ),
        "intra_latencies/async_single_thread/async_broadcast_receiver.txt"
    );
}

#[test]
fn every_log_has_its_own_file() {
    let mut seen = HashSet::new();
    let roles = [Role::Sender, Role::Receiver];
    for setup in [
        Setup::InterProcessAsync,
        Setup::IntraProcessAsyncMultiThread,
        Setup::IntraProcessAsyncSingleThread,
    ] {
        for e in async_experiments() {
            for r in roles {
                assert!(seen.insert(latency_log_path(setup, e.file_stem(), r)));
            }
        }
    }
    for e in busy_experiments() {
        for r in roles {
            assert!(seen.insert(latency_log_path(Setup::InterProcessBusy, e.file_stem(), r)));
        }
    }
    assert_eq!(seen.len(), 3 * 9 * 2 + 10 * 2);
}
