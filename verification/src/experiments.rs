use vstd::prelude::*;

verus! {

/// Channel implementations measured by the asynchronous experiments.
#[derive(Debug, Clone, Copy, PartialEq, Eq, Structural)]
pub enum AsyncExperiments {
    Kanal,
    Flume,
    Tokio,
    AsyncChannel,
    Crossfire,
    Thingbuf,
    Tachyonix,
    Postage,
    AsyncBroadcast,
}

/// Channel implementations measured by the busy-spinning experiments.
#[derive(Debug, Clone, Copy, PartialEq, Eq, Structural)]
pub enum InterProcessSync {
    Rtrb,
    Ringbuf,
    CrossbeamChannel,
    CrossbeamQueue,
    Kanal,
    Flume,
    Omango,
    Npnc,
    Magnetic,
    Tokio,
}

/// The order in which the asynchronous experiments run.
pub open spec fn async_experiment_order() -> Seq<AsyncExperiments> {
    seq![
        AsyncExperiments::Kanal,
        AsyncExperiments::Flume,
        AsyncExperiments::Tokio,
        AsyncExperiments::AsyncChannel,
        AsyncExperiments::Crossfire,
        AsyncExperiments::Thingbuf,
        AsyncExperiments::Tachyonix,
        AsyncExperiments::Postage,
        AsyncExperiments::AsyncBroadcast,
    ]
}

/// The order in which the busy-spinning experiments run.
pub open spec fn busy_experiment_order() -> Seq<InterProcessSync> {
    seq![
        InterProcessSync::Rtrb,
        InterProcessSync::Ringbuf,
        InterProcessSync::CrossbeamChannel,
        InterProcessSync::CrossbeamQueue,
        InterProcessSync::Kanal,
        InterProcessSync::Flume,
        InterProcessSync::Omango,
        InterProcessSync::Npnc,
        InterProcessSync::Magnetic,
        InterProcessSync::Tokio,
    ]
}

/// All asynchronous experiments, in the order in which they run.
pub fn async_experiments() -> (res: Vec<AsyncExperiments>)
    ensures
        res@ == async_experiment_order(),
{
    let res = vec![
        AsyncExperiments::Kanal,
        AsyncExperiments::Flume,
        AsyncExperiments::Tokio,
        AsyncExperiments::AsyncChannel,
        AsyncExperiments::Crossfire,
        AsyncExperiments::Thingbuf,
        AsyncExperiments::Tachyonix,
        AsyncExperiments::Postage,
        AsyncExperiments::AsyncBroadcast,
    ];
    assert(res@ =~= async_experiment_order());
    res
}

/// All busy-spinning experiments, in the order in which they run.
pub fn busy_experiments() -> (res: Vec<InterProcessSync>)
    ensures
        res@ == busy_experiment_order(),
{
    let res = vec![
        InterProcessSync::Rtrb,
        InterProcessSync::Ringbuf,
        InterProcessSync::CrossbeamChannel,
        InterProcessSync::CrossbeamQueue,
        InterProcessSync::Kanal,
        InterProcessSync::Flume,
        InterProcessSync::Omango,
        InterProcessSync::Npnc,
        InterProcessSync::Magnetic,
        InterProcessSync::Tokio,
    ];
    assert(res@ =~= busy_experiment_order());
    res
}

/// Every asynchronous experiment is run, and none is run twice.
pub proof fn lemma_async_experiments_each_once(e: AsyncExperiments)
    ensures
        async_experiment_order().contains(e),
        async_experiment_order().no_duplicates(),
{
    let s = async_experiment_order();
    match e {
        AsyncExperiments::Kanal => assert(s[0] == e),
        AsyncExperiments::Flume => assert(s[1] == e),
        AsyncExperiments::Tokio => assert(s[2] == e),
        AsyncExperiments::AsyncChannel => assert(s[3] == e),
        AsyncExperiments::Crossfire => assert(s[4] == e),
        AsyncExperiments::Thingbuf => assert(s[5] == e),
        AsyncExperiments::Tachyonix => assert(s[6] == e),
        AsyncExperiments::Postage => assert(s[7] == e),
        AsyncExperiments::AsyncBroadcast => assert(s[8] == e),
    }
}

/// Every busy-spinning experiment is run, and none is run twice.
pub proof fn lemma_busy_experiments_each_once(e: InterProcessSync)
    ensures
        busy_experiment_order().contains(e),
        busy_experiment_order().no_duplicates(),
{
    let s = busy_experiment_order();
    match e {
        InterProcessSync::Rtrb => assert(s[0] == e),
        InterProcessSync::Ringbuf => assert(s[1] == e),
        InterProcessSync::CrossbeamChannel => assert(s[2] == e),
        InterProcessSync::CrossbeamQueue => assert(s[3] == e),
        InterProcessSync::Kanal => assert(s[4] == e),
        InterProcessSync::Flume => assert(s[5] == e),
        InterProcessSync::Omango => assert(s[6] == e),
        InterProcessSync::Npnc => assert(s[7] == e),
        InterProcessSync::Magnetic => assert(s[8] == e),
        InterProcessSync::Tokio => assert(s[9] == e),
    }
}

} // verus!
