use vstd::prelude::*;
use vstd::string::*;
use crate::experiments::{AsyncExperiments, InterProcessSync};

verus! {

/// The four ways the benchmark connects a sender and a receiver.
#[derive(Debug, Clone, Copy, PartialEq, Eq, Structural)]
pub enum Setup {
    /// Two pinned threads, each with its own asynchronous runtime.
    InterProcessAsync,
    /// Two pinned threads; the receiver spins on its channel.
    InterProcessBusy,
    /// Tasks of one multi-threaded runtime.
    IntraProcessAsyncMultiThread,
    /// Tasks of one runtime, on one pinned thread.
    IntraProcessAsyncSingleThread,
}

/// The side of a channel whose latencies a log holds.
#[derive(Debug, Clone, Copy, PartialEq, Eq, Structural)]
pub enum Role {
    Sender,
    Receiver,
}

/// The directory that holds the latency logs of a setup.
pub open spec fn setup_directory(setup: Setup) -> Seq<char> {
    match setup {
        Setup::InterProcessAsync => "inter_latencies/async/"@,
        Setup::InterProcessBusy => "inter_latencies/busy/"@,
        Setup::IntraProcessAsyncMultiThread => "intra_latencies/async_multi_thread/"@,
        Setup::IntraProcessAsyncSingleThread => "intra_latencies/async_single_thread/"@,
    }
}

/// The end of the name of a log of the given side.
pub open spec fn role_suffix(role: Role) -> Seq<char> {
    match role {
        Role::Sender => "_sender.txt"@,
        Role::Receiver => "_receiver.txt"@,
    }
}

/// The file name stem of an asynchronous experiment.
pub open spec fn async_stem(e: AsyncExperiments) -> Seq<char> {
    match e {
        AsyncExperiments::Kanal => "kanal"@,
        AsyncExperiments::Flume => "flume"@,
        AsyncExperiments::Tokio => "tokio"@,
        AsyncExperiments::AsyncChannel => "async_channel"@,
        AsyncExperiments::Crossfire => "crossfire"@,
        AsyncExperiments::Thingbuf => "thingbuf"@,
        AsyncExperiments::Tachyonix => "tachyonix"@,
        AsyncExperiments::Postage => "postage"@,
        AsyncExperiments::AsyncBroadcast => "async_broadcast"@,
    }
}

/// The file name stem of a busy-spinning experiment.
pub open spec fn busy_stem(e: InterProcessSync) -> Seq<char> {
    match e {
        InterProcessSync::Rtrb => "rtrb"@,
        InterProcessSync::Ringbuf => "ringbuf"@,
        InterProcessSync::CrossbeamChannel => "crossbeam_channel"@,
        InterProcessSync::CrossbeamQueue => "crossbeam_queue"@,
        InterProcessSync::Kanal => "kanal"@,
        InterProcessSync::Flume => "flume"@,
        InterProcessSync::Omango => "omango"@,
        InterProcessSync::Npnc => "npnc"@,
        InterProcessSync::Magnetic => "magnetic"@,
        InterProcessSync::Tokio => "tokio"@,
    }
}

/// The path of the log that holds the latencies of one side of one
/// channel in one setup.
pub open spec fn log_path(setup: Setup, stem: Seq<char>, role: Role) -> Seq<char> {
    setup_directory(setup) + stem + role_suffix(role)
}

impl AsyncExperiments {
    /// The stem of the names of this experiment's latency logs.
    pub fn file_stem(&self) -> (s: &'static str)
        ensures
            s@ == async_stem(*self),
    {
        match self {
            AsyncExperiments::Kanal => "kanal",
            AsyncExperiments::Flume => "flume",
            AsyncExperiments::Tokio => "tokio",
            AsyncExperiments::AsyncChannel => "async_channel",
            AsyncExperiments::Crossfire => "crossfire",
            AsyncExperiments::Thingbuf => "thingbuf",
            AsyncExperiments::Tachyonix => "tachyonix",
            AsyncExperiments::Postage => "postage",
            AsyncExperiments::AsyncBroadcast => "async_broadcast",
        }
    }
}

impl InterProcessSync {
    /// The stem of the names of this experiment's latency logs.
    pub fn file_stem(&self) -> (s: &'static str)
        ensures
            s@ == busy_stem(*self),
    {
        match self {
            InterProcessSync::Rtrb => "rtrb",
            InterProcessSync::Ringbuf => "ringbuf",
            InterProcessSync::CrossbeamChannel => "crossbeam_channel",
            InterProcessSync::CrossbeamQueue => "crossbeam_queue",
            InterProcessSync::Kanal => "kanal",
            InterProcessSync::Flume => "flume",
            InterProcessSync::Omango => "omango",
            InterProcessSync::Npnc => "npnc",
            InterProcessSync::Magnetic => "magnetic",
            InterProcessSync::Tokio => "tokio",
        }
    }
}

/// The path of the log for one side of the channel with file stem
/// `stem` in `setup`.
pub fn latency_log_path(setup: Setup, stem: &str, role: Role) -> (p: String)
    ensures
        p@ == log_path(setup, stem@, role),
        p@ == setup_directory(setup) + stem@ + role_suffix(role),
{
    let dir = match setup {
        Setup::InterProcessAsync => "inter_latencies/async/",
        Setup::InterProcessBusy => "inter_latencies/busy/",
        Setup::IntraProcessAsyncMultiThread => "intra_latencies/async_multi_thread/",
        Setup::IntraProcessAsyncSingleThread => "intra_latencies/async_single_thread/",
    };
    let suffix = match role {
        Role::Sender => "_sender.txt",
        Role::Receiver => "_receiver.txt",
    };
    let p = String::from_str(dir).concat(stem).concat(suffix);
    p
}

/// Each asynchronous experiment's logs are named after its channel
/// crate, in lower-case snake case.
pub proof fn lemma_async_stems_name_their_crates()
    ensures
        async_stem(AsyncExperiments::Kanal) == "kanal"@,
        async_stem(AsyncExperiments::Flume) == "flume"@,
        async_stem(AsyncExperiments::Tokio) == "tokio"@,
        async_stem(AsyncExperiments::AsyncChannel) == "async_channel"@,
        async_stem(AsyncExperiments::Crossfire) == "crossfire"@,
        async_stem(AsyncExperiments::Thingbuf) == "thingbuf"@,
        async_stem(AsyncExperiments::Tachyonix) == "tachyonix"@,
        async_stem(AsyncExperiments::Postage) == "postage"@,
        async_stem(AsyncExperiments::AsyncBroadcast) == "async_broadcast"@,
{
}

/// Each busy-spinning experiment's logs are named after its channel
/// crate, in lower-case snake case.
pub proof fn lemma_busy_stems_name_their_crates()
    ensures
        busy_stem(InterProcessSync::Rtrb) == "rtrb"@,
        busy_stem(InterProcessSync::Ringbuf) == "ringbuf"@,
        busy_stem(InterProcessSync::CrossbeamChannel) == "crossbeam_channel"@,
        busy_stem(InterProcessSync::CrossbeamQueue) == "crossbeam_queue"@,
        busy_stem(InterProcessSync::Kanal) == "kanal"@,
        busy_stem(InterProcessSync::Flume) == "flume"@,
        busy_stem(InterProcessSync::Omango) == "omango"@,
        busy_stem(InterProcessSync::Npnc) == "npnc"@,
        busy_stem(InterProcessSync::Magnetic) == "magnetic"@,
        busy_stem(InterProcessSync::Tokio) == "tokio"@,
{
}

/// The layout of every log path: the setup's directory, then the
/// channel stem exactly once, then the side's suffix; the directories
/// and suffixes are the fixed names the analysis reads.
pub proof fn lemma_log_path_layout(setup: Setup, stem: Seq<char>, role: Role)
    ensures
        log_path(setup, stem, role) =~= setup_directory(setup) + stem + role_suffix(role),
        log_path(setup, stem, role).len() == setup_directory(setup).len() + stem.len() + role_suffix(role).len(),
        log_path(setup, stem, role).subrange(0, setup_directory(setup).len() as int) =~= setup_directory(setup),
        log_path(setup, stem, role).subrange(
            setup_directory(setup).len() as int,
            (setup_directory(setup).len() + stem.len()) as int,
        ) =~= stem,
        log_path(setup, stem, role).subrange(
            (setup_directory(setup).len() + stem.len()) as int,
            log_path(setup, stem, role).len() as int,
        ) =~= role_suffix(role),
        setup_directory(Setup::InterProcessAsync) == "inter_latencies/async/"@,
        setup_directory(Setup::InterProcessBusy) == "inter_latencies/busy/"@,
        setup_directory(Setup::IntraProcessAsyncMultiThread) == "intra_latencies/async_multi_thread/"@,
        setup_directory(Setup::IntraProcessAsyncSingleThread) == "intra_latencies/async_single_thread/"@,
        role_suffix(Role::Sender) == "_sender.txt"@,
        role_suffix(Role::Receiver) == "_receiver.txt"@,
{
}

/// Different asynchronous experiments have different file stems.
pub proof fn lemma_async_stem_injective(a: AsyncExperiments, b: AsyncExperiments)
    ensures
        async_stem(a) == async_stem(b) ==> a == b,
{
    reveal_strlit("kanal");
    reveal_strlit("flume");
    reveal_strlit("tokio");
    reveal_strlit("async_channel");
    reveal_strlit("crossfire");
    reveal_strlit("thingbuf");
    reveal_strlit("tachyonix");
    reveal_strlit("postage");
    reveal_strlit("async_broadcast");
    if async_stem(a) == async_stem(b) {
        assert(async_stem(a).len() == async_stem(b).len());
        assert(async_stem(a)[0] == async_stem(b)[0]);
    }
}

/// Different busy-spinning experiments have different file stems.
pub proof fn lemma_busy_stem_injective(a: InterProcessSync, b: InterProcessSync)
    ensures
        busy_stem(a) == busy_stem(b) ==> a == b,
{
    reveal_strlit("rtrb");
    reveal_strlit("ringbuf");
    reveal_strlit("crossbeam_channel");
    reveal_strlit("crossbeam_queue");
    reveal_strlit("kanal");
    reveal_strlit("flume");
    reveal_strlit("omango");
    reveal_strlit("npnc");
    reveal_strlit("magnetic");
    reveal_strlit("tokio");
    if busy_stem(a) == busy_stem(b) {
        assert(busy_stem(a).len() == busy_stem(b).len());
        assert(busy_stem(a)[0] == busy_stem(b)[0]);
    }
}

/// The characters of a setup's directory that tell it from the others.
proof fn lemma_directory_marks(s: Setup)
    ensures
        setup_directory(s).len() >= 21,
        setup_directory(s)[3] == (if s == Setup::InterProcessAsync || s == Setup::InterProcessBusy { 'e' } else { 'r' }),
        s == Setup::InterProcessAsync ==> setup_directory(s)[16] == 'a',
        s == Setup::InterProcessBusy ==> setup_directory(s)[16] == 'b',
        s == Setup::IntraProcessAsyncMultiThread ==> setup_directory(s).len() >= 23 && setup_directory(s)[22] == 'm',
        s == Setup::IntraProcessAsyncSingleThread ==> setup_directory(s).len() >= 23 && setup_directory(s)[22] == 's',
{
    reveal_strlit("inter_latencies/async/");
    reveal_strlit("inter_latencies/busy/");
    reveal_strlit("intra_latencies/async_multi_thread/");
    reveal_strlit("intra_latencies/async_single_thread/");
}

/// A log path names its setup, its channel stem and its side: two logs
/// share a path only if all three agree, whatever the stems are.
pub proof fn lemma_log_path_determines(s1: Setup, c1: Seq<char>, r1: Role, s2: Setup, c2: Seq<char>, r2: Role)
    ensures
        log_path(s1, c1, r1) == log_path(s2, c2, r2) ==> s1 == s2 && c1 == c2 && r1 == r2,
{
    reveal_strlit("_sender.txt");
    reveal_strlit("_receiver.txt");
    let p1 = log_path(s1, c1, r1);
    let p2 = log_path(s2, c2, r2);
    if p1 == p2 {
        let d1 = setup_directory(s1);
        let d2 = setup_directory(s2);
        let f1 = role_suffix(r1);
        let f2 = role_suffix(r2);
        lemma_directory_marks(s1);
        lemma_directory_marks(s2);
        assert(p1[3] == d1[3] && p2[3] == d2[3]);
        assert(p1[16] == d1[16] && p2[16] == d2[16]);
        if d1[3] == 'r' {
            assert(p1[22] == d1[22] && p2[22] == d2[22]);
        }
        assert(s1 == s2);
        let n = p1.len();
        assert(p1[n - 7] == f1[f1.len() - 7]);
        assert(p2[n - 7] == f2[f2.len() - 7]);
        assert(r1 == r2);
        assert(c1 =~= p1.subrange(d1.len() as int, (d1.len() + c1.len()) as int));
        assert(c2 =~= p2.subrange(d2.len() as int, (d2.len() + c2.len()) as int));
    }
}

/// No two logs of the benchmark share a file: within any setup, and
/// between setups, each side of each experiment writes its own log.
pub proof fn lemma_async_logs_distinct(
    s1: Setup,
    e1: AsyncExperiments,
    r1: Role,
    s2: Setup,
    e2: AsyncExperiments,
    r2: Role,
)
    ensures
        log_path(s1, async_stem(e1), r1) == log_path(s2, async_stem(e2), r2) ==> s1 == s2 && e1 == e2 && r1 == r2,
{
    lemma_log_path_determines(s1, async_stem(e1), r1, s2, async_stem(e2), r2);
    lemma_async_stem_injective(e1, e2);
}

/// Each side of each busy-spinning experiment writes its own log.
pub proof fn lemma_busy_logs_distinct(e1: InterProcessSync, r1: Role, e2: InterProcessSync, r2: Role)
    ensures
        log_path(Setup::InterProcessBusy, busy_stem(e1), r1) == log_path(Setup::InterProcessBusy, busy_stem(e2), r2)
            ==> e1 == e2 && r1 == r2,
{
    lemma_log_path_determines(Setup::InterProcessBusy, busy_stem(e1), r1, Setup::InterProcessBusy, busy_stem(e2), r2);
    lemma_busy_stem_injective(e1, e2);
}

} // verus!
