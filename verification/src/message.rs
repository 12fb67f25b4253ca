use vstd::prelude::*;
use rand::RngCore;

verus! {

/// A point in time as measured by `minstant`.
#[verifier::external_type_specification]
#[verifier::external_body]
pub struct ExInstant(minstant::Instant);

/// `Clone::clone` of `minstant::Instant`, which derives `Copy` and
/// `Clone`: the clone is the same instant.
pub assume_specification[ <minstant::Instant as Clone>::clone ](instant: &minstant::Instant) -> (r: minstant::Instant)
    ensures
        r == *instant,
;

/// `minstant::Instant::now`: the current time. Nothing is claimed of
/// the value, which depends on the clock.
#[verifier::external_body]
fn instant_now() -> minstant::Instant {
    minstant::Instant::now()
}

/// `rand::thread_rng` and `RngCore::fill_bytes` on it: overwrites every
/// byte of `buf` with a random one. The contract claims only that the
/// length stays; the bytes are random. `thread_rng` panics if the
/// operating system's random source cannot be read when it first seeds.
#[verifier::external_body]
fn fill_random(buf: &mut Vec<u8>)
    ensures
        final(buf)@.len() == old(buf)@.len(),
{
    rand::thread_rng().fill_bytes(buf.as_mut_slice());
}

/// A message passed through a channel under test.
#[derive(Debug, Clone)]
pub struct Data {
    /// When the message was made.
    pub time: minstant::Instant,
    /// The payload.
    pub data: Vec<u8>,
    /// Whether this is the last message of an experiment.
    pub kill: bool,
}

impl Data {
    /// A message with the given payload and kill flag, stamped with the
    /// current time.
    pub fn new(data: Vec<u8>, kill: bool) -> (d: Data)
        ensures
            d.data@ == data@,
            d.kill == kill,
    {
        Data { time: instant_now(), data, kill }
    }
}

impl Default for Data {
    /// An empty message without the kill flag, stamped with the current time.
    fn default() -> (d: Data)
        ensures
            d.data@ == Seq::<u8>::empty(),
            !d.kill,
    {
        Data { time: instant_now(), data: Vec::new(), kill: false }
    }
}

/// A payload of `payload_size_in_bytes` random bytes.
pub fn random_payload(payload_size_in_bytes: i64) -> (v: Vec<u8>)
    requires
        0 <= payload_size_in_bytes <= usize::MAX,
    ensures
        v@.len() == payload_size_in_bytes,
{
    let len = payload_size_in_bytes as usize;
    let mut v: Vec<u8> = Vec::new();
    while v.len() < len
        invariant
            v@.len() <= len,
        decreases len - v@.len(),
    {
        v.push(0);
    }
    fill_random(&mut v);
    v
}

} // verus!
