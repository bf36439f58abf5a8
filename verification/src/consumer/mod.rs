//! What every exchange adapter shares.

use vstd::prelude::*;
use crate::broadcast_api::Timestamp;
use crate::consumer::error::ConsumerError;
use crate::domain::CurrencyPair;

pub mod error;
pub mod handler;
pub mod registry;
pub mod supervisor;

verus! {

/// What an adapter knows of its exchange before any message has come.
pub trait MarketHandler {
    /// A message that this exchange accepts.
    type Request;

    /// The subscriptions to ask for on a new connection, in the order in
    /// which they are sent.
    fn get_requests(pairs: &[CurrencyPair]) -> Vec<Self::Request>;

    /// The exchange's own name for a pair.
    fn stringify_pair(pair: &CurrencyPair) -> String;
}

/// The milliseconds in a count of whole seconds, where they can be written.
pub open spec fn millis(seconds: u64) -> Option<Timestamp> {
    if seconds * 1000 <= i64::MAX {
        Some((seconds * 1000) as i64)
    } else {
        None
    }
}

/// The timestamp for a reading of the clock: the whole seconds since the
/// Unix epoch, or none where the clock stands before it.
pub open spec fn reading_millis(reading: Option<u64>) -> Option<Timestamp> {
    match reading {
        Some(seconds) => millis(seconds),
        None => None,
    }
}

/// The timestamp for a reading of the clock, in milliseconds since the Unix
/// epoch. There is none where the clock stands before the epoch, or so far
/// after it that the milliseconds cannot be written.
pub fn timestamp_of(reading: Option<u64>) -> (ts: Option<Timestamp>)
    ensures
        ts == reading_millis(reading),
{
    match reading {
        Some(seconds) => {
            if seconds <= 9_223_372_036_854_775u64 {
                let ms: u64 = seconds * 1000;
                Some(ms as i64)
            } else {
                None
            }
        },
        None => None,
    }
}

/// A moment of the system's clock, as std holds it.
#[verifier::external_type_specification]
#[verifier::external_body]
pub struct ExSystemTime(std::time::SystemTime);

/// Reads the system's clock with `SystemTime::now`. Nothing is claimed of
/// the moment, which is the clock's.
#[verifier::external_body]
fn clock_now() -> (moment: std::time::SystemTime) {
    std::time::SystemTime::now()
}

/// Measures a moment from `UNIX_EPOCH` with `SystemTime::duration_since`.
/// There is no measure where the moment lies before the epoch; nothing else
/// is claimed.
#[verifier::external_body]
fn since_epoch(moment: &std::time::SystemTime) -> (elapsed: Option<std::time::Duration>) {
    match moment.duration_since(std::time::UNIX_EPOCH) {
        Ok(elapsed) => Some(elapsed),
        Err(_) => None,
    }
}

/// The whole seconds of a duration, by `Duration::as_secs`. Nothing is
/// claimed of their number.
#[verifier::external_body]
fn whole_seconds(elapsed: &std::time::Duration) -> (seconds: u64) {
    elapsed.as_secs()
}

/// The time by the system's clock, in milliseconds since the Unix epoch and
/// to the second: the timestamp of some reading of the clock.
pub fn timestamp() -> (ts: Option<Timestamp>)
    ensures
        exists|reading: Option<u64>| ts == reading_millis(reading),
{
    let moment = clock_now();
    let reading = match since_epoch(&moment) {
        Some(elapsed) => Some(whole_seconds(&elapsed)),
        None => None,
    };
    timestamp_of(reading)
}

/// An address, as the `url` crate holds it.
#[verifier::external_type_specification]
#[verifier::external_body]
pub struct ExUrl(url::Url);

/// The `url` crate's reason why a text is no address.
#[verifier::external_type_specification]
#[verifier::external_body]
pub struct ExParseError(url::ParseError);

/// Whether the `url` crate reads a text as an address.
pub uninterp spec fn is_address(text: Seq<char>) -> bool;

/// Calls `Url::parse` of the `url` crate. The claim is only that whether it
/// succeeds depends on the text alone; of the address itself nothing is
/// said.
#[verifier::external_body]
fn parse_url(input: &str) -> (parsed: Result<url::Url, url::ParseError>)
    ensures
        parsed is Ok <==> is_address(input@),
{
    url::Url::parse(input)
}

/// Reads the configured address of an exchange.
pub fn connect_addr(configured: &str) -> (addr: Result<url::Url, ConsumerError>)
    ensures
        addr is Ok <==> is_address(configured@),
        addr matches Err(error) ==> error == ConsumerError::BadAddress,
{
    match parse_url(configured) {
        Ok(addr) => Ok(addr),
        Err(_) => Err(ConsumerError::BadAddress),
    }
}

} // verus!
