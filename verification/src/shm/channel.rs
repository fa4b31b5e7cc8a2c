//! Naming of the shared-memory segment of a topic, and the checks made
//! when a publisher or subscriber opens one.
use vstd::prelude::*;
use vstd::string::*;
use std::hash::{Hash, Hasher};
use crate::shm::error::ShmError;
use crate::shm::ring::MAX_TOPIC_LEN;
use crate::text::{hex_padded, push_hex_padded, text};

verus! {

/// What `<str as Hash>::hash` feeds a fresh `DefaultHasher` for the string
/// `s`, finished: the fingerprint from which a topic's segment is named.
pub uninterp spec fn std_str_hash(s: Seq<char>) -> u64;

/// The standard library's `DefaultHasher` fingerprint of `topic`.
///
/// `DefaultHasher::new()` always starts from the same keys, so the result is
/// a function of the text alone (for a given standard library); that is
/// what lets every process on a host derive the same segment name.
#[verifier::external_body]
fn default_hash_of_str(topic: &str) -> (h: u64)
    ensures
        h == std_str_hash(topic@),
{
    let mut state = std::collections::hash_map::DefaultHasher::new();
    topic.hash(&mut state);
    state.finish()
}

/// The POSIX shared-memory name of the segment of `topic`.
pub open spec fn spec_shm_name(topic: Seq<char>) -> Seq<char> {
    "/apex_"@ + hex_padded(std_str_hash(topic) as nat, 16)
}

/// Derive the stable POSIX name of the segment of `topic`: `/apex_`
/// followed by the 16 hexadecimal digits of its standard hash.
pub fn shm_name_for_topic(topic: &str) -> (name: String)
    ensures
        name@ == spec_shm_name(topic@),
{
    let h = default_hash_of_str(topic);
    let mut name = text("/apex_");
    push_hex_padded(&mut name, h, 16);
    name
}

/// The check that opening a channel makes on its topic: a name of at most
/// [`MAX_TOPIC_LEN`] bytes gives the segment name, a longer one
/// [`ShmError::TopicNameTooLong`].
pub fn segment_name(topic: &str) -> (r: Result<String, ShmError>)
    ensures
        match r {
            Ok(name) => topic.len() <= MAX_TOPIC_LEN && name@ == spec_shm_name(topic@),
            Err(ShmError::TopicNameTooLong { len }) => topic.len() > MAX_TOPIC_LEN && len
                == topic.len(),
            Err(_) => false,
        },
{
    if topic.len() > MAX_TOPIC_LEN {
        return Err(ShmError::TopicNameTooLong { len: topic.len() });
    }
    Ok(shm_name_for_topic(topic))
}

/// The first pause of a blocking receive that finds no data, in
/// microseconds.
pub const RECV_BACKOFF_START_US: u64 = 1;

/// The longest pause of a blocking receive, in microseconds (1 ms).
pub const RECV_BACKOFF_MAX_US: u64 = 1_000;

/// The pause that follows a pause of `delay_us` microseconds in a blocking
/// receive that keeps finding no data: twice as long, at most
/// [`RECV_BACKOFF_MAX_US`].
pub fn next_recv_backoff(delay_us: u64) -> (next: u64)
    ensures
        next == if 2 * delay_us < RECV_BACKOFF_MAX_US {
            2 * delay_us
        } else {
            RECV_BACKOFF_MAX_US as int
        },
{
    if delay_us < RECV_BACKOFF_MAX_US / 2 {
        2 * delay_us
    } else {
        RECV_BACKOFF_MAX_US
    }
}

} // verus!
