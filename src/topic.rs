//! Addressing: the topic on which a device listens for install requests.

use vstd::prelude::*;

verus! {

/// Namespace and group that every install topic starts with.
pub const TOPIC_PREFIX: &'static str = "ez-cd/simple_install/";

/// Operation tag that every install topic ends with.
pub const TOPIC_SUFFIX: &'static str = "/dpkg";

/// The topic of a device: `ez-cd/simple_install/<device>/dpkg`.
pub open spec fn simple_install_topic(device: Seq<char>) -> Seq<char> {
    TOPIC_PREFIX@ + device + TOPIC_SUFFIX@
}

/// Why a topic could not be resolved.
#[derive(Debug, Clone, Copy, PartialEq, Eq, Structural)]
pub enum TopicError {
    /// The device identity was the empty string.
    EmptyDeviceIdentity,
}

/// Topic on which the device named `device_name` receives install requests.
/// A device identity is never empty; `resolve_topic` refuses an empty one.
pub fn get_simple_install_topic(device_name: &str) -> (r: String)
    requires
        device_name@.len() > 0,
    ensures
        r@ == simple_install_topic(device_name@),
{
    let mut topic = String::from_str(TOPIC_PREFIX);
    topic.append(device_name);
    topic.append(TOPIC_SUFFIX);
    topic
}

/// Like `get_simple_install_topic`, but refuses an empty device identity.
pub fn resolve_topic(device_name: &str) -> (r: Result<String, TopicError>)
    ensures
        device_name@.len() == 0 <==> r == Err::<String, TopicError>(TopicError::EmptyDeviceIdentity),
        r matches Ok(t) ==> t@ == simple_install_topic(device_name@),
{
    if device_name.unicode_len() == 0 {
        Err(TopicError::EmptyDeviceIdentity)
    } else {
        Ok(get_simple_install_topic(device_name))
    }
}

/// Sender and receiver agree on addressing: the topic is a function of the
/// device identity, and two different identities never share a topic.
pub proof fn lemma_topic_addresses_one_device(d1: Seq<char>, d2: Seq<char>)
    ensures
        simple_install_topic(d1) == simple_install_topic(d2) <==> d1 == d2,
{
    if simple_install_topic(d1) == simple_install_topic(d2) {
        let t = simple_install_topic(d1);
        let p: int = TOPIC_PREFIX@.len() as int;
        assert(simple_install_topic(d1).len() == p + d1.len() + TOPIC_SUFFIX@.len());
        assert(simple_install_topic(d2).len() == p + d2.len() + TOPIC_SUFFIX@.len());
        assert(d1.len() == d2.len());
        assert(d1 =~= t.subrange(p, p + d1.len()));
        assert(d2 =~= t.subrange(p, p + d2.len()));
    }
}

} // verus!
