use vstd::prelude::*;
use serde_json::Value;
use crate::network::action::action_of;
use crate::network::action::Action;
use crate::network::json::json_document;
use crate::network::json::json_fields;

verus! {

/// What came of the bytes read so far.
#[derive(Debug)]
pub enum Listened {
    /// The peer has closed the connection: the read brought no byte.
    Disconnected,
    /// The bytes gathered so far are not yet a message.
    Incomplete,
    /// The bytes gathered are one message: its action and parsed value.
    Message(Action, Value),
}

/// Whether a text is a message: one JSON value that names an action.
pub open spec fn is_message(data: Seq<u8>) -> bool {
    json_document(data) is Some && action_of(json_document(data)->0) is Some
}

/// Takes in what one read from the stream brought. The bytes are added to
/// those gathered in `data`; once all of them together are a message, the
/// message is handed out and `data` is emptied for the next one. A read
/// of no bytes means that the peer is gone.
pub fn network_listener(data: &mut Vec<u8>, chunk: &[u8]) -> (r: Listened)
    ensures
        match r {
            Listened::Disconnected => chunk@.len() == 0 && final(data)@ == old(data)@,
            Listened::Incomplete => {
                &&& chunk@.len() > 0
                &&& !is_message(old(data)@ + chunk@)
                &&& final(data)@ == old(data)@ + chunk@
            },
            Listened::Message(action, message) => {
                &&& chunk@.len() > 0
                &&& json_document(old(data)@ + chunk@) == Some(json_fields(message))
                &&& action_of(json_fields(message)) == Some(action)
                &&& final(data)@.len() == 0
            },
        },
{
    if chunk.len() == 0 {
        return Listened::Disconnected;
    }
    let mut i: usize = 0;
    while i < chunk.len()
        invariant
            i <= chunk@.len(),
            data@ == old(data)@ + chunk@.take(i as int),
        decreases chunk@.len() - i,
    {
        data.push(chunk[i]);
        assert(chunk@.take(i + 1) =~= chunk@.take(i as int).push(chunk@[i as int]));
        assert(data@ =~= old(data)@ + chunk@.take(i + 1));
        i += 1;
    }
    assert(chunk@.take(i as int) =~= chunk@);
    match Action::serde_find_action(data) {
        Ok((action, message)) => {
            data.clear();
            Listened::Message(action, message)
        },
        Err(_) => Listened::Incomplete,
    }
}

} // verus!
