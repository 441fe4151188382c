//! Messages as the message store keeps them, and their conversions to and from
//! database rows and the D-Bus reply format.
use vstd::prelude::*;

verus! {

/// A stored chat message.
#[derive(Clone, Debug)]
pub struct StoredMessage {
    pub id: String,
    pub peer_id: String,
    pub is_outgoing: bool,
    pub content: String,
    pub timestamp: u64,
    pub delivered: bool,
}

/// One message as the D-Bus method `GetConversation` returns it: id, peer id,
/// whether outgoing, content, timestamp and whether delivered.
pub type ConversationEntry = (String, String, bool, String, u64, bool);

/// The integer column value that stores a flag.
pub fn flag_column(flag: bool) -> (v: u8)
    ensures
        v == (if flag {
            1u8
        } else {
            0u8
        }),
{
    if flag {
        1
    } else {
        0
    }
}

impl StoredMessage {
    /// A message read back from a database row; an integer flag column is true
    /// where it is not zero.
    pub fn from_row(
        id: String,
        peer_id: String,
        is_outgoing: u8,
        content: String,
        timestamp: u64,
        delivered: u8,
    ) -> (m: StoredMessage)
        ensures
            m.id@ == id@,
            m.peer_id@ == peer_id@,
            m.is_outgoing == (is_outgoing != 0),
            m.content@ == content@,
            m.timestamp == timestamp,
            m.delivered == (delivered != 0),
    {
        StoredMessage {
            id,
            peer_id,
            is_outgoing: is_outgoing != 0,
            content,
            timestamp,
            delivered: delivered != 0,
        }
    }

    /// The message in the D-Bus reply format.
    pub fn into_entry(self) -> (e: ConversationEntry)
        ensures
            e.0@ == self.id@,
            e.1@ == self.peer_id@,
            e.2 == self.is_outgoing,
            e.3@ == self.content@,
            e.4 == self.timestamp,
            e.5 == self.delivered,
    {
        (self.id, self.peer_id, self.is_outgoing, self.content, self.timestamp, self.delivered)
    }
}

/// A conversation in the D-Bus reply format, message by message in order.
pub fn conversation_entries(messages: Vec<StoredMessage>) -> (entries: Vec<ConversationEntry>)
    ensures
        entries@.len() == messages@.len(),
        forall|i: int|
            0 <= i < entries@.len() ==> {
                let e = #[trigger] entries@[i];
                let m = messages@[i];
                &&& e.0@ == m.id@
                &&& e.1@ == m.peer_id@
                &&& e.2 == m.is_outgoing
                &&& e.3@ == m.content@
                &&& e.4 == m.timestamp
                &&& e.5 == m.delivered
            },
{
    let ghost original = messages@;
    let mut entries: Vec<ConversationEntry> = Vec::new();
    let mut rest = messages;
    while rest.len() > 0
        invariant
            entries@.len() + rest@.len() == original.len(),
            rest@ == original.subrange(entries@.len() as int, original.len() as int),
            forall|i: int|
                0 <= i < entries@.len() ==> {
                    let e = #[trigger] entries@[i];
                    let m = original[i];
                    &&& e.0@ == m.id@
                    &&& e.1@ == m.peer_id@
                    &&& e.2 == m.is_outgoing
                    &&& e.3@ == m.content@
                    &&& e.4 == m.timestamp
                    &&& e.5 == m.delivered
                },
        decreases rest@.len(),
    {
        let m = rest.remove(0);
        entries.push(m.into_entry());
    }
    entries
}

} // verus!
