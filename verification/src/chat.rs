//! What a chat relay does with the messages of one connection.
//!
//! A connection first says who it is. After that, each message it sends is
//! turned into what the relay passes on to everybody.

use vstd::prelude::*;

verus! {

/// The messages that travel between the clients and the relay.
#[derive(Debug, Clone, PartialEq, Eq)]
pub enum Message {
    /// A client says who it is.
    User(String),
    /// A client says something.
    ClientMessage(String),
    /// The relay passes on what a user said.
    Chat { user: String, content: String },
}

/// What the relay passes on when the connection of `user` sends `msg`:
/// a new name as it is, what was said together with the name of who said
/// it, and nothing for a message that only the relay may send.
pub open spec fn relayed(user: String, msg: Message) -> Option<Message> {
    match msg {
        Message::User(new_user) => Some(Message::User(new_user)),
        Message::ClientMessage(content) => Some(Message::Chat { user, content }),
        Message::Chat { user: _, content: _ } => None,
    }
}

/// The name of the connection after it sent `msg`.
pub open spec fn renamed(user: String, msg: Message) -> String {
    match msg {
        Message::User(new_user) => new_user,
        _ => user,
    }
}

/// Takes the first message of a connection. It has to say who the client
/// is; any other message is handed back.
pub fn join(first: Message) -> (r: Result<String, Message>)
    ensures
        r == (match first {
            Message::User(user) => Ok::<String, Message>(user),
            other => Err::<String, Message>(other),
        }),
{
    match first {
        Message::User(user) => Ok(user),
        other => Err(other),
    }
}

/// Takes a later message of the connection of `user`: updates the name
/// and returns what the relay passes on.
pub fn relay(user: &mut String, msg: Message) -> (out: Option<Message>)
    ensures
        *final(user) == renamed(*old(user), msg),
        out == relayed(*old(user), msg),
{
    match msg {
        Message::User(new_user) => {
            *user = new_user;
            Some(Message::User(user.clone()))
        },
        Message::ClientMessage(content) => Some(Message::Chat { user: user.clone(), content }),
        Message::Chat { user: _, content: _ } => None,
    }
}

} // verus!
