use vstd::prelude::*;
use vstd::string::StringExecFns;

verus! {

/// What the gateway tells the bot, as far as the bot reacts to it.
pub enum Event {
    /// Somebody wrote a message.
    Message { author: String, content: String },
    /// The bot is connected, under the name `user`.
    Ready { user: String },
    /// Anything else.
    Other,
}

pub struct Handler;

/// The line that tells of a connection.
pub open spec fn ready_line(user: Seq<char>) -> Seq<char> {
    user + " is connected!"@
}

/// The line that tells of a message.
pub open spec fn message_line(author: Seq<char>, content: Seq<char>) -> Seq<char> {
    author + " said: "@ + content
}

/// The line that tells of an event, if the bot reacts to it.
pub open spec fn event_line(event: Event) -> Option<Seq<char>> {
    match event {
        Event::Message { author, content } => Some(message_line(author@, content@)),
        Event::Ready { user } => Some(ready_line(user@)),
        Event::Other => None,
    }
}

impl Handler {
    pub fn ready(&self, user: &str) -> (line: String)
        ensures
            line@ == ready_line(user@),
    {
        String::from_str(user).concat(" is connected!")
    }

    pub fn message(&self, author: &str, content: &str) -> (line: String)
        ensures
            line@ == message_line(author@, content@),
    {
        String::from_str(author).concat(" said: ").concat(content)
    }

    /// Hands the event to the handler that is there for it, and returns the line to log.
    pub fn match_event(&self, event: &Event) -> (line: Option<String>)
        ensures
            line.deep_view() == event_line(*event),
    {
        match event {
            Event::Message { author, content } => Some(
                self.message(author.as_str(), content.as_str()),
            ),
            Event::Ready { user } => Some(self.ready(user.as_str())),
            Event::Other => None,
        }
    }
}

} // verus!
