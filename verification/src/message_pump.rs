use vstd::prelude::*;

use crate::events::SceneManagerMessage;

verus! {

/// The queue through which systems address the scene manager.
///
/// Messages are kept in the order in which they were sent.
pub struct SceneManagerMessagePump {
    messages: Vec<SceneManagerMessage>,
}

impl View for SceneManagerMessagePump {
    type V = Seq<SceneManagerMessage>;

    closed spec fn view(&self) -> Seq<SceneManagerMessage> {
        self.messages@
    }
}

impl SceneManagerMessagePump {
    /// An empty pump.
    pub fn new() -> (pump: Self)
        ensures
            pump@ == Seq::<SceneManagerMessage>::empty(),
    {
        SceneManagerMessagePump { messages: Vec::new() }
    }

    /// Queues `message` behind every message already waiting.
    pub fn send(&mut self, message: SceneManagerMessage)
        ensures
            final(self)@ == old(self)@.push(message),
    {
        self.messages.push(message);
    }

    /// Drops every waiting message.
    pub fn clear(&mut self)
        ensures
            final(self)@ == Seq::<SceneManagerMessage>::empty(),
    {
        self.messages.clear();
    }

    /// Hands out every waiting message, oldest first, and leaves the pump empty.
    pub fn take_messages(&mut self) -> (messages: Vec<SceneManagerMessage>)
        ensures
            messages@ == old(self)@,
            final(self)@ == Seq::<SceneManagerMessage>::empty(),
    {
        let mut taken: Vec<SceneManagerMessage> = Vec::new();
        std::mem::swap(&mut taken, &mut self.messages);
        taken
    }

    /// The number of waiting messages.
    pub fn len(&self) -> (n: usize)
        ensures
            n == self@.len(),
    {
        self.messages.len()
    }
}

impl Default for SceneManagerMessagePump {
    fn default() -> (pump: Self)
        ensures
            pump@ == Seq::<SceneManagerMessage>::empty(),
    {
        SceneManagerMessagePump::new()
    }
}

} // verus!
