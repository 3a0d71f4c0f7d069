//! The message channel's side: its configuration and the messages it carries.
use vstd::prelude::*;
use vstd::string::StringExecFns;

verus! {

/// Presence payload left by the broker when the bridge goes away.
pub const LWT_OFFLINE: &'static str = "OFFLINE";

/// Presence payload announced once connected.
pub const LWT_ONLINE: &'static str = "ONLINE";

/// Broker connection and the topics the bridge uses.
pub struct MqttHandlerConfig {
    pub id: String,
    pub host: String,
    pub port: u16,
    pub username: String,
    pub password: String,
    pub command_topic: String,
    pub status_topic: String,
    pub info_topic: String,
    pub lwt_topic: String,
}

/// A text message on a topic.
pub struct Message {
    pub topic: String,
    pub payload: String,
}

impl Message {
    /// The topic and the payload, separated by a space.
    pub fn to_string(&self) -> (r: String)
        ensures
            r@ == self.topic@ + " "@ + self.payload@,
    {
        self.topic.clone().concat(" ").concat(self.payload.as_str())
    }
}

impl MqttHandlerConfig {
    /// The message that carries a command's outcome to the status topic; nothing when
    /// there is no outcome to publish.
    pub fn reply(&self, outcome: Option<String>) -> (r: Option<Message>)
        ensures
            outcome is None ==> r is None,
            outcome matches Some(p) ==> (r matches Some(m) && m.topic == self.status_topic
                && m.payload == p),
    {
        match outcome {
            Some(payload) => Some(Message { topic: self.status_topic.clone(), payload }),
            None => None,
        }
    }
}

} // verus!
