use vstd::prelude::*;

use crate::json::{encode_message, message_json};

verus! {

/// One log record as it travels to Vector.
#[derive(Debug)]
pub struct Message {
    pub timestamp: String,
    pub application: String,
    pub level: String,
    pub message: String,
}

impl Message {
    /// Builds a record from its four parts; the text of each is kept as given.
    pub fn new(timestamp: String, application: &str, level: &str, message: &str) -> (res: Self)
        ensures
            res.timestamp@ == timestamp@,
            res.application@ == application@,
            res.level@ == level@,
            res.message@ == message@,
    {
        Message {
            timestamp,
            application: application.to_owned(),
            level: level.to_owned(),
            message: message.to_owned(),
        }
    }

    /// The record's JSON text, as `serde_json` writes the derived serialisation of
    /// this struct: one object holding the four fields in declaration order.
    pub fn to_json(&self) -> (res: String)
        ensures
            res@ == message_json(self.timestamp@, self.application@, self.level@, self.message@),
    {
        encode_message(
            self.timestamp.as_str(),
            self.application.as_str(),
            self.level.as_str(),
            self.message.as_str(),
        )
    }
}

} // verus!
