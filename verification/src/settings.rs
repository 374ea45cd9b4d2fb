use vstd::prelude::*;

use crate::clock::{read_clock, reading_in_range, reading_text, timestamp_of_reading};
use crate::json::{lemma_message_json_reads_back, message_json, read_message_json};
use crate::level::{Severity, admits, level_admits, severity_label};
use crate::message::Message;

verus! {

/// What a logger holds besides its connection: the application name that tags
/// every record and the configured level.
pub struct LoggerSettings {
    pub application: String,
    pub level: String,
}

/// What a log call comes to, before anything is written to the connection.
pub enum Dispatch {
    /// The configured level filters the call out: nothing is sent.
    Suppressed,
    /// The record to send and its JSON text.
    Deliver { record: Message, json: String },
    /// The clock reading has no timestamp text.
    ClockUnavailable,
}

/// The outcome of a call at `severity` with the given message text, for a logger
/// with the given application and level, once the timestamp text is known.
pub open spec fn dispatch_for(
    application: Seq<char>,
    level: Seq<char>,
    severity: Severity,
    timestamp: Seq<char>,
    message: Seq<char>,
    res: Dispatch,
) -> bool {
    if !level_admits(level, severity) {
        res is Suppressed
    } else {
        match res {
            Dispatch::Deliver { record, json } => {
                &&& record.timestamp@ == timestamp
                &&& record.application@ == application
                &&& record.level@ == severity_label(severity)
                &&& record.message@ == message
                &&& json@ == message_json(timestamp, application, severity_label(severity), message)
            },
            _ => false,
        }
    }
}

impl LoggerSettings {
    /// Settings for the given application name and level; both texts are kept as given.
    pub fn new(application: &str, level: &str) -> (res: Self)
        ensures
            res.application@ == application@,
            res.level@ == level@,
    {
        LoggerSettings { application: application.to_owned(), level: level.to_owned() }
    }

    /// The settings a reconnected logger carries: the same application and level.
    pub fn reconnect(&self) -> (res: Self)
        ensures
            res.application@ == self.application@,
            res.level@ == self.level@,
    {
        LoggerSettings { application: self.application.clone(), level: self.level.clone() }
    }

    /// Whether a call at the given severity is sent.
    pub fn admits(&self, severity: Severity) -> (res: bool)
        ensures
            res == level_admits(self.level@, severity),
    {
        admits(self.level.as_str(), severity)
    }

    /// The record of a call at the given severity, stamped with the given time.
    pub fn entry(&self, severity: Severity, timestamp: String, message: &str) -> (res: Message)
        ensures
            res.timestamp@ == timestamp@,
            res.application@ == self.application@,
            res.level@ == severity_label(severity),
            res.message@ == message@,
    {
        Message::new(timestamp, self.application.as_str(), severity.label(), message)
    }

    /// What a call at the given severity comes to, with the timestamp text given.
    pub fn compose(&self, severity: Severity, timestamp: String, message: &str) -> (res: Dispatch)
        ensures
            dispatch_for(self.application@, self.level@, severity, timestamp@, message@, res),
    {
        if !self.admits(severity) {
            return Dispatch::Suppressed;
        }
        let record = self.entry(severity, timestamp, message);
        let json = record.to_json();
        Dispatch::Deliver { record, json }
    }

    /// What a call at the given severity comes to, for the given clock reading
    /// (seconds and nanoseconds since the Unix epoch, `None` for no reading): the
    /// record is stamped with that reading's text; the clock counts as unavailable
    /// exactly when the reading has no text.
    pub fn prepare_with_reading(
        &self,
        severity: Severity,
        message: &str,
        reading: Option<(u64, u32)>,
    ) -> (res: Dispatch)
        ensures
            !level_admits(self.level@, severity) ==> res is Suppressed,
            level_admits(self.level@, severity) ==> match reading_text(reading) {
                Some(timestamp) => dispatch_for(
                    self.application@,
                    self.level@,
                    severity,
                    timestamp,
                    message@,
                    res,
                ),
                None => res is ClockUnavailable,
            },
            level_admits(self.level@, severity) && reading_in_range(reading) ==> res is Deliver,
    {
        if !self.admits(severity) {
            return Dispatch::Suppressed;
        }
        match timestamp_of_reading(reading) {
            Some(timestamp) => self.compose(severity, timestamp, message),
            None => Dispatch::ClockUnavailable,
        }
    }

    /// What a call at the given severity comes to, the clock being read only when
    /// the level lets the call through. For some reading of the clock, the call
    /// comes to what `compose` gives for that reading's timestamp text; the clock is
    /// unavailable only when it reads before 1970 or after the year 9999.
    pub fn prepare(&self, severity: Severity, message: &str) -> (res: Dispatch)
        ensures
            !level_admits(self.level@, severity) ==> res is Suppressed,
            level_admits(self.level@, severity) ==> exists|reading: Option<(u64, u32)>|
                #![trigger reading_text(reading)]
                {
                    &&& reading matches Some(r) ==> r.1 < 1_000_000_000
                    &&& match reading_text(reading) {
                        Some(timestamp) => dispatch_for(
                            self.application@,
                            self.level@,
                            severity,
                            timestamp,
                            message@,
                            res,
                        ),
                        None => res is ClockUnavailable,
                    }
                    &&& reading_in_range(reading) ==> !(res is ClockUnavailable)
                },
    {
        if !self.admits(severity) {
            return Dispatch::Suppressed;
        }
        let reading = read_clock();
        self.prepare_with_reading(severity, message, reading)
    }
}

/// Whatever the level, a call that the level lets through and that has a
/// timestamp text is delivered: it neither comes to nothing nor reports the clock.
pub proof fn lemma_admitted_call_with_timestamp_is_delivered(
    application: Seq<char>,
    level: Seq<char>,
    severity: Severity,
    timestamp: Seq<char>,
    message: Seq<char>,
    res: Dispatch,
)
    requires
        level_admits(level, severity),
        dispatch_for(application, level, severity, timestamp, message, res),
    ensures
        res is Deliver,
{
}

/// The JSON that a delivered call sends reads back as its timestamp, the
/// logger's application, the severity's label and the message.
pub proof fn lemma_delivered_json_reads_back(
    application: Seq<char>,
    level: Seq<char>,
    severity: Severity,
    timestamp: Seq<char>,
    message: Seq<char>,
    record: Message,
    json: String,
)
    requires
        dispatch_for(
            application,
            level,
            severity,
            timestamp,
            message,
            Dispatch::Deliver { record, json },
        ),
    ensures
        read_message_json(json@) == Some(
            (timestamp, application, severity_label(severity), message),
        ),
{
    lemma_message_json_reads_back(timestamp, application, severity_label(severity), message);
}

/// Two delivered calls stamped with different timestamp texts send different
/// records and different JSON, whatever else they share.
pub proof fn lemma_timestamp_distinguishes_deliveries(
    application: Seq<char>,
    level: Seq<char>,
    severity1: Severity,
    severity2: Severity,
    timestamp1: Seq<char>,
    timestamp2: Seq<char>,
    message1: Seq<char>,
    message2: Seq<char>,
    record1: Message,
    json1: String,
    record2: Message,
    json2: String,
)
    requires
        dispatch_for(
            application,
            level,
            severity1,
            timestamp1,
            message1,
            Dispatch::Deliver { record: record1, json: json1 },
        ),
        dispatch_for(
            application,
            level,
            severity2,
            timestamp2,
            message2,
            Dispatch::Deliver { record: record2, json: json2 },
        ),
        timestamp1 != timestamp2,
    ensures
        record1.timestamp@ != record2.timestamp@,
        json1@ != json2@,
{
    lemma_message_json_reads_back(timestamp1, application, severity_label(severity1), message1);
    lemma_message_json_reads_back(timestamp2, application, severity_label(severity2), message2);
}

} // verus!
