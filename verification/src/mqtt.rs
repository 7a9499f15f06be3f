//! The ingestion pipeline: every inbound message is audited, then throttled,
//! parsed, validated and, if it passes, handed on to be stored.

use vstd::prelude::*;
use vstd::string::*;
use crate::json::{
    field_of, json_document, json_fields, json_object, object_contains_key, object_reading,
    option_view, parse_value, value_as_object, FieldReading, FieldView,
};
use crate::model::{SensorReading, SensorReadingView};
use crate::text::{final_segment, last_segment};

verus! {

/// The statement that writes the audit record of a message: its topic and
/// its payload.
pub const AUDIT_INSERT: &'static str = "INSERT INTO messages (topic, payload) VALUES (?1, ?2)";

/// The statement that stores a reading: temperature, humidity, link quality
/// and device.
pub const READING_INSERT: &'static str =
    "INSERT INTO sensor_data (temperature, humidity, linkquality, device_id) VALUES (?1, ?2, ?3, ?4)";

/// The fields a sensor payload must carry.
#[derive(Clone, Copy, Debug, PartialEq, Eq, Structural)]
pub enum SensorField {
    Temperature,
    Humidity,
    Linkquality,
}

/// Why a payload was not accepted as a reading.
#[derive(Clone, Copy, Debug, PartialEq, Eq, Structural)]
pub enum ValidationError {
    /// The payload has no such field.
    MissingField(SensorField),
    /// The field is there but is not a number of the kind required.
    WrongType(SensorField),
}

/// Validation of the three fields of a payload from `topic`. The
/// temperature must read as a decimal number, humidity and link quality as
/// integers; the first field that fails, in that order, decides the error.
/// The device is named by the last segment of the topic.
pub open spec fn validated(
    temperature: Option<FieldView>,
    humidity: Option<FieldView>,
    linkquality: Option<FieldView>,
    topic: Seq<char>,
) -> Result<SensorReadingView, ValidationError> {
    if temperature is None {
        Err(ValidationError::MissingField(SensorField::Temperature))
    } else if temperature->0.decimal is None {
        Err(ValidationError::WrongType(SensorField::Temperature))
    } else if humidity is None {
        Err(ValidationError::MissingField(SensorField::Humidity))
    } else if humidity->0.integer is None {
        Err(ValidationError::WrongType(SensorField::Humidity))
    } else if linkquality is None {
        Err(ValidationError::MissingField(SensorField::Linkquality))
    } else if linkquality->0.integer is None {
        Err(ValidationError::WrongType(SensorField::Linkquality))
    } else {
        Ok(
            SensorReadingView {
                temperature: temperature->0.decimal->0,
                humidity: humidity->0.integer->0,
                linkquality: linkquality->0.integer->0,
                device_id: last_segment(topic),
            },
        )
    }
}

/// `r` is the reading or the error that `expected` names.
pub open spec fn validation_is(
    r: Result<SensorReading, ValidationError>,
    expected: Result<SensorReadingView, ValidationError>,
) -> bool {
    match r {
        Ok(reading) => expected == Ok::<SensorReadingView, ValidationError>(reading@),
        Err(e) => expected == Err::<SensorReadingView, ValidationError>(e),
    }
}

/// Validates the three fields of a sensor payload received on `topic`.
pub fn validate_reading(
    temperature: Option<FieldReading>,
    humidity: Option<FieldReading>,
    linkquality: Option<FieldReading>,
    topic: &str,
) -> (r: Result<SensorReading, ValidationError>)
    ensures
        validation_is(
            r,
            validated(
                option_view(temperature),
                option_view(humidity),
                option_view(linkquality),
                topic@,
            ),
        ),
{
    let temperature = match temperature {
        None => { return Err(ValidationError::MissingField(SensorField::Temperature)); },
        Some(field) => match field.decimal {
            None => { return Err(ValidationError::WrongType(SensorField::Temperature)); },
            Some(decimal) => decimal,
        },
    };
    let humidity = match humidity {
        None => { return Err(ValidationError::MissingField(SensorField::Humidity)); },
        Some(field) => match field.integer {
            None => { return Err(ValidationError::WrongType(SensorField::Humidity)); },
            Some(integer) => integer,
        },
    };
    let linkquality = match linkquality {
        None => { return Err(ValidationError::MissingField(SensorField::Linkquality)); },
        Some(field) => match field.integer {
            None => { return Err(ValidationError::WrongType(SensorField::Linkquality)); },
            Some(integer) => integer,
        },
    };
    Ok(SensorReading { temperature, humidity, linkquality, device_id: final_segment(topic) })
}

/// The reading or the error that the fields of a JSON object give for a
/// payload from `topic`.
pub open spec fn sensor_reading_of(fields: Map<Seq<char>, FieldView>, topic: Seq<char>) -> Result<
    SensorReadingView,
    ValidationError,
> {
    validated(
        field_of(fields, "temperature"@),
        field_of(fields, "humidity"@),
        field_of(fields, "linkquality"@),
        topic,
    )
}

/// Validates a temperature and humidity payload received on `topic`.
pub fn temperature_and_humidity_sensor(
    json_object: &serde_json::Map<String, serde_json::Value>,
    topic: &str,
) -> (r: Result<SensorReading, ValidationError>)
    ensures
        validation_is(r, sensor_reading_of(json_fields(*json_object), topic@)),
{
    let temperature = object_reading(json_object, "temperature");
    let humidity = object_reading(json_object, "humidity");
    let linkquality = object_reading(json_object, "linkquality");
    validate_reading(temperature, humidity, linkquality, topic)
}

/// What became of a message after it was audited.
#[derive(Debug, PartialEq, Eq)]
pub enum Processing {
    /// Too soon after the last processed message; not looked at.
    RateLimited,
    /// The payload is not a JSON document.
    Malformed,
    /// The payload is JSON but not an object.
    NotAnObject,
    /// An object without both a temperature and a humidity: not a sensor
    /// payload.
    Ignored,
    /// A sensor payload that failed validation.
    Rejected(ValidationError),
    /// A reading to store.
    Accepted(SensorReading),
}

/// What a `Processing` says.
pub enum ProcessingView {
    RateLimited,
    Malformed,
    NotAnObject,
    Ignored,
    Rejected(ValidationError),
    Accepted(SensorReadingView),
}

impl View for Processing {
    type V = ProcessingView;

    open spec fn view(&self) -> ProcessingView {
        match self {
            Processing::RateLimited => ProcessingView::RateLimited,
            Processing::Malformed => ProcessingView::Malformed,
            Processing::NotAnObject => ProcessingView::NotAnObject,
            Processing::Ignored => ProcessingView::Ignored,
            Processing::Rejected(e) => ProcessingView::Rejected(*e),
            Processing::Accepted(reading) => ProcessingView::Accepted(reading@),
        }
    }
}

/// Whether an object is a sensor payload: it has both a temperature and a
/// humidity.
pub open spec fn is_sensor_payload(fields: Map<Seq<char>, FieldView>) -> bool {
    fields.dom().contains("temperature"@) && fields.dom().contains("humidity"@)
}

/// What becomes of a parsed payload from `topic`, given its fields if it is
/// an object.
pub open spec fn handled(object: Option<Map<Seq<char>, FieldView>>, topic: Seq<char>) -> ProcessingView {
    match object {
        None => ProcessingView::NotAnObject,
        Some(fields) => if is_sensor_payload(fields) {
            match sensor_reading_of(fields, topic) {
                Ok(reading) => ProcessingView::Accepted(reading),
                Err(e) => ProcessingView::Rejected(e),
            }
        } else {
            ProcessingView::Ignored
        },
    }
}

/// Decides what becomes of a parsed payload received on `topic`.
pub fn handle_message(payload: &serde_json::Value, topic: &str) -> (r: Processing)
    ensures
        r@ == handled(json_object(*payload), topic@),
{
    match value_as_object(payload) {
        Some(key_value_json) => {
            if object_contains_key(key_value_json, "temperature") && object_contains_key(
                key_value_json,
                "humidity",
            ) {
                match temperature_and_humidity_sensor(key_value_json, topic) {
                    Ok(reading) => Processing::Accepted(reading),
                    Err(e) => Processing::Rejected(e),
                }
            } else {
                Processing::Ignored
            }
        },
        None => Processing::NotAnObject,
    }
}

/// What becomes of a payload text from `topic`, given what it is as JSON.
pub open spec fn processed(
    document: Option<Option<Map<Seq<char>, FieldView>>>,
    topic: Seq<char>,
) -> ProcessingView {
    match document {
        None => ProcessingView::Malformed,
        Some(object) => handled(object, topic),
    }
}

/// Decides what becomes of the outcome of parsing a payload received on
/// `topic`.
pub fn handle_parsed(parsed: &Result<serde_json::Value, serde_json::Error>, topic: &str) -> (r:
    Processing)
    ensures
        r@ == match parsed {
            Ok(value) => handled(json_object(*value), topic@),
            Err(_) => ProcessingView::Malformed,
        },
{
    match parsed {
        Ok(value) => handle_message(value, topic),
        Err(_) => Processing::Malformed,
    }
}

/// Parses a payload received on `topic` and decides what becomes of it.
pub fn process_payload(payload: &str, topic: &str) -> (r: Processing)
    ensures
        r@ == processed(json_document(payload@), topic@),
{
    let parsed = parse_value(payload);
    handle_parsed(&parsed, topic)
}

/// The least time, in milliseconds, between two processed messages: thirty
/// minutes.
pub const RATE_LIMIT_WINDOW_MS: u64 = 1_800_000;

/// The throttle of the pipeline: one timer for all topics, which remembers
/// when a message was last processed. Times are milliseconds on a clock that
/// the caller reads.
#[derive(Clone, Copy, Debug, PartialEq, Eq, Structural)]
pub struct RateLimiter {
    /// When a message was last processed; `None` before the first.
    pub last_processed: Option<u64>,
}

impl RateLimiter {
    /// A throttle that has processed nothing yet.
    pub fn new() -> (r: Self)
        ensures
            r.last_processed is None,
    {
        RateLimiter { last_processed: None }
    }

    /// Whether a message that arrives at `now` is processed: the first one
    /// always, a later one when a full window has passed since the last
    /// processed one. A clock that ran backwards admits nothing.
    pub open spec fn admits(self, now: u64) -> bool {
        match self.last_processed {
            None => true,
            Some(last) => now - last >= RATE_LIMIT_WINDOW_MS,
        }
    }

    /// The throttle after a message arrived at `now`.
    pub open spec fn after(self, now: u64) -> RateLimiter {
        if self.admits(now) {
            RateLimiter { last_processed: Some(now) }
        } else {
            self
        }
    }

    /// Decides whether the message that arrives at `now` is processed, and
    /// restarts the timer if it is.
    pub fn let_through(&mut self, now: u64) -> (r: bool)
        ensures
            r == old(self).admits(now),
            *final(self) == old(self).after(now),
    {
        let admitted = match self.last_processed {
            None => true,
            Some(last) => now >= last && now - last >= RATE_LIMIT_WINDOW_MS,
        };
        if admitted {
            self.last_processed = Some(now);
        }
        admitted
    }
}

/// An inbound message as it was received.
#[derive(Debug, PartialEq, Eq)]
pub struct RawMessage {
    pub topic: String,
    pub payload: String,
}

/// What is to be done for one inbound message: the audit record to write,
/// always, and what became of the message after that.
#[derive(Debug, PartialEq, Eq)]
pub struct MessagePlan {
    pub audit: RawMessage,
    pub processing: Processing,
}

/// What a `MessagePlan` says.
pub struct MessagePlanView {
    pub audit_topic: Seq<char>,
    pub audit_payload: Seq<char>,
    pub processing: ProcessingView,
}

impl View for MessagePlan {
    type V = MessagePlanView;

    open spec fn view(&self) -> MessagePlanView {
        MessagePlanView {
            audit_topic: self.audit.topic@,
            audit_payload: self.audit.payload@,
            processing: self.processing@,
        }
    }
}

/// The state of the ingestion task between two messages.
#[derive(Clone, Copy, Debug, PartialEq, Eq, Structural)]
pub struct IngestionPipeline {
    pub limiter: RateLimiter,
}

impl IngestionPipeline {
    /// A pipeline that has seen no message.
    pub fn new() -> (r: Self)
        ensures
            r.limiter.last_processed is None,
    {
        IngestionPipeline { limiter: RateLimiter::new() }
    }

    /// The plan for a message that arrives at `now`, given what its payload
    /// is as JSON.
    pub open spec fn plan(
        self,
        now: u64,
        topic: Seq<char>,
        payload: Seq<char>,
        document: Option<Option<Map<Seq<char>, FieldView>>>,
    ) -> MessagePlanView {
        MessagePlanView {
            audit_topic: topic,
            audit_payload: payload,
            processing: if self.limiter.admits(now) {
                processed(document, topic)
            } else {
                ProcessingView::RateLimited
            },
        }
    }

    /// The pipeline after a message arrived at `now`.
    pub open spec fn after(self, now: u64) -> IngestionPipeline {
        IngestionPipeline { limiter: self.limiter.after(now) }
    }

    /// Takes in the message that arrives at `now`. The plan always carries
    /// the audit record; the payload is looked at only if the throttle
    /// admits the message.
    pub fn on_message(&mut self, now: u64, topic: &str, payload: &str) -> (r: MessagePlan)
        ensures
            r@ == old(self).plan(now, topic@, payload@, json_document(payload@)),
            *final(self) == old(self).after(now),
    {
        let audit = RawMessage { topic: String::from_str(topic), payload: String::from_str(payload) };
        let processing = if self.limiter.let_through(now) {
            process_payload(payload, topic)
        } else {
            Processing::RateLimited
        };
        MessagePlan { audit, processing }
    }
}

/// Whether an object carries a temperature that reads as a decimal number
/// and a humidity and a link quality that read as integers.
pub open spec fn is_valid_payload(fields: Map<Seq<char>, FieldView>) -> bool {
    &&& field_of(fields, "temperature"@) matches Some(t) && t.decimal is Some
    &&& field_of(fields, "humidity"@) matches Some(h) && h.integer is Some
    &&& field_of(fields, "linkquality"@) matches Some(l) && l.integer is Some
}

/// A processed message whose payload is an object with a numeric
/// temperature, humidity and link quality yields a reading to store: the
/// three values as the payload gives them, for the device that the last
/// segment of the topic names.
pub proof fn law_valid_payload_is_stored(
    pipeline: IngestionPipeline,
    now: u64,
    topic: Seq<char>,
    payload: Seq<char>,
    fields: Map<Seq<char>, FieldView>,
)
    requires
        pipeline.limiter.admits(now),
        is_valid_payload(fields),
    ensures
        pipeline.plan(now, topic, payload, Some(Some(fields))).processing
            == ProcessingView::Accepted(
            SensorReadingView {
                temperature: fields["temperature"@].decimal->0,
                humidity: fields["humidity"@].integer->0,
                linkquality: fields["linkquality"@].integer->0,
                device_id: last_segment(topic),
            },
        ),
{
}

/// A message whose payload is anything but an object with a numeric
/// temperature, humidity and link quality yields no reading to store,
/// whatever the state of the pipeline; its audit record is the message as
/// received all the same.
pub proof fn law_invalid_payload_is_audited_not_stored(
    pipeline: IngestionPipeline,
    now: u64,
    topic: Seq<char>,
    payload: Seq<char>,
    document: Option<Option<Map<Seq<char>, FieldView>>>,
)
    requires
        !(document matches Some(Some(fields)) && is_valid_payload(fields)),
    ensures
        !(pipeline.plan(now, topic, payload, document).processing is Accepted),
        pipeline.plan(now, topic, payload, document).audit_topic == topic,
        pipeline.plan(now, topic, payload, document).audit_payload == payload,
{
}

/// Of two messages less than a window apart, the first of which is
/// processed, the second is throttled: its payload is not looked at and the
/// timer keeps the time of the first. Both are audited as received.
pub proof fn law_second_message_within_window_is_throttled(
    pipeline: IngestionPipeline,
    first: u64,
    first_topic: Seq<char>,
    first_payload: Seq<char>,
    first_document: Option<Option<Map<Seq<char>, FieldView>>>,
    second: u64,
    second_topic: Seq<char>,
    second_payload: Seq<char>,
    second_document: Option<Option<Map<Seq<char>, FieldView>>>,
)
    requires
        pipeline.limiter.admits(first),
        second - first < RATE_LIMIT_WINDOW_MS,
    ensures
        pipeline.plan(first, first_topic, first_payload, first_document) == (MessagePlanView {
            audit_topic: first_topic,
            audit_payload: first_payload,
            processing: processed(first_document, first_topic),
        }),
        pipeline.after(first).plan(second, second_topic, second_payload, second_document) == (
        MessagePlanView {
            audit_topic: second_topic,
            audit_payload: second_payload,
            processing: ProcessingView::RateLimited,
        }),
        pipeline.after(first).after(second) == pipeline.after(first),
{
}

} // verus!
