//! The readings: as the pipeline validates them, as the store hands them
//! back, and as the web pages show them.

use vstd::prelude::*;

verus! {

/// A number in decimal notation. The library carries it through as written
/// and never computes with it.
#[derive(Debug, PartialEq, Eq)]
pub struct Decimal {
    pub text: String,
}

impl View for Decimal {
    type V = Seq<char>;

    open spec fn view(&self) -> Seq<char> {
        self.text@
    }
}

impl Decimal {
    /// A copy with the same notation.
    pub fn clone(&self) -> (r: Self)
        ensures
            r@ == self@,
    {
        Decimal { text: self.text.clone() }
    }
}

/// A validated reading, ready to be stored.
#[derive(Debug, PartialEq, Eq)]
pub struct SensorReading {
    pub temperature: Decimal,
    pub humidity: i64,
    pub linkquality: i64,
    pub device_id: String,
}

/// What a `SensorReading` says.
pub struct SensorReadingView {
    pub temperature: Seq<char>,
    pub humidity: i64,
    pub linkquality: i64,
    pub device_id: Seq<char>,
}

impl View for SensorReading {
    type V = SensorReadingView;

    open spec fn view(&self) -> SensorReadingView {
        SensorReadingView {
            temperature: self.temperature@,
            humidity: self.humidity,
            linkquality: self.linkquality,
            device_id: self.device_id@,
        }
    }
}

/// One row of the readings table as the store returns it. `received_at` is
/// the store's own timestamp, in UTC.
#[derive(Debug, PartialEq, Eq)]
pub struct SensorRow {
    pub temperature: Decimal,
    pub humidity: i64,
    pub linkquality: i64,
    pub device_id: String,
    pub received_at: String,
}

/// A reading as the web pages show it. `received_at` is in local time.
#[derive(Debug, PartialEq, Eq)]
pub struct SensorData {
    pub temperature: Decimal,
    pub humidity: i64,
    pub linkquality: i64,
    pub device_id: String,
    pub received_at: String,
}

/// What a `SensorData` says.
pub struct SensorDataView {
    pub temperature: Seq<char>,
    pub humidity: i64,
    pub linkquality: i64,
    pub device_id: Seq<char>,
    pub received_at: Seq<char>,
}

impl View for SensorData {
    type V = SensorDataView;

    open spec fn view(&self) -> SensorDataView {
        SensorDataView {
            temperature: self.temperature@,
            humidity: self.humidity,
            linkquality: self.linkquality,
            device_id: self.device_id@,
            received_at: self.received_at@,
        }
    }
}

impl View for SensorRow {
    type V = SensorDataView;

    open spec fn view(&self) -> SensorDataView {
        SensorDataView {
            temperature: self.temperature@,
            humidity: self.humidity,
            linkquality: self.linkquality,
            device_id: self.device_id@,
            received_at: self.received_at@,
        }
    }
}

/// The layout of the store's timestamps.
pub const TIMESTAMP_FORMAT: &'static str = "%Y-%m-%d %H:%M:%S";

#[verifier::external_type_specification]
#[verifier::external_body]
pub struct ExNaiveDateTime(chrono::NaiveDateTime);

/// Whether `chrono::NaiveDateTime::parse_from_str` accepts `text` under
/// `format`.
pub uninterp spec fn timestamp_parses(text: Seq<char>, format: Seq<char>) -> bool;

/// Calls `chrono::NaiveDateTime::parse_from_str`. The contract claims only
/// that whether a date and time come back depends on the two texts alone.
#[verifier::external_body]
fn parse_timestamp(text: &str, format: &str) -> (r: Option<chrono::NaiveDateTime>)
    ensures
        r is Some == timestamp_parses(text@, format@),
{
    chrono::NaiveDateTime::parse_from_str(text, format).ok()
}

/// Reads `utc` as a UTC date and time (`chrono::TimeZone::from_utc_datetime`
/// on `chrono::Utc`), moves it to the machine's time zone
/// (`chrono::DateTime::with_timezone` with `chrono::Local`) and writes it
/// out. The result depends on the machine's time zone, so nothing is
/// claimed of it.
#[verifier::external_body]
fn local_time_text(utc: &chrono::NaiveDateTime) -> (r: String)
{
    chrono::TimeZone::from_utc_datetime(&chrono::Utc, utc).with_timezone(&chrono::Local).to_string()
}

/// `data` repeats `row` in everything but the timestamp.
pub open spec fn same_measurements(data: SensorDataView, row: SensorDataView) -> bool {
    &&& data.temperature == row.temperature
    &&& data.humidity == row.humidity
    &&& data.linkquality == row.linkquality
    &&& data.device_id == row.device_id
}

impl SensorData {
    /// The reading that `row` holds, with its timestamp moved from UTC to
    /// local time. `None` exactly when the row's timestamp is not in
    /// `TIMESTAMP_FORMAT`.
    pub fn from_row(row: &SensorRow) -> (r: Option<SensorData>)
        ensures
            r is Some <==> timestamp_parses(row.received_at@, TIMESTAMP_FORMAT@),
            r matches Some(data) ==> same_measurements(data@, row@),
    {
        match parse_timestamp(row.received_at.as_str(), TIMESTAMP_FORMAT) {
            Some(utc) => Some(
                SensorData {
                    temperature: row.temperature.clone(),
                    humidity: row.humidity,
                    linkquality: row.linkquality,
                    device_id: row.device_id.clone(),
                    received_at: local_time_text(&utc),
                },
            ),
            None => None,
        }
    }
}

} // verus!
