//! The read path of the web server: what a request for the recent readings
//! answers, given what the store returned.

use vstd::prelude::*;
use crate::model::{same_measurements, timestamp_parses, SensorData, SensorRow, TIMESTAMP_FORMAT};

verus! {

/// The query for the readings of the last three days, by device and then
/// by time.
pub const RECENT_READINGS: &'static str =
    "\n        SELECT * FROM sensor_data\n        WHERE received_at >= datetime('now', '-3 days')\n        order by device_id, received_at\n        ";

/// Why a request for readings failed.
#[derive(Clone, Copy, Debug, PartialEq, Eq, Structural)]
pub enum MyError {
    /// The store did not accept the query.
    QueryPreparationError,
    /// The store accepted the query and failed to run it.
    QueryExecutionError,
    /// A row came back that is no reading.
    DataMappingError,
}

/// Whether a row that the store returned is a reading: its columns could be
/// read (`Some`) and its timestamp is in `TIMESTAMP_FORMAT`.
pub open spec fn is_reading(row: Option<SensorRow>) -> bool {
    row matches Some(r) && timestamp_parses(r.received_at@, TIMESTAMP_FORMAT@)
}

/// Whether `readings` are the rows in `rows`, one for one and in order, each
/// with the measurements of its row.
pub open spec fn readings_of(readings: Seq<SensorData>, rows: Seq<Option<SensorRow>>) -> bool {
    &&& readings.len() == rows.len()
    &&& forall|i: int|
        0 <= i < rows.len() ==> rows[i] is Some && same_measurements(
            (#[trigger] readings[i])@,
            rows[i]->0@,
        )
}

/// The readings that a query returned, all or nothing: a failed query
/// fails with its own error, and one row that is no reading fails the whole
/// request with a mapping error.
pub fn get_sensor_data(outcome: &Result<Vec<Option<SensorRow>>, MyError>) -> (r: Result<
    Vec<SensorData>,
    MyError,
>)
    ensures
        match outcome {
            Err(e) => r == Err::<Vec<SensorData>, MyError>(*e),
            Ok(rows) => if forall|i: int| 0 <= i < rows.len() ==> is_reading(#[trigger] rows[i]) {
                r matches Ok(readings) && readings_of(readings@, rows@)
            } else {
                r == Err::<Vec<SensorData>, MyError>(MyError::DataMappingError)
            },
        },
{
    match outcome {
        Err(e) => Err(*e),
        Ok(rows) => {
            let mut sensor_data_vec: Vec<SensorData> = Vec::new();
            let mut i: usize = 0;
            while i < rows.len()
                invariant
                    outcome matches Ok(returned) && returned == rows,
                    i <= rows.len(),
                    forall|j: int| 0 <= j < i ==> is_reading(#[trigger] rows[j]),
                    readings_of(sensor_data_vec@, rows@.subrange(0, i as int)),
                decreases rows.len() - i,
            {
                let data = match &rows[i] {
                    Some(row) => SensorData::from_row(row),
                    None => None,
                };
                match data {
                    Some(data) => {
                        sensor_data_vec.push(data);
                    },
                    None => {
                        assert(!is_reading(rows[i as int]));
                        return Err(MyError::DataMappingError);
                    },
                }
                i = i + 1;
            }
            assert(rows@.subrange(0, i as int) =~= rows@);
            Ok(sensor_data_vec)
        },
    }
}

} // verus!
