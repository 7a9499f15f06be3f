//! The status page: one section per configured topic, rendered from what
//! the store returned for it.

use vstd::prelude::*;
use vstd::string::*;
use crate::model::{
    same_measurements, timestamp_parses, SensorData, SensorDataView, SensorRow, TIMESTAMP_FORMAT,
};
use crate::text::{int_decimal, push_int};
use crate::web::MyError;

verus! {

/// The opening of the status document, up to and including its heading.
pub const HTML_START: &'static str =
    "<html>\n        <head>\n            <title>Sensor Data Status</title>\n            <style>\n                body {{\n                    font-family: Arial, sans-serif;\n                }}\n                table {{\n                    border-collapse: collapse;\n                }}\n                th, td {{\n                    padding: 8px;\n                }}\n                .device-data {\n                    border: 1px solid #ddd;\n                    margin-bottom: 20px;\n                    padding: 10px;\n                    border-radius: 5px;\n                    box-shadow: 0 2px 4px rgba(0, 0, 0, 0.1);\n                }\n            </style>\n        </head>\n        <body>\n            <h1>Sensor Data Status</h1>\n    ";

/// The closing of the status document.
pub const HTML_END: &'static str = "</body></html>";

/// The answer where there is no topic to report on.
pub const NO_TOPICS: &'static str = "No topics configured";

/// What stands in front of the title of a table.
pub const TABLE_TITLE_OPEN: &'static str = "<h3>";

/// From the end of the title to the first cell: the header row of a table.
pub const TABLE_HEAD: &'static str =
    "</h3><table border = \"1\"><tr><th>Temperature</th><th>Humidity</th><th>Link Quality</th><th>Device ID</th><th>Received At</th></tr><tr>\n            <td>";

/// What stands between two cells of a reading.
pub const TABLE_CELL_BREAK: &'static str = "</td>\n            <td>";

/// What closes the last cell and the table.
pub const TABLE_END: &'static str = "</td>\n        </tr>\n        </table>";

/// The opening of the status document.
pub fn html_start() -> (r: String)
    ensures
        r@ == HTML_START@,
{
    String::from_str(HTML_START)
}

/// The closing of the status document.
pub fn html_end() -> (r: String)
    ensures
        r@ == HTML_END@,
{
    String::from_str(HTML_END)
}

/// The table that shows one reading under a title: a header row and one
/// row with temperature, humidity, link quality, device and time.
pub open spec fn table_html(data: SensorDataView, title: Seq<char>) -> Seq<char> {
    TABLE_TITLE_OPEN@ + title + TABLE_HEAD@ + data.temperature + TABLE_CELL_BREAK@ + int_decimal(
        data.humidity as int,
    ) + TABLE_CELL_BREAK@ + int_decimal(data.linkquality as int) + TABLE_CELL_BREAK@
        + data.device_id + TABLE_CELL_BREAK@ + data.received_at + TABLE_END@
}

/// Renders one reading as a titled table.
pub fn create_table(sensor_data: &SensorData, title: &str) -> (r: String)
    ensures
        r@ == table_html(sensor_data@, title@),
{
    let mut html = String::from_str(TABLE_TITLE_OPEN);
    html.append(title);
    html.append(TABLE_HEAD);
    html.append(sensor_data.temperature.text.as_str());
    html.append(TABLE_CELL_BREAK);
    push_int(&mut html, sensor_data.humidity);
    html.append(TABLE_CELL_BREAK);
    push_int(&mut html, sensor_data.linkquality);
    html.append(TABLE_CELL_BREAK);
    html.append(sensor_data.device_id.as_str());
    html.append(TABLE_CELL_BREAK);
    html.append(sensor_data.received_at.as_str());
    html.append(TABLE_END);
    html
}

/// A reading with the title of the table that shows it.
#[derive(Debug, PartialEq, Eq)]
pub struct TitledReading {
    pub data: SensorData,
    pub title: String,
}

/// The tables of `readings`, in order, one after the other.
pub open spec fn tables_html(readings: Seq<TitledReading>) -> Seq<char>
    decreases readings.len(),
{
    if readings.len() == 0 {
        Seq::empty()
    } else {
        tables_html(readings.drop_last()) + table_html(readings.last().data@, readings.last().title@)
    }
}

/// The notice for a lookup that the store did not accept.
pub const PREPARE_FAILED: &'static str = "Error preparing query for device: ";

/// The notice for a lookup that the store failed to run.
pub const QUERY_FAILED: &'static str = "Error querying data for device: ";

/// The notice for a lookup that returned a row that is no reading.
pub const FETCH_FAILED: &'static str = "Error fetching data for device: ";

/// The notice for a device without any reading.
pub const NO_DATA: &'static str = "No data found for device: ";

/// The opening of a section, up to the name of the device.
pub const SECTION_OPEN: &'static str =
    "<div class=\"device-data\"> <h2>Basic Sensor Data for Device: ";

/// What closes the heading of a section.
pub const SECTION_HEAD_END: &'static str = "</h2>";

/// What stands between the heading of a section and its tables.
pub const SECTION_INDENT: &'static str = "\n            ";

/// What closes a section.
pub const SECTION_END: &'static str = "</div>";

/// The section of a device in basic mode. A failed lookup is reported by
/// the stage that failed, and a lookup without rows by a notice that there
/// is no data; both stand in place of the section. Otherwise the section is
/// a heading that names the device and one table for each reading that the
/// lookup returned.
pub open spec fn basic_html(device_id: Seq<char>, lookup: Result<Vec<TitledReading>, MyError>) -> Seq<
    char,
> {
    match lookup {
        Err(MyError::QueryPreparationError) => PREPARE_FAILED@ + device_id,
        Err(MyError::QueryExecutionError) => QUERY_FAILED@ + device_id,
        Err(MyError::DataMappingError) => FETCH_FAILED@ + device_id,
        Ok(readings) => if readings@.len() == 0 {
            NO_DATA@ + device_id
        } else {
            SECTION_OPEN@ + device_id + SECTION_HEAD_END@ + SECTION_INDENT@ + tables_html(readings@)
                + SECTION_END@
        },
    }
}

/// A notice made of a fixed text and the name of a device.
fn notice(text: &str, device_id: &str) -> (r: String)
    ensures
        r@ == text@ + device_id@,
{
    let mut html = String::from_str(text);
    html.append(device_id);
    html
}

/// Renders the section of a device in basic mode from what the lookup of
/// its lowest, highest and latest readings returned.
pub fn basic(device_id: &str, lookup: &Result<Vec<TitledReading>, MyError>) -> (r: String)
    ensures
        r@ == basic_html(device_id@, *lookup),
{
    match lookup {
        Err(MyError::QueryPreparationError) => notice(PREPARE_FAILED, device_id),
        Err(MyError::QueryExecutionError) => notice(QUERY_FAILED, device_id),
        Err(MyError::DataMappingError) => notice(FETCH_FAILED, device_id),
        Ok(sensor_data_with_titles) => {
            if sensor_data_with_titles.len() == 0 {
                return notice(NO_DATA, device_id);
            }
            let mut html = String::from_str(SECTION_OPEN);
            html.append(device_id);
            html.append(SECTION_HEAD_END);
            html.append(SECTION_INDENT);
            let ghost head = html@;
            let mut i: usize = 0;
            assert(tables_html(sensor_data_with_titles@.subrange(0, 0)) =~= Seq::<char>::empty());
            assert(html@ =~= head + tables_html(sensor_data_with_titles@.subrange(0, 0)));
            while i < sensor_data_with_titles.len()
                invariant
                    i <= sensor_data_with_titles.len(),
                    html@ == head + tables_html(sensor_data_with_titles@.subrange(0, i as int)),
                decreases sensor_data_with_titles.len() - i,
            {
                let entry = &sensor_data_with_titles[i];
                let table = create_table(&entry.data, entry.title.as_str());
                html.append(table.as_str());
                proof {
                    let done = sensor_data_with_titles@.subrange(0, i as int);
                    let next = sensor_data_with_titles@.subrange(0, i + 1);
                    assert(next.drop_last() =~= done);
                    assert(next.last() == sensor_data_with_titles@[i as int]);
                    assert(html@ =~= head + tables_html(next));
                }
                i = i + 1;
            }
            assert(sensor_data_with_titles@.subrange(0, i as int) =~= sensor_data_with_titles@);
            html.append(SECTION_END);
            html
        },
    }
}

/// Renders the section of a topic in boolean mode: nothing, for now.
pub fn boolean(topic: &str) -> (r: String)
    ensures
        r@ == Seq::<char>::empty(),
{
    String::new()
}

/// How the status page reports on a topic.
#[derive(Clone, Copy, Debug, PartialEq, Eq, Structural)]
pub enum StatusType {
    /// Lowest and highest temperature and humidity of the last three days,
    /// and the latest reading.
    Basic,
    /// Defined, but renders nothing yet.
    Boolean,
    /// Not reported on.
    Unreported,
}

impl StatusType {
    /// Whether the readings of a topic in this mode are looked up: in basic
    /// mode only.
    pub fn needs_lookup(&self) -> (r: bool)
        ensures
            r == (*self == StatusType::Basic),
    {
        match self {
            StatusType::Basic => true,
            StatusType::Boolean => false,
            StatusType::Unreported => false,
        }
    }
}

/// A topic of the registry together with what the store returned when its
/// readings were looked up. The lookup is read for a topic in basic mode
/// only.
#[derive(Debug, PartialEq, Eq)]
pub struct TopicReport {
    pub topic: String,
    pub status_type: StatusType,
    pub lookup: Result<Vec<TitledReading>, MyError>,
}

/// The section of one topic: by its mode, the basic section, nothing for
/// boolean mode, and nothing for a topic that is not reported on.
pub open spec fn section_html(report: TopicReport) -> Seq<char> {
    match report.status_type {
        StatusType::Basic => basic_html(report.topic@, report.lookup),
        StatusType::Boolean => Seq::empty(),
        StatusType::Unreported => Seq::empty(),
    }
}

/// The sections of `reports`, in order, one after the other.
pub open spec fn sections_html(reports: Seq<TopicReport>) -> Seq<char>
    decreases reports.len(),
{
    if reports.len() == 0 {
        Seq::empty()
    } else {
        sections_html(reports.drop_last()) + section_html(reports.last())
    }
}

/// The status document: a plain notice where the registry could not be read
/// or is empty, else the sections of its topics between the opening and the
/// closing of the page.
pub open spec fn status_html(topics: Option<Vec<TopicReport>>) -> Seq<char> {
    match topics {
        None => NO_TOPICS@,
        Some(reports) => if reports@.len() == 0 {
            NO_TOPICS@
        } else {
            HTML_START@ + sections_html(reports@) + HTML_END@
        },
    }
}

/// Renders the status document for the topics of the registry, in the
/// order given. `None` stands for a registry that could not be read.
pub fn get_sensor_data_status(topics: &Option<Vec<TopicReport>>) -> (r: String)
    ensures
        r@ == status_html(*topics),
{
    let reports = match topics {
        None => { return String::from_str(NO_TOPICS); },
        Some(reports) => reports,
    };
    if reports.len() == 0 {
        return String::from_str(NO_TOPICS);
    }
    let mut html = html_start();
    let mut i: usize = 0;
    assert(sections_html(reports@.subrange(0, 0)) =~= Seq::<char>::empty());
    assert(html@ =~= HTML_START@ + sections_html(reports@.subrange(0, 0)));
    while i < reports.len()
        invariant
            i <= reports.len(),
            html@ == HTML_START@ + sections_html(reports@.subrange(0, i as int)),
        decreases reports.len() - i,
    {
        let t = &reports[i];
        match t.status_type {
            StatusType::Basic => html.append(basic(t.topic.as_str(), &t.lookup).as_str()),
            StatusType::Boolean => html.append(boolean(t.topic.as_str()).as_str()),
            StatusType::Unreported => {},
        }
        proof {
            let done = reports@.subrange(0, i as int);
            let next = reports@.subrange(0, i + 1);
            assert(next.drop_last() =~= done);
            assert(next.last() == reports@[i as int]);
            assert(html@ =~= HTML_START@ + sections_html(next));
        }
        i = i + 1;
    }
    assert(reports@.subrange(0, i as int) =~= reports@);
    html.append(html_end().as_str());
    html
}

/// The lookup of a device in basic mode: for the last three days the
/// readings with the lowest and the highest temperature and the lowest and
/// the highest humidity, and the latest reading of any age, each under its
/// title and in that order. A lookup that finds nothing contributes no row.
pub const BASIC_LOOKUP: &'static str =
    "\n        SELECT *, 1 as data_type, 'Lowest Temperature in the Last 3 Days' as title FROM (\n            SELECT * FROM sensor_data WHERE device_id = ?1 AND received_at >= datetime('now', '-3 days') ORDER BY temperature ASC LIMIT 1\n        )\n        UNION\n        SELECT *, 2 as data_type, 'Highest Temperature in the Last 3 Days' as title FROM (\n            SELECT * FROM sensor_data WHERE device_id = ?1 AND received_at >= datetime('now', '-3 days') ORDER BY temperature DESC LIMIT 1\n        )\n        UNION\n        SELECT *, 3 as data_type, 'Lowest Humidity in the Last 3 Days' as title FROM (\n            SELECT * FROM sensor_data WHERE device_id = ?1 AND received_at >= datetime('now', '-3 days') ORDER BY humidity ASC LIMIT 1\n        )\n        UNION\n        SELECT *, 4 as data_type, 'Highest Humidity in the Last 3 Days' as title FROM (\n            SELECT * FROM sensor_data WHERE device_id = ?1 AND received_at >= datetime('now', '-3 days') ORDER BY humidity DESC LIMIT 1\n        )\n        UNION\n        SELECT *, 5 as data_type, 'Latest Reading' as title FROM (\n            SELECT * FROM sensor_data WHERE device_id = ?1 ORDER BY received_at DESC LIMIT 1\n        )\n        ORDER BY data_type;\n    ";

/// The query that reads the topic configuration.
pub const TOPIC_CONFIGURATION: &'static str =
    "SELECT topic_name, status_type FROM topic_configuration;";

/// One row of a basic lookup as the store returns it.
#[derive(Debug, PartialEq, Eq)]
pub struct StatusRow {
    pub row: SensorRow,
    pub title: String,
}

/// Whether a row of a basic lookup is a reading: its columns could be read
/// (`Some`) and its timestamp is in `TIMESTAMP_FORMAT`.
pub open spec fn is_titled_reading(row: Option<StatusRow>) -> bool {
    row matches Some(r) && timestamp_parses(r.row.received_at@, TIMESTAMP_FORMAT@)
}

/// Whether `readings` are the rows in `rows`, one for one and in order, each
/// with the title and the measurements of its row.
pub open spec fn titled_readings_of(readings: Seq<TitledReading>, rows: Seq<Option<StatusRow>>) -> bool {
    &&& readings.len() == rows.len()
    &&& forall|i: int|
        0 <= i < rows.len() ==> rows[i] is Some && (#[trigger] readings[i]).title@ == rows[i]->0.title@
            && same_measurements(readings[i].data@, rows[i]->0.row@)
}

/// The readings that a basic lookup returned, all or nothing: a failed
/// lookup fails with its own error, and one row that is no reading fails
/// the whole lookup with a mapping error.
pub fn titled_readings(outcome: &Result<Vec<Option<StatusRow>>, MyError>) -> (r: Result<
    Vec<TitledReading>,
    MyError,
>)
    ensures
        match outcome {
            Err(e) => r == Err::<Vec<TitledReading>, MyError>(*e),
            Ok(rows) => if forall|i: int|
                0 <= i < rows.len() ==> is_titled_reading(#[trigger] rows[i]) {
                r matches Ok(readings) && titled_readings_of(readings@, rows@)
            } else {
                r == Err::<Vec<TitledReading>, MyError>(MyError::DataMappingError)
            },
        },
{
    match outcome {
        Err(e) => Err(*e),
        Ok(rows) => {
            let mut readings: Vec<TitledReading> = Vec::new();
            let mut i: usize = 0;
            while i < rows.len()
                invariant
                    outcome matches Ok(returned) && returned == rows,
                    i <= rows.len(),
                    forall|j: int| 0 <= j < i ==> is_titled_reading(#[trigger] rows[j]),
                    titled_readings_of(readings@, rows@.subrange(0, i as int)),
                decreases rows.len() - i,
            {
                let reading = match &rows[i] {
                    Some(titled) => match SensorData::from_row(&titled.row) {
                        Some(data) => Some(TitledReading { data, title: titled.title.clone() }),
                        None => None,
                    },
                    None => None,
                };
                match reading {
                    Some(reading) => {
                        readings.push(reading);
                    },
                    None => {
                        assert(!is_titled_reading(rows[i as int]));
                        return Err(MyError::DataMappingError);
                    },
                }
                i = i + 1;
            }
            assert(rows@.subrange(0, i as int) =~= rows@);
            Ok(readings)
        },
    }
}

} // verus!
