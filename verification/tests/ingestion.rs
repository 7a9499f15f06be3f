use ru_berry::conn::setup_database;
use ru_berry::json::FieldReading;
use ru_berry::model::Decimal;
use ru_berry::mqtt::{
    handle_message, process_payload, temperature_and_humidity_sensor, validate_reading,
    IngestionPipeline, Processing, RateLimiter, SensorField, ValidationError, AUDIT_INSERT,
    RATE_LIMIT_WINDOW_MS, READING_INSERT,
};
use serde_json::Value;

fn object(entries: Vec<(&str, Value)>) -> serde_json::Map<String, Value> {
    let mut map = serde_json::Map::new();
    for (key, value) in entries {
        map.insert(key.to_string(), value);
    }
    map
}

#[test]
fn test_temperature_and_humidity_sensor_valid_data() {
    let json_object = object(vec![
        ("temperature", Value::from(22.5)),
        ("humidity", Value::from(60)),
        ("linkquality", Value::from(100)),
    ]);
    let topic = "sensor/device123";

    let result = temperature_and_humidity_sensor(&json_object, topic);
    assert!(result.is_ok());
}

#[test]
fn test_temperature_and_humidity_sensor_missing_temperature() {
    let json_object = object(vec![("humidity", Value::from(60)), ("linkquality", Value::from(100))]);
    let topic = "sensor/device123";

    let result = temperature_and_humidity_sensor(&json_object, topic);
    assert!(result.is_err());
}

#[test]
fn test_temperature_and_humidity_sensor_invalid_humidity() {
    let json_object = object(vec![
        ("temperature", Value::from(22.5)),
        ("humidity", Value::from("invalid")),
        ("linkquality", Value::from(100)),
    ]);
    let topic = "sensor/device123";

    let result = temperature_and_humidity_sensor(&json_object, topic);
    assert!(result.is_err());
}

#[test]
fn test_temperature_and_humidity_sensor_missing_linkquality() {
    let json_object = object(vec![("temperature", Value::from(22.5)), ("humidity", Value::from(60))]);
    let topic = "sensor/device123";

    let result = temperature_and_humidity_sensor(&json_object, topic);
    assert!(result.is_err());
}

#[test]
fn test_audit_message() {
    let conn = rusqlite::Connection::open_in_memory().unwrap();
    for statement in setup_database() {
        conn.execute(statement, []).unwrap();
    }
    let topic = "sensor/device123";
    let payload_str = "{\"temperature\": 22.5, \"humidity\": 60, \"linkquality\": 100}";

    let mut pipeline = IngestionPipeline::new();
    let plan = pipeline.on_message(0, topic, payload_str);
    conn.execute(AUDIT_INSERT, [&plan.audit.topic, &plan.audit.payload]).unwrap();

    let mut stmt = conn.prepare("SELECT topic, payload FROM messages WHERE topic = ?1").unwrap();
    let mut rows = stmt.query([topic]).unwrap();

    if let Some(row) = rows.next().unwrap() {
        let db_topic: String = row.get(0).unwrap();
        let db_payload: String = row.get(1).unwrap();
        assert_eq!(db_topic, topic);
        assert_eq!(db_payload, payload_str);
    } else {
        panic!("No message found in the database");
    }
}

#[test]
fn valid_payload_gives_the_reading_of_the_last_topic_segment() {
    let processing = process_payload(
        "{\"temperature\":22.5,\"humidity\":60,\"linkquality\":100}",
        "home/livingroom",
    );
    match processing {
        Processing::Accepted(reading) => {
            assert_eq!(reading.temperature.text, "22.5");
            assert_eq!(reading.temperature.text.parse::<f64>().unwrap(), 22.5);
            assert_eq!(reading.humidity, 60);
            assert_eq!(reading.linkquality, 100);
            assert_eq!(reading.device_id, "livingroom");
        }
        other => panic!("not accepted: {:?}", other),
    }
}

#[test]
fn stored_reading_reads_back_as_sent() {
    let conn = rusqlite::Connection::open_in_memory().unwrap();
    for statement in setup_database() {
        conn.execute(statement, []).unwrap();
    }
    let mut pipeline = IngestionPipeline::new();
    let plan = pipeline.on_message(
        5,
        "home/livingroom",
        "{\"temperature\":22.5,\"humidity\":60,\"linkquality\":100}",
    );
    conn.execute(AUDIT_INSERT, [&plan.audit.topic, &plan.audit.payload]).unwrap();
    let reading = match plan.processing {
        Processing::Accepted(reading) => reading,
        other => panic!("not accepted: {:?}", other),
    };
    let temperature = reading.temperature.text.parse::<f64>().unwrap() as f32;
    conn.execute(
        READING_INSERT,
        (temperature, reading.humidity, reading.linkquality, &reading.device_id),
    )
    .unwrap();
    let row: (f64, i64, i64, String) = conn
        .query_row("SELECT temperature, humidity, linkquality, device_id FROM sensor_data", [], |r| {
            Ok((r.get(0)?, r.get(1)?, r.get(2)?, r.get(3)?))
        })
        .unwrap();
    assert_eq!(row, (22.5, 60, 100, "livingroom".to_string()));
    let audited: i64 = conn.query_row("SELECT COUNT(*) FROM messages", [], |r| r.get(0)).unwrap();
    assert_eq!(audited, 1);
}

#[test]
fn payload_without_temperature_is_audited_and_not_stored() {
    let mut pipeline = IngestionPipeline::new();
    let payload = "{\"humidity\":60,\"linkquality\":100}";
    let plan = pipeline.on_message(0, "home/livingroom", payload);
    assert_eq!(plan.audit.topic, "home/livingroom");
    assert_eq!(plan.audit.payload, payload);
    assert_eq!(plan.processing, Processing::Ignored);
}

#[test]
fn each_field_fails_validation_in_its_own_way() {
    let cases: Vec<(&str, ValidationError)> = vec![
        (
            "{\"temperature\":\"warm\",\"humidity\":60,\"linkquality\":100}",
            ValidationError::WrongType(SensorField::Temperature),
        ),
        (
            "{\"temperature\":22.5,\"humidity\":\"invalid\",\"linkquality\":100}",
            ValidationError::WrongType(SensorField::Humidity),
        ),
        (
            "{\"temperature\":22.5,\"humidity\":60.5,\"linkquality\":100}",
            ValidationError::WrongType(SensorField::Humidity),
        ),
        (
            "{\"temperature\":22.5,\"humidity\":60}",
            ValidationError::MissingField(SensorField::Linkquality),
        ),
        (
            "{\"temperature\":22.5,\"humidity\":60,\"linkquality\":null}",
            ValidationError::WrongType(SensorField::Linkquality),
        ),
        (
            "{\"temperature\":22.5,\"humidity\":60,\"linkquality\":18446744073709551615}",
            ValidationError::WrongType(SensorField::Linkquality),
        ),
    ];
    for (payload, error) in cases {
        assert_eq!(process_payload(payload, "home/livingroom"), Processing::Rejected(error));
    }
}

#[test]
fn missing_fields_are_named_by_the_validator() {
    let number = |integer: Option<i64>, text: &str| FieldReading {
        integer,
        decimal: Some(Decimal { text: text.to_string() }),
    };
    assert_eq!(
        validate_reading(None, Some(number(Some(60), "60")), Some(number(Some(1), "1")), "a/b"),
        Err(ValidationError::MissingField(SensorField::Temperature))
    );
    assert_eq!(
        validate_reading(Some(number(None, "22.5")), None, Some(number(Some(1), "1")), "a/b"),
        Err(ValidationError::MissingField(SensorField::Humidity))
    );
    assert_eq!(
        validate_reading(Some(number(None, "22.5")), Some(number(Some(60), "60")), None, "a/b"),
        Err(ValidationError::MissingField(SensorField::Linkquality))
    );
    let reading = validate_reading(
        Some(number(None, "22.5")),
        Some(number(Some(60), "60")),
        Some(number(Some(-7), "-7")),
        "a/b",
    )
    .unwrap();
    assert_eq!(reading.temperature.text, "22.5");
    assert_eq!(reading.humidity, 60);
    assert_eq!(reading.linkquality, -7);
    assert_eq!(reading.device_id, "b");
}

#[test]
fn integer_temperature_is_numeric() {
    match process_payload("{\"temperature\":21,\"humidity\":60,\"linkquality\":100}", "t") {
        Processing::Accepted(reading) => {
            assert_eq!(reading.temperature.text.parse::<f64>().unwrap(), 21.0);
            assert_eq!(reading.device_id, "t");
        }
        other => panic!("not accepted: {:?}", other),
    }
}

#[test]
fn payloads_that_are_no_sensor_objects() {
    assert_eq!(process_payload("not json", "home/livingroom"), Processing::Malformed);
    assert_eq!(process_payload("", "home/livingroom"), Processing::Malformed);
    assert_eq!(process_payload("[1, 2]", "home/livingroom"), Processing::NotAnObject);
    assert_eq!(process_payload("42", "home/livingroom"), Processing::NotAnObject);
    assert_eq!(process_payload("{\"temperature\":22.5}", "home/livingroom"), Processing::Ignored);
    assert_eq!(process_payload("{}", "home/livingroom"), Processing::Ignored);
}

#[test]
fn handle_message_reads_a_parsed_value() {
    let value: Value = serde_json::from_str("{\"temperature\":1.25,\"humidity\":2,\"linkquality\":3}").unwrap();
    match handle_message(&value, "x/y/z") {
        Processing::Accepted(reading) => {
            assert_eq!(reading.temperature.text, "1.25");
            assert_eq!(reading.device_id, "z");
        }
        other => panic!("not accepted: {:?}", other),
    }
    assert_eq!(handle_message(&Value::from("text"), "x"), Processing::NotAnObject);
}

#[test]
fn device_is_the_last_topic_segment() {
    let payload = "{\"temperature\":1,\"humidity\":2,\"linkquality\":3}";
    let device = |topic: &str| match process_payload(payload, topic) {
        Processing::Accepted(reading) => reading.device_id,
        other => panic!("not accepted: {:?}", other),
    };
    assert_eq!(device("sensor/device123"), "device123");
    assert_eq!(device("device123"), "device123");
    assert_eq!(device("a/b/c"), "c");
    assert_eq!(device("home/"), "");
    assert_eq!(device(""), "");
    assert_eq!(device("/"), "");
    assert_eq!(device("zuhause/küche"), "küche");
}

#[test]
fn second_message_within_the_window_is_only_audited() {
    let payload = "{\"temperature\":22.5,\"humidity\":60,\"linkquality\":100}";
    let mut pipeline = IngestionPipeline::new();
    let first = pipeline.on_message(1_000, "home/livingroom", payload);
    assert!(matches!(first.processing, Processing::Accepted(_)));
    let second = pipeline.on_message(1_000 + RATE_LIMIT_WINDOW_MS - 1, "home/kitchen", payload);
    assert_eq!(second.processing, Processing::RateLimited);
    assert_eq!(second.audit.topic, "home/kitchen");
    assert_eq!(second.audit.payload, payload);
    assert_eq!(pipeline.limiter.last_processed, Some(1_000));
    let third = pipeline.on_message(1_000 + RATE_LIMIT_WINDOW_MS, "home/kitchen", payload);
    assert!(matches!(third.processing, Processing::Accepted(_)));
    assert_eq!(pipeline.limiter.last_processed, Some(1_000 + RATE_LIMIT_WINDOW_MS));
}

#[test]
fn throttle_window_is_thirty_minutes() {
    assert_eq!(RATE_LIMIT_WINDOW_MS, 30 * 60 * 1000);
    let mut limiter = RateLimiter::new();
    assert!(limiter.let_through(10));
    assert!(!limiter.let_through(10));
    assert!(!limiter.let_through(5));
    assert!(!limiter.let_through(1_800_009));
    assert!(limiter.let_through(1_800_010));
    assert_eq!(limiter.last_processed, Some(1_800_010));
}

#[test]
fn malformed_payload_still_restarts_the_timer() {
    let mut pipeline = IngestionPipeline::new();
    let first = pipeline.on_message(7, "home/livingroom", "oops");
    assert_eq!(first.processing, Processing::Malformed);
    assert_eq!(first.audit.payload, "oops");
    assert_eq!(pipeline.limiter.last_processed, Some(7));
}
