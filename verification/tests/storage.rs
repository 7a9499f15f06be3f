use chrono::TimeZone;
use ru_berry::config::{clone_texts, Config};
use ru_berry::conn::{
    create_pool, setup_database, AcquireStep, PoolSettings, RetryConnectionCustomizer, StorageError,
};
use ru_berry::model::{Decimal, SensorData, SensorRow, TIMESTAMP_FORMAT};
use ru_berry::text::{final_segment, int_to_string, push_int, push_nat, text_eq};
use ru_berry::web::{get_sensor_data, MyError, RECENT_READINGS};

#[test]
fn locked_store_is_refused_before_anything_else() {
    assert_eq!(create_pool(true), Err(StorageError::ResourceLocked));
    assert_eq!(StorageError::ResourceLocked.message(), "Database is locked by another process.");
}

#[test]
fn pool_has_one_connection_five_seconds_and_three_checks() {
    assert_eq!(
        create_pool(false),
        Ok(PoolSettings {
            max_size: 1,
            connection_timeout_secs: 5,
            customizer: RetryConnectionCustomizer { retries: 3 },
        })
    );
}

#[test]
fn schema_can_be_set_up_twice() {
    let conn = rusqlite::Connection::open_in_memory().unwrap();
    for _ in 0..2 {
        for statement in setup_database() {
            conn.execute(statement, []).unwrap();
        }
    }
    let mut stmt =
        conn.prepare("SELECT name FROM sqlite_master WHERE type = 'table' ORDER BY name").unwrap();
    let tables: Vec<String> =
        stmt.query_map([], |row| row.get(0)).unwrap().map(|name| name.unwrap()).collect();
    assert_eq!(tables, vec!["messages", "sensor_data", "topic_configuration"]);
    assert_eq!(setup_database().len(), 3);
}

#[test]
fn schema_keeps_rows_when_set_up_again() {
    let conn = rusqlite::Connection::open_in_memory().unwrap();
    for statement in setup_database() {
        conn.execute(statement, []).unwrap();
    }
    conn.execute("INSERT INTO topic_configuration (topic_name, status_type) VALUES ('a', 'basic')", [])
        .unwrap();
    for statement in setup_database() {
        conn.execute(statement, []).unwrap();
    }
    let rows: i64 =
        conn.query_row("SELECT COUNT(*) FROM topic_configuration", [], |r| r.get(0)).unwrap();
    assert_eq!(rows, 1);
}

#[test]
fn idle_connection_is_leased_at_the_first_check() {
    let conn = rusqlite::Connection::open_in_memory().unwrap();
    assert_eq!(RetryConnectionCustomizer { retries: 3 }.on_acquire(&conn), Ok(()));
    assert_eq!(RetryConnectionCustomizer { retries: 1 }.on_acquire(&conn), Ok(()));
}

#[test]
fn connection_inside_a_transaction_is_refused_as_busy() {
    let conn = rusqlite::Connection::open_in_memory().unwrap();
    conn.execute_batch("BEGIN").unwrap();
    assert_eq!(RetryConnectionCustomizer { retries: 3 }.on_acquire(&conn), Err(StorageError::Busy));
    conn.execute_batch("COMMIT").unwrap();
    assert_eq!(RetryConnectionCustomizer { retries: 3 }.on_acquire(&conn), Ok(()));
    assert_eq!(StorageError::Busy.message(), "Failed to acquire connection after retries");
}

#[test]
fn no_retries_refuse_every_lease() {
    let conn = rusqlite::Connection::open_in_memory().unwrap();
    assert_eq!(RetryConnectionCustomizer { retries: 0 }.on_acquire(&conn), Err(StorageError::Busy));
    assert_eq!(RetryConnectionCustomizer { retries: -2 }.on_acquire(&conn), Err(StorageError::Busy));
}

#[test]
fn each_check_accepts_retries_or_rejects() {
    let customizer = RetryConnectionCustomizer { retries: 3 };
    assert_eq!(customizer.after_check(1, true), AcquireStep::Accept);
    assert_eq!(customizer.after_check(3, true), AcquireStep::Accept);
    assert_eq!(customizer.after_check(1, false), AcquireStep::Retry);
    assert_eq!(customizer.after_check(2, false), AcquireStep::Retry);
    assert_eq!(customizer.after_check(3, false), AcquireStep::Reject);
}

#[test]
fn customizer_prints_its_retries() {
    assert_eq!(
        format!("{:?}", RetryConnectionCustomizer { retries: 3 }),
        "RetryConnectionCustomizer { retries: 3 }"
    );
}

fn row(received_at: &str) -> SensorRow {
    SensorRow {
        temperature: Decimal { text: "22.5".to_string() },
        humidity: 60,
        linkquality: 100,
        device_id: "livingroom".to_string(),
        received_at: received_at.to_string(),
    }
}

#[test]
fn row_becomes_a_reading_in_local_time() {
    let data = SensorData::from_row(&row("2024-05-01 12:00:00")).unwrap();
    assert_eq!(data.temperature.text, "22.5");
    assert_eq!(data.humidity, 60);
    assert_eq!(data.linkquality, 100);
    assert_eq!(data.device_id, "livingroom");
    let naive = chrono::NaiveDateTime::parse_from_str("2024-05-01 12:00:00", TIMESTAMP_FORMAT).unwrap();
    let local = chrono::Utc.from_utc_datetime(&naive).with_timezone(&chrono::Local);
    assert_eq!(data.received_at, local.to_string());
    assert_ne!(data.received_at, "2024-05-01 12:00:00");
    assert!(data.received_at.len() > "2024-05-01 12:00:00".len());
}

#[test]
fn row_with_an_unreadable_timestamp_is_no_reading() {
    assert_eq!(SensorData::from_row(&row("yesterday")), None);
    assert_eq!(SensorData::from_row(&row("")), None);
    assert_eq!(SensorData::from_row(&row("2024-05-01T12:00:00")), None);
    assert_eq!(SensorData::from_row(&row("2024-13-01 12:00:00")), None);
    assert_eq!(SensorData::from_row(&row("2024-05-01 24:00:00")), None);
    assert!(SensorData::from_row(&row("2024-05-01 23:59:59")).is_some());
}

#[test]
fn readings_come_back_all_or_nothing() {
    let readings = get_sensor_data(&Ok(vec![
        Some(row("2024-05-01 12:00:00")),
        Some(row("2024-05-01 12:30:00")),
    ]))
    .unwrap();
    assert_eq!(readings.len(), 2);
    assert_eq!(readings[0].device_id, "livingroom");
    assert_eq!(readings[1].temperature.text, "22.5");
    assert_ne!(readings[0].received_at, readings[1].received_at);

    assert_eq!(get_sensor_data(&Ok(vec![])), Ok(vec![]));
    assert_eq!(
        get_sensor_data(&Ok(vec![Some(row("2024-05-01 12:00:00")), None])),
        Err(MyError::DataMappingError)
    );
    assert_eq!(
        get_sensor_data(&Ok(vec![Some(row("never")), Some(row("2024-05-01 12:00:00"))])),
        Err(MyError::DataMappingError)
    );
    assert_eq!(get_sensor_data(&Err(MyError::QueryPreparationError)), Err(MyError::QueryPreparationError));
    assert_eq!(get_sensor_data(&Err(MyError::QueryExecutionError)), Err(MyError::QueryExecutionError));
    assert_eq!(get_sensor_data(&Err(MyError::DataMappingError)), Err(MyError::DataMappingError));
}

#[test]
fn recent_readings_are_those_of_the_last_three_days_by_device_and_time() {
    let conn = rusqlite::Connection::open_in_memory().unwrap();
    for statement in setup_database() {
        conn.execute(statement, []).unwrap();
    }
    for (device, age) in [("b", "-1 days"), ("a", "-2 days"), ("a", "-4 days"), ("a", "-1 hours")] {
        conn.execute(
            "INSERT INTO sensor_data (temperature, humidity, linkquality, device_id, received_at) \
             VALUES (20.5, 50, 90, ?1, datetime('now', ?2))",
            [device, age],
        )
        .unwrap();
    }
    let mut stmt = conn.prepare(RECENT_READINGS).unwrap();
    let rows: Vec<Option<SensorRow>> = stmt
        .query_map([], |row| {
            Ok(SensorRow {
                temperature: Decimal { text: (row.get::<_, f64>(1)? as f32).to_string() },
                humidity: row.get(2)?,
                linkquality: row.get(3)?,
                device_id: row.get(4)?,
                received_at: row.get(5)?,
            })
        })
        .unwrap()
        .map(|row| row.ok())
        .collect();
    let readings = get_sensor_data(&Ok(rows)).unwrap();
    let devices: Vec<&str> = readings.iter().map(|r| r.device_id.as_str()).collect();
    assert_eq!(devices, vec!["a", "a", "b"]);
    assert_eq!(readings[0].temperature.text, "20.5");
}

#[test]
fn integers_in_decimal_notation() {
    for value in [0, 7, 9, 10, 11, 60, 99, 100, 101, 1_000_000, -1, -9, -10, -60, i64::MAX, i64::MIN] {
        assert_eq!(int_to_string(value), value.to_string());
    }
    assert_eq!(int_to_string(i64::MIN), "-9223372036854775808");
    let mut out = "n=".to_string();
    push_int(&mut out, -42);
    push_nat(&mut out, u64::MAX);
    push_nat(&mut out, 0);
    assert_eq!(out, "n=-42184467440737095516150");
}

#[test]
fn last_segment_of_a_topic() {
    assert_eq!(final_segment("home/livingroom"), "livingroom");
    assert_eq!(final_segment("livingroom"), "livingroom");
    assert_eq!(final_segment("a/b/c/d"), "d");
    assert_eq!(final_segment("a//b"), "b");
    assert_eq!(final_segment("a/"), "");
    assert_eq!(final_segment("/"), "");
    assert_eq!(final_segment(""), "");
    assert_eq!(final_segment("/a"), "a");
    assert_eq!(final_segment("étage/chambre à coucher"), "chambre à coucher");
    for topic in ["x/y", "", "a/b/", "no-slash", "ü/ö/ä"] {
        assert_eq!(final_segment(topic), topic.split('/').last().unwrap());
    }
}

#[test]
fn texts_compare_character_for_character() {
    assert!(text_eq("", ""));
    assert!(text_eq("basic", "basic"));
    assert!(!text_eq("basic", "basi"));
    assert!(!text_eq("basic", "basid"));
    assert!(!text_eq("", "a"));
    assert!(text_eq("küche", "küche"));
    assert!(!text_eq("küche", "kuche"));
}

fn config() -> Config {
    Config {
        username: "user".to_string(),
        password: "SECRET-REDACTED".to_string(),
        mqtt_ip: "192.168.1.10".to_string(),
        mqtt_port: 1883,
        mqtt_topics: vec!["home/livingroom".to_string(), "home/kitchen".to_string()],
        sqlite_database: "sensors.db".to_string(),
        web_server_ip: "0.0.0.0".to_string(),
        web_server_port: 8080,
    }
}

#[test]
fn config_clone_says_the_same() {
    let first = config();
    let copy = first.clone();
    assert_eq!(copy, first);
    assert_eq!(copy.mqtt_topics, vec!["home/livingroom", "home/kitchen"]);
    assert_eq!(copy.mqtt_port, 1883);
    assert_eq!(copy.web_server_port, 8080);
    let mut changed = first.clone();
    changed.mqtt_topics.push("home/attic".to_string());
    assert_eq!(first.mqtt_topics.len(), 2);
    assert_ne!(changed, first);
    assert_eq!(clone_texts(&vec![]), Vec::<String>::new());
}
