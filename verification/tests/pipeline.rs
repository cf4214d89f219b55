use tle_retriever::decode::{decode_response, DecodeError};
use tle_retriever::loglevel::{parse_log_level, LogLevel};
use tle_retriever::query::build_query;
use tle_retriever::record::STResponse;
use tle_retriever::render::{render_record, render_records};
use tle_retriever::settings::Settings;

fn iss_element(name_json: &str) -> String {
    format!(
        "{{\"OBJECT_NAME\":{},\"OBJECT_ID\":\"1998-067A\",\"NORAD_CAT_ID\":\"25544\",\"EPOCH\":\"2023-01-01T00:00:00\",\"REV_AT_EPOCH\":\"1000\",\"TLE_LINE1\":\"1 25544U ...\",\"TLE_LINE2\":\"2 25544 ...\"}}",
        name_json
    )
}

#[test]
fn query_two_ids() {
    let q = build_query(&vec![25544, 20580]);
    assert_eq!(
        q,
        "https://www.space-track.org/basicspacedata/query/class/gp/NORAD_CAT_ID/25544,20580/orderby/TLE_LINE1%20ASC/format/json"
    );
}

#[test]
fn query_single_id() {
    let q = build_query(&vec![7]);
    assert_eq!(
        q,
        "https://www.space-track.org/basicspacedata/query/class/gp/NORAD_CAT_ID/7/orderby/TLE_LINE1%20ASC/format/json"
    );
}

#[test]
fn query_keeps_duplicates_and_order() {
    let q = build_query(&vec![5, 5, 104230, 5]);
    assert!(q.contains("/NORAD_CAT_ID/5,5,104230,5/orderby/"));
}

#[test]
fn decode_two_elements_verbatim() {
    let body = format!("[{},{}]", iss_element("\"ISS\""), iss_element("null"));
    let recs = decode_response(&body).unwrap();
    assert_eq!(recs.len(), 2);
    assert_eq!(recs[0].object_name.as_deref(), Some("ISS"));
    assert_eq!(recs[0].international_designator.as_deref(), Some("1998-067A"));
    assert_eq!(recs[0].norad_id, "25544");
    assert_eq!(recs[0].datetime, "2023-01-01T00:00:00");
    assert_eq!(recs[0].revolution_number, "1000");
    assert_eq!(recs[0].line_1, "1 25544U ...");
    assert_eq!(recs[0].line_2, "2 25544 ...");
    assert_eq!(recs[1].object_name, None);
}

#[test]
fn decode_empty_array() {
    let recs = decode_response("[]").unwrap();
    assert_eq!(recs.len(), 0);
}

#[test]
fn decode_absent_name_is_kept_absent_until_rendering() {
    let body = "[{\"NORAD_CAT_ID\":\"20580\",\"EPOCH\":\"2023-01-01T00:00:00\",\"REV_AT_EPOCH\":\"500\",\"TLE_LINE1\":\"1 20580U ...\",\"TLE_LINE2\":\"2 20580 ...\"}]";
    let recs = decode_response(body).unwrap();
    assert_eq!(recs[0].object_name, None);
    let out = render_record(&recs[0]);
    assert_eq!(out, "Unknown\n1 20580U ...\n2 20580 ...\n");
}

#[test]
fn decode_null_name_renders_unknown() {
    let body = format!("[{}]", iss_element("null"));
    let recs = decode_response(&body).unwrap();
    assert_eq!(recs[0].object_name, None);
    let out = render_record(&recs[0]);
    assert!(out.starts_with("Unknown\n"));
}

#[test]
fn decode_present_name_passes_through() {
    let body = format!("[{}]", iss_element("\"ZARYA\""));
    let recs = decode_response(&body).unwrap();
    let out = render_record(&recs[0]);
    assert!(out.starts_with("ZARYA\n"));
}

#[test]
fn decode_missing_norad_id_fails() {
    let body = "[{\"OBJECT_NAME\":\"ISS\",\"EPOCH\":\"2023-01-01T00:00:00\",\"REV_AT_EPOCH\":\"1000\",\"TLE_LINE1\":\"1\",\"TLE_LINE2\":\"2\"}]";
    assert_eq!(decode_response(body).unwrap_err(), DecodeError::BadElement);
}

#[test]
fn decode_missing_epoch_fails() {
    let body = "[{\"NORAD_CAT_ID\":\"25544\",\"REV_AT_EPOCH\":\"1000\",\"TLE_LINE1\":\"1\",\"TLE_LINE2\":\"2\"}]";
    assert_eq!(decode_response(body).unwrap_err(), DecodeError::BadElement);
}

#[test]
fn decode_missing_rev_fails() {
    let body = "[{\"NORAD_CAT_ID\":\"25544\",\"EPOCH\":\"2023-01-01T00:00:00\",\"TLE_LINE1\":\"1\",\"TLE_LINE2\":\"2\"}]";
    assert_eq!(decode_response(body).unwrap_err(), DecodeError::BadElement);
}

#[test]
fn decode_missing_line1_fails() {
    let body = "[{\"NORAD_CAT_ID\":\"25544\",\"EPOCH\":\"2023-01-01T00:00:00\",\"REV_AT_EPOCH\":\"1000\",\"TLE_LINE2\":\"2\"}]";
    assert_eq!(decode_response(body).unwrap_err(), DecodeError::BadElement);
}

#[test]
fn decode_missing_line2_fails() {
    let body = "[{\"NORAD_CAT_ID\":\"25544\",\"EPOCH\":\"2023-01-01T00:00:00\",\"REV_AT_EPOCH\":\"1000\",\"TLE_LINE1\":\"1\"}]";
    assert_eq!(decode_response(body).unwrap_err(), DecodeError::BadElement);
}

#[test]
fn decode_numeric_required_field_fails() {
    let body = "[{\"NORAD_CAT_ID\":25544,\"EPOCH\":\"2023-01-01T00:00:00\",\"REV_AT_EPOCH\":\"1000\",\"TLE_LINE1\":\"1\",\"TLE_LINE2\":\"2\"}]";
    assert_eq!(decode_response(body).unwrap_err(), DecodeError::BadElement);
}

#[test]
fn decode_numeric_optional_field_fails() {
    let body = format!("[{}]", iss_element("42"));
    assert_eq!(decode_response(&body).unwrap_err(), DecodeError::BadElement);
}

#[test]
fn decode_invalid_epoch_text_fails() {
    let body = iss_element("\"ISS\"").replace("2023-01-01T00:00:00", "yesterday at noon");
    assert_eq!(decode_response(&format!("[{}]", body)).unwrap_err(), DecodeError::BadElement);
}

#[test]
fn decode_invalid_calendar_date_fails() {
    let body = iss_element("\"ISS\"").replace("2023-01-01T00:00:00", "2023-02-30T00:00:00");
    assert_eq!(decode_response(&format!("[{}]", body)).unwrap_err(), DecodeError::BadElement);
}

#[test]
fn decode_fractional_seconds_epoch_ok() {
    let body = iss_element("\"ISS\"").replace("2023-01-01T00:00:00", "2023-06-15T12:34:56.123456");
    let recs = decode_response(&format!("[{}]", body)).unwrap();
    assert_eq!(recs[0].datetime, "2023-06-15T12:34:56.123456");
}

#[test]
fn decode_non_array_body_fails() {
    assert_eq!(decode_response("{}").unwrap_err(), DecodeError::Syntax);
    assert_eq!(decode_response("not json at all").unwrap_err(), DecodeError::Syntax);
    assert_eq!(decode_response("").unwrap_err(), DecodeError::Syntax);
}

fn record(name: Option<&str>, line_1: &str, line_2: &str) -> STResponse {
    STResponse {
        object_name: name.map(|n| n.to_string()),
        international_designator: None,
        norad_id: "1".to_string(),
        datetime: "2023-01-01T00:00:00".to_string(),
        revolution_number: "1".to_string(),
        line_1: line_1.to_string(),
        line_2: line_2.to_string(),
    }
}

#[test]
fn render_groups_three_lines_per_record() {
    let recs = vec![
        record(Some("A"), "1 a", "2 a"),
        record(None, "1 b", "2 b"),
        record(Some("C"), "1 c", "2 c"),
    ];
    let out = render_records(&recs);
    assert_eq!(out, "A\n1 a\n2 a\nUnknown\n1 b\n2 b\nC\n1 c\n2 c\n");
    assert_eq!(out.matches('\n').count(), 9);
    let lines: Vec<&str> = out.lines().collect();
    assert_eq!(lines.len(), 9);
    assert_eq!(lines[3], "Unknown");
    assert_eq!(lines[4], "1 b");
    assert_eq!(lines[5], "2 b");
}

#[test]
fn render_no_records_writes_nothing() {
    let out = render_records(&vec![]);
    assert_eq!(out, "");
}

#[test]
fn end_to_end_two_objects() {
    let settings = Settings {
        username: "user".to_string(),
        password: "pass".to_string(),
        norad_ids: vec![25544, 20580],
        connection_timeout: 30,
        connection_read_timeout: 30,
        connection_retries: 0,
        output_filename: "tles.txt".to_string(),
        output_directory: "/tmp".to_string(),
    };
    assert!(settings.is_valid());
    let q = build_query(&settings.norad_ids);
    assert!(q.contains("/NORAD_CAT_ID/25544,20580/"));
    let body = "[{\"OBJECT_NAME\":\"ISS\",\"NORAD_CAT_ID\":\"25544\",\"EPOCH\":\"2023-01-01T00:00:00\",\"REV_AT_EPOCH\":\"1000\",\"TLE_LINE1\":\"1 25544U ...\",\"TLE_LINE2\":\"2 25544 ...\"},{\"OBJECT_NAME\":null,\"NORAD_CAT_ID\":\"20580\",\"EPOCH\":\"2023-01-01T00:00:00\",\"REV_AT_EPOCH\":\"500\",\"TLE_LINE1\":\"1 20580U ...\",\"TLE_LINE2\":\"2 20580 ...\"}]";
    let recs = decode_response(body).unwrap();
    let out = render_records(&recs);
    assert_eq!(
        out,
        "ISS\n1 25544U ...\n2 25544 ...\nUnknown\n1 20580U ...\n2 20580 ...\n"
    );
    assert_eq!(out.lines().count(), 6);
}

#[test]
fn log_level_words() {
    assert_eq!(parse_log_level("off"), Some(LogLevel::Off));
    assert_eq!(parse_log_level("error"), Some(LogLevel::Error));
    assert_eq!(parse_log_level("warn"), Some(LogLevel::Warn));
    assert_eq!(parse_log_level("info"), Some(LogLevel::Info));
    assert_eq!(parse_log_level("debug"), Some(LogLevel::Debug));
    assert_eq!(parse_log_level("trace"), Some(LogLevel::Trace));
}

#[test]
fn invalid_log_level_is_rejected() {
    assert_eq!(parse_log_level("verbose"), None);
    assert_eq!(parse_log_level("OFF"), None);
    assert_eq!(parse_log_level(""), None);
}

#[test]
fn settings_validity() {
    let mut settings = Settings {
        username: "user".to_string(),
        password: "pass".to_string(),
        norad_ids: vec![],
        connection_timeout: 30,
        connection_read_timeout: 30,
        connection_retries: 0,
        output_filename: "tles.txt".to_string(),
        output_directory: "/tmp".to_string(),
    };
    assert!(!settings.is_valid());
    settings.norad_ids = vec![25544, 0];
    assert!(!settings.is_valid());
    settings.norad_ids = vec![25544];
    assert!(settings.is_valid());
}
