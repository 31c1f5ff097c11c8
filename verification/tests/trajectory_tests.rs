use geoscope::trajectory::{
    segment_is_recent, trail_window, trajectory_format, trajectory_from_text, trajectory_from_csv, trajectory_from_json, JsonValue,
    TrailWindow, TrajectoryFormat,
};

fn num(s: &str) -> JsonValue {
    JsonValue::Number(s.to_string())
}

fn pt(lon: &str, lat: &str) -> JsonValue {
    JsonValue::Object(vec![("lon".to_string(), num(lon)), ("lat".to_string(), num(lat))])
}

#[test]
fn format_by_extension() {
    assert_eq!(trajectory_format("track.JSON"), Ok(TrajectoryFormat::Json));
    assert_eq!(trajectory_format("dir/track.csv"), Ok(TrajectoryFormat::Csv));
    assert_eq!(
        trajectory_format("track.txt"),
        Err("Unsupported trajectory file extension '.txt'. Use .json or .csv".to_string())
    );
    assert_eq!(
        trajectory_format("track"),
        Err("Unsupported trajectory file extension '.'. Use .json or .csv".to_string())
    );
}

#[test]
fn json_object_with_name() {
    let doc = JsonValue::Object(vec![
        ("name".to_string(), JsonValue::Str("Typhoon".to_string())),
        ("points".to_string(), JsonValue::Array(vec![pt("135", "35"), JsonValue::Array(vec![num("136.5"), num("35.2")])])),
    ]);
    let t = trajectory_from_json(&doc, "x/storm.json").unwrap();
    assert_eq!(t.name, "Typhoon");
    assert_eq!(t.points, vec![("135".to_string(), "35".to_string()), ("136.5".to_string(), "35.2".to_string())]);
}

#[test]
fn json_array_named_after_file() {
    let doc = JsonValue::Array(vec![JsonValue::Array(vec![num("1"), num("2"), num("3")])]);
    let t = trajectory_from_json(&doc, "x/storm.json").unwrap();
    assert_eq!(t.name, "storm");
    assert_eq!(t.points.len(), 1);
}

#[test]
fn json_errors() {
    let e = |v: JsonValue| trajectory_from_json(&v, "a.json").err().unwrap();
    assert_eq!(e(JsonValue::Null), "JSON must be an object or array");
    assert_eq!(e(JsonValue::Object(vec![])), "JSON object must have a \"points\" field");
    assert_eq!(e(JsonValue::Array(vec![])), "Points array is empty");
    assert_eq!(
        e(JsonValue::Object(vec![("points".to_string(), JsonValue::Bool(true))])),
        "Expected a JSON array of points"
    );
    assert_eq!(e(JsonValue::Array(vec![pt("1", "2"), JsonValue::Str("x".to_string())])), "Point 1: expected object or array");
    assert_eq!(
        e(JsonValue::Array(vec![JsonValue::Object(vec![("lat".to_string(), num("2"))])])),
        "Point 0: missing or invalid \"lon\""
    );
    assert_eq!(
        e(JsonValue::Array(vec![JsonValue::Array(vec![num("1")])])),
        "Point 0: array must have at least 2 elements [lon, lat]"
    );
    assert_eq!(
        e(JsonValue::Array(vec![JsonValue::Array(vec![num("1"), JsonValue::Null])])),
        "Point 0: invalid lat value"
    );
}

#[test]
fn csv_points() {
    let csv = "lon,lat\n135.0, 35.0\n\n# comment\n 136.5 ,35.2,extra\r\n";
    let t = trajectory_from_csv(csv, "/tmp/run7.csv").unwrap();
    assert_eq!(t.name, "run7");
    assert_eq!(t.points, vec![("135.0".to_string(), "35.0".to_string()), ("136.5".to_string(), "35.2".to_string())]);
}

#[test]
fn csv_errors() {
    assert_eq!(trajectory_from_csv("1,2\n3", "a.csv").err().unwrap(), "Line 2: expected at least 2 comma-separated values");
    assert_eq!(trajectory_from_csv("1,2\nx, 4", "a.csv").err().unwrap(), "Line 2: invalid lon value 'x'");
    assert_eq!(trajectory_from_csv("lon,lat\n1,e5", "a.csv").err().unwrap(), "Line 2: invalid lat value 'e5'");
    assert_eq!(trajectory_from_csv("lon,lat\n# only\n", "a.csv").err().unwrap(), "CSV file contains no valid data points");
    // a header is only recognised on the first line
    assert_eq!(trajectory_from_csv("1,2\nlon,lat", "a.csv").err().unwrap(), "Line 2: invalid lon value 'lon'");
}

#[test]
fn trail_window_follows_the_playhead() {
    use_trail();
}

fn use_trail() {
    assert_eq!(trail_window(0, 3, 10), None);
    assert_eq!(trail_window(100, 30, 500), Some(TrailWindow { current: 30, bright_start: 0 }));
    assert_eq!(trail_window(100, 30, 5), Some(TrailWindow { current: 30, bright_start: 25 }));
    let w = trail_window(10, 999, 3).unwrap();
    assert_eq!(w, TrailWindow { current: 9, bright_start: 6 });
    assert!(!segment_is_recent(w, 5));
    assert!(segment_is_recent(w, 6));
    assert!(segment_is_recent(w, 8));
    assert!(!segment_is_recent(w, 9));
}

#[test]
fn trajectories_from_file_text() {
    let t = trajectory_from_text("{\"name\": \"Jebi\", \"points\": [{\"lon\": 135.5, \"lat\": 35}]}", "a.json").unwrap();
    assert_eq!(t.name, "Jebi");
    assert_eq!(t.points, vec![("135.5".to_string(), "35".to_string())]);
    let t = trajectory_from_text("[[1, 2], [3.5, -4]]", "dir/storm.JSON").unwrap();
    assert_eq!(t.name, "storm");
    assert_eq!(t.points.len(), 2);
    assert!(trajectory_from_text("{bad", "a.json").unwrap_err().starts_with("Invalid JSON: "));
    let t = trajectory_from_text("lon,lat\n1,2\n", "t.csv").unwrap();
    assert_eq!(t.points, vec![("1".to_string(), "2".to_string())]);
    assert!(trajectory_from_text("1,2", "t.txt").is_err());
}
