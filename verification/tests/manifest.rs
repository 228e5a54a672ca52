use song_catalog::{BeatEvent, Binary64, Json, JsonNumber, SongAnalysis, StemInfo};

fn number(x: f64) -> Binary64 {
    Binary64::from_bits(x.to_bits())
}

fn full_manifest() -> &'static str {
    r#"{
        "title": "Blue Train",
        "artist": "John Coltrane",
        "album": "Blue Train",
        "originalDuration": 643.25,
        "sampleRate": 44100,
        "tempoBpm": 132.5,
        "timeSignature": [4, 4],
        "stems": {
            "vocals": {
                "name": "vocals",
                "paths": {"wav": "stems/vocals.wav", "mp3": "stems/vocals.mp3"},
                "hasNotes": true,
                "peakDb": -3.5
            },
            "drums": {
                "name": "drums",
                "paths": {"wav": "stems/drums.wav"},
                "hasNotes": false,
                "peakDb": -1
            }
        },
        "beats": [
            {"time": 0.5, "type": "downbeat", "beatInMeasure": 1},
            {"time": 1.0, "type": "beat", "beatInMeasure": null},
            {"time": 1.5, "type": "beat"}
        ],
        "sourceFile": "blue_train.flac",
        "processingDate": "2024-03-01T12:00:00Z",
        "converterVersion": "0.4.1"
    }"#
}

fn minimal_manifest() -> &'static str {
    r#"{"originalDuration": 1, "sampleRate": 8000, "stems": {}, "beats": [],
        "sourceFile": "a.wav", "processingDate": "now", "converterVersion": "1"}"#
}

#[test]
fn parse_reads_every_field() {
    let a = SongAnalysis::parse(full_manifest()).unwrap();
    assert_eq!(a.title.as_deref(), Some("Blue Train"));
    assert_eq!(a.artist.as_deref(), Some("John Coltrane"));
    assert_eq!(a.album.as_deref(), Some("Blue Train"));
    assert_eq!(a.original_duration, number(643.25));
    assert_eq!(a.sample_rate, 44100);
    assert_eq!(a.tempo_bpm, Some(number(132.5)));
    assert_eq!(a.time_signature, Some((4, 4)));
    assert_eq!(a.stems.len(), 2);
    let vocals = a.stems.get("vocals").unwrap();
    assert_eq!(vocals.name, "vocals");
    assert_eq!(vocals.paths.len(), 2);
    assert_eq!(vocals.paths.get("wav").unwrap(), "stems/vocals.wav");
    assert_eq!(vocals.paths.get("mp3").unwrap(), "stems/vocals.mp3");
    assert!(vocals.paths.get("ogg").is_none());
    assert!(vocals.has_notes);
    assert_eq!(vocals.peak_db, number(-3.5));
    let drums = a.stems.get("drums").unwrap();
    assert_eq!(drums.name, "drums");
    assert!(!drums.has_notes);
    assert_eq!(drums.peak_db, number(-1.0));
    assert_eq!(
        a.beats,
        vec![
            BeatEvent { time: number(0.5), beat_type: "downbeat".to_string(), beat_in_measure: Some(1) },
            BeatEvent { time: number(1.0), beat_type: "beat".to_string(), beat_in_measure: None },
            BeatEvent { time: number(1.5), beat_type: "beat".to_string(), beat_in_measure: None },
        ]
    );
    assert_eq!(a.source_file, "blue_train.flac");
    assert_eq!(a.processing_date, "2024-03-01T12:00:00Z");
    assert_eq!(a.converter_version, "0.4.1");
}

#[test]
fn parse_leaves_absent_optional_fields_absent() {
    let a = SongAnalysis::parse(minimal_manifest()).unwrap();
    assert_eq!(a.title, None);
    assert_eq!(a.artist, None);
    assert_eq!(a.album, None);
    assert_eq!(a.tempo_bpm, None);
    assert_eq!(a.time_signature, None);
    assert_eq!(a.original_duration, number(1.0));
    assert_eq!(a.stems.len(), 0);
    assert!(a.beats.is_empty());
}

#[test]
fn parse_passes_over_unknown_members() {
    let text = r#"{"originalDuration": 2.5, "sampleRate": 8000, "stems": {}, "beats": [],
        "sourceFile": "a.wav", "processingDate": "now", "converterVersion": "1",
        "extra": {"deep": [1, {"x": null}]}}"#;
    let a = SongAnalysis::parse(text).unwrap();
    assert_eq!(a.original_duration, number(2.5));
}

#[test]
fn parse_fails_on_malformed_text_with_the_parsers_wording() {
    assert_eq!(SongAnalysis::parse("").unwrap_err(), "EOF while parsing a value at line 1 column 0");
    assert_eq!(
        SongAnalysis::parse("{\"title\": }").unwrap_err(),
        "expected value at line 1 column 11"
    );
    assert_eq!(
        SongAnalysis::parse("{} trailing").unwrap_err(),
        "trailing characters at line 1 column 4"
    );
}

#[test]
fn parse_fails_on_a_document_that_is_no_object() {
    assert_eq!(SongAnalysis::parse("[]").unwrap_err(), "expected an object");
    assert_eq!(SongAnalysis::parse("null").unwrap_err(), "expected an object");
    assert_eq!(SongAnalysis::parse("42").unwrap_err(), "expected an object");
}

fn without(field: &str) -> String {
    let fields = [
        ("originalDuration", "1.5"),
        ("sampleRate", "8000"),
        ("stems", "{}"),
        ("beats", "[]"),
        ("sourceFile", "\"a.wav\""),
        ("processingDate", "\"now\""),
        ("converterVersion", "\"1\""),
    ];
    let members: Vec<String> = fields
        .iter()
        .filter(|(name, _)| *name != field)
        .map(|(name, value)| format!("\"{}\": {}", name, value))
        .collect();
    format!("{{{}}}", members.join(", "))
}

fn with(field: &str, value: &str) -> String {
    let base = without(field);
    if base == "{}" {
        format!("{{\"{}\": {}}}", field, value)
    } else {
        format!("{{\"{}\": {}, {}", field, value, &base[1..])
    }
}

#[test]
fn parse_fails_on_each_missing_required_field() {
    for field in [
        "originalDuration",
        "sampleRate",
        "stems",
        "beats",
        "sourceFile",
        "processingDate",
        "converterVersion",
    ] {
        assert_eq!(
            SongAnalysis::parse(&without(field)).unwrap_err(),
            format!("field `{}`: missing", field)
        );
    }
}

#[test]
fn parse_reports_the_first_fault_in_schema_order() {
    assert_eq!(
        SongAnalysis::parse(r#"{"title": 3}"#).unwrap_err(),
        "field `title`: expected a string"
    );
    assert_eq!(SongAnalysis::parse("{}").unwrap_err(), "field `originalDuration`: missing");
    assert_eq!(
        SongAnalysis::parse(r#"{"converterVersion": 1, "originalDuration": 1}"#).unwrap_err(),
        "field `sampleRate`: missing"
    );
}

#[test]
fn parse_fails_on_fields_of_the_wrong_type() {
    let cases = [
        ("title", "7", "field `title`: expected a string"),
        ("artist", "[]", "field `artist`: expected a string"),
        ("album", "false", "field `album`: expected a string"),
        ("originalDuration", "\"3\"", "field `originalDuration`: expected a number"),
        ("originalDuration", "null", "field `originalDuration`: expected a number"),
        ("sampleRate", "44100.0", "field `sampleRate`: expected a 32-bit integer"),
        ("sampleRate", "2147483648", "field `sampleRate`: expected a 32-bit integer"),
        ("sampleRate", "-2147483649", "field `sampleRate`: expected a 32-bit integer"),
        ("sampleRate", "18446744073709551615", "field `sampleRate`: expected a 32-bit integer"),
        ("sampleRate", "null", "field `sampleRate`: expected a 32-bit integer"),
        ("tempoBpm", "\"fast\"", "field `tempoBpm`: expected a number"),
        ("timeSignature", "[4]", "field `timeSignature`: expected a pair of 32-bit integers"),
        ("timeSignature", "[4, 4, 4]", "field `timeSignature`: expected a pair of 32-bit integers"),
        ("timeSignature", "[4, 4.5]", "field `timeSignature`: expected a pair of 32-bit integers"),
        ("timeSignature", "{}", "field `timeSignature`: expected a pair of 32-bit integers"),
        ("stems", "[]", "field `stems`: expected an object"),
        ("stems", "null", "field `stems`: expected an object"),
        ("beats", "{}", "field `beats`: expected an array"),
        ("beats", "null", "field `beats`: expected an array"),
        ("sourceFile", "null", "field `sourceFile`: expected a string"),
        ("processingDate", "1", "field `processingDate`: expected a string"),
        ("converterVersion", "1.0", "field `converterVersion`: expected a string"),
    ];
    for (field, value, message) in cases {
        assert_eq!(SongAnalysis::parse(&with(field, value)).unwrap_err(), message, "{}", field);
    }
}

#[test]
fn parse_accepts_the_bounds_of_32_bit_integers() {
    let a = SongAnalysis::parse(&with("sampleRate", "2147483647")).unwrap();
    assert_eq!(a.sample_rate, i32::MAX);
    let a = SongAnalysis::parse(&with("sampleRate", "-2147483648")).unwrap();
    assert_eq!(a.sample_rate, i32::MIN);
    let a = SongAnalysis::parse(&with("timeSignature", "[-3, 8]")).unwrap();
    assert_eq!(a.time_signature, Some((-3, 8)));
}

#[test]
fn parse_reads_integers_as_numbers_where_a_number_is_asked_for() {
    let a = SongAnalysis::parse(&with("originalDuration", "180")).unwrap();
    assert_eq!(a.original_duration, number(180.0));
    let a = SongAnalysis::parse(&with("tempoBpm", "-7")).unwrap();
    assert_eq!(a.tempo_bpm, Some(number(-7.0)));
    let a = SongAnalysis::parse(&with("originalDuration", "18446744073709551615")).unwrap();
    assert_eq!(a.original_duration, number(18446744073709551615.0));
}

#[test]
fn parse_names_the_way_to_a_fault_inside_a_stem() {
    let text = with(
        "stems",
        r#"{"vocals": {"name": "vocals", "paths": {"wav": 5}, "hasNotes": true, "peakDb": 0}}"#,
    );
    assert_eq!(
        SongAnalysis::parse(&text).unwrap_err(),
        "field `stems`: field `vocals`: field `paths`: field `wav`: expected a string"
    );
    let text = with("stems", r#"{"a": {"name": "a", "paths": {}, "hasNotes": 1, "peakDb": 0}}"#);
    assert_eq!(
        SongAnalysis::parse(&text).unwrap_err(),
        "field `stems`: field `a`: field `hasNotes`: expected a boolean"
    );
    let text = with("stems", r#"{"a": {"name": "a", "paths": {}, "hasNotes": true}}"#);
    assert_eq!(
        SongAnalysis::parse(&text).unwrap_err(),
        "field `stems`: field `a`: field `peakDb`: missing"
    );
    let text = with("stems", r#"{"a": 1}"#);
    assert_eq!(SongAnalysis::parse(&text).unwrap_err(), "field `stems`: field `a`: expected an object");
}

#[test]
fn parse_names_the_way_to_a_fault_inside_a_beat() {
    let text = with("beats", r#"[{"time": 1, "type": "beat"}, {"time": 2}]"#);
    assert_eq!(
        SongAnalysis::parse(&text).unwrap_err(),
        "field `beats`: item: field `type`: missing"
    );
    let text = with("beats", r#"[{"time": 1, "type": "beat", "beatInMeasure": 1.5}]"#);
    assert_eq!(
        SongAnalysis::parse(&text).unwrap_err(),
        "field `beats`: item: field `beatInMeasure`: expected a 32-bit integer"
    );
    let text = with("beats", r#"[7]"#);
    assert_eq!(SongAnalysis::parse(&text).unwrap_err(), "field `beats`: item: expected an object");
}

#[test]
fn parse_does_not_cross_check_stem_names_or_beat_order() {
    let text = with(
        "stems",
        r#"{"vocals": {"name": "bass", "paths": {}, "hasNotes": false, "peakDb": 0.0}}"#,
    );
    let a = SongAnalysis::parse(&text).unwrap();
    let stem = a.stems.get("vocals").unwrap();
    assert_eq!(stem.name, "bass");
    assert!(!stem.is_usable());
    let text = with("beats", r#"[{"time": 2, "type": "b"}, {"time": 1, "type": "a"}]"#);
    let a = SongAnalysis::parse(&text).unwrap();
    assert_eq!(a.beats[0].time, number(2.0));
    assert_eq!(a.beats[1].time, number(1.0));
}

#[test]
fn beat_type_is_read_from_the_member_named_type() {
    let json = Json::parse(r#"{"time": 0.25, "type": "downbeat", "beatType": "ignored"}"#).unwrap();
    let beat = BeatEvent::from_json(&json).unwrap();
    assert_eq!(beat.beat_type, "downbeat");
    assert_eq!(beat.time, number(0.25));
    assert_eq!(beat.beat_in_measure, None);
    let json = Json::parse(r#"{"time": 0.25, "beatType": "downbeat"}"#).unwrap();
    assert_eq!(BeatEvent::from_json(&json).unwrap_err(), "field `type`: missing");
}

#[test]
fn stem_is_read_from_camel_case_members() {
    let json = Json::parse(
        r#"{"name": "bass", "paths": {"wav": "b.wav"}, "hasNotes": true, "peakDb": -6.25}"#,
    )
    .unwrap();
    let stem = StemInfo::from_json(&json).unwrap();
    assert_eq!(stem.name, "bass");
    assert!(stem.has_notes);
    assert_eq!(stem.peak_db, number(-6.25));
    assert!(stem.is_usable());
    let json = Json::parse(
        r#"{"name": "bass", "paths": {}, "has_notes": true, "peak_db": -6.25, "peakDb": 1}"#,
    )
    .unwrap();
    assert_eq!(StemInfo::from_json(&json).unwrap_err(), "field `hasNotes`: missing");
}

#[test]
fn the_last_member_of_a_name_counts() {
    let whole = |i: i64| {
        Json::Number(JsonNumber { signed: Some(i), unsigned: None, binary64: Some((i as f64).to_bits()) })
    };
    let json = Json::Object(vec![
        ("time".to_string(), whole(1)),
        ("type".to_string(), Json::Text("first".to_string())),
        ("time".to_string(), whole(2)),
        ("type".to_string(), Json::Text("second".to_string())),
    ]);
    let beat = BeatEvent::from_json(&json).unwrap();
    assert_eq!(beat.time, number(2.0));
    assert_eq!(beat.beat_type, "second");
}

#[test]
fn a_repeated_path_name_keeps_its_place_and_takes_the_last_value() {
    let json = Json::Object(vec![
        ("name".to_string(), Json::Text("s".to_string())),
        (
            "paths".to_string(),
            Json::Object(vec![
                ("wav".to_string(), Json::Text("one.wav".to_string())),
                ("mp3".to_string(), Json::Text("one.mp3".to_string())),
                ("wav".to_string(), Json::Text("two.wav".to_string())),
            ]),
        ),
        ("hasNotes".to_string(), Json::Bool(false)),
        (
            "peakDb".to_string(),
            Json::Number(JsonNumber { signed: None, unsigned: None, binary64: Some(0.5f64.to_bits()) }),
        ),
    ]);
    let stem = StemInfo::from_json(&json).unwrap();
    assert_eq!(stem.paths.len(), 2);
    assert_eq!(stem.paths.get("wav").unwrap(), "two.wav");
    let (name, path) = stem.paths.entry(0).unwrap();
    assert_eq!((name.as_str(), path.as_str()), ("wav", "two.wav"));
    let (name, path) = stem.paths.entry(1).unwrap();
    assert_eq!((name.as_str(), path.as_str()), ("mp3", "one.mp3"));
    assert!(stem.paths.entry(2).is_none());
}

#[test]
fn a_number_without_a_finite_reading_is_no_number() {
    for bits in [f64::NAN.to_bits(), f64::INFINITY.to_bits(), f64::NEG_INFINITY.to_bits()] {
        let json = Json::Object(vec![
            (
                "time".to_string(),
                Json::Number(JsonNumber { signed: None, unsigned: None, binary64: Some(bits) }),
            ),
            ("type".to_string(), Json::Text("b".to_string())),
        ]);
        assert_eq!(BeatEvent::from_json(&json).unwrap_err(), "field `time`: expected a number");
    }
    let json = Json::Object(vec![
        ("time".to_string(), Json::Number(JsonNumber { signed: Some(1), unsigned: Some(1), binary64: None })),
        ("type".to_string(), Json::Text("b".to_string())),
    ]);
    assert_eq!(BeatEvent::from_json(&json).unwrap_err(), "field `time`: expected a number");
}

#[test]
fn validity_asks_for_a_positive_duration_and_no_beat_before_the_start() {
    assert!(SongAnalysis::parse(full_manifest()).unwrap().is_valid());
    assert!(SongAnalysis::parse(minimal_manifest()).unwrap().is_valid());
    assert!(!SongAnalysis::parse(&with("originalDuration", "0")).unwrap().is_valid());
    assert!(!SongAnalysis::parse(&with("originalDuration", "-0.0")).unwrap().is_valid());
    assert!(!SongAnalysis::parse(&with("originalDuration", "-2.5")).unwrap().is_valid());
    let text = with("beats", r#"[{"time": 0, "type": "a"}, {"time": -0.0, "type": "b"}]"#);
    assert!(SongAnalysis::parse(&text).unwrap().is_valid());
    let text = with("beats", r#"[{"time": 0, "type": "a"}, {"time": -0.001, "type": "b"}]"#);
    assert!(!SongAnalysis::parse(&text).unwrap().is_valid());
    let mut a = SongAnalysis::parse(minimal_manifest()).unwrap();
    a.original_duration = number(f64::NAN);
    assert!(!a.is_valid());
    a.original_duration = number(f64::INFINITY);
    assert!(a.is_valid());
}
