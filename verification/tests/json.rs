use song_catalog::json::{Json, JsonNumber};

#[test]
fn parse_reads_scalars_and_containers() {
    let doc = Json::parse(r#"{"b": [1, -2, 1.5, "x", true, null]}"#).unwrap();
    match doc {
        Json::Object(members) => {
            assert_eq!(members.len(), 1);
            assert_eq!(members[0].0, "b");
            match &members[0].1 {
                Json::Array(items) => {
                    assert_eq!(items.len(), 6);
                    match &items[0] {
                        Json::Number(n) => assert_eq!(
                            *n,
                            JsonNumber {
                                signed: Some(1),
                                unsigned: Some(1),
                                binary64: Some(1.0f64.to_bits())
                            }
                        ),
                        other => panic!("unexpected {:?}", other),
                    }
                    match &items[2] {
                        Json::Number(n) => assert_eq!(
                            *n,
                            JsonNumber {
                                signed: None,
                                unsigned: None,
                                binary64: Some(1.5f64.to_bits())
                            }
                        ),
                        other => panic!("unexpected {:?}", other),
                    }
                    assert!(matches!(&items[3], Json::Text(s) if s == "x"));
                    assert!(matches!(&items[4], Json::Bool(true)));
                    assert!(matches!(&items[5], Json::Null));
                }
                other => panic!("unexpected {:?}", other),
            }
        }
        other => panic!("unexpected {:?}", other),
    }
}

#[test]
fn parse_reports_the_parsers_wording() {
    let err = Json::parse("{").unwrap_err();
    assert_eq!(err, "EOF while parsing an object at line 1 column 1");
}
