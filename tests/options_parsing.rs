use unified_runner::options::{
    CollectionOrDatabaseOptions, HedgedReadOptions, ReadConcern, ReadConcernLevel,
    ReadPreference, SelectionCriteria, WriteConcern, Acknowledgment,
};
use unified_runner::schema::SchemaViolation;

fn doc(pairs: &[(&str, &str)]) -> Vec<(String, String)> {
    pairs.iter().map(|(k, v)| (k.to_string(), v.to_string())).collect()
}

#[test]
fn deserialize_selection_criteria() {
    let selection_criteria =
        SelectionCriteria::from_parts("SecondaryPreferred", Some(100), Some(true)).unwrap();

    match selection_criteria {
        SelectionCriteria::ReadPreference(read_preference) => match read_preference {
            ReadPreference::SecondaryPreferred { options } => {
                assert_eq!(options.max_staleness_secs, Some(100));
                assert_eq!(options.hedge, Some(HedgedReadOptions::with_enabled(true)));
            }
            other => panic!("Expected mode SecondaryPreferred, got {:?}", other),
        },
    }
}

#[test]
fn deserialize_read_concern() {
    let read_concern = ReadConcern::from_document(&doc(&[("level", "local")])).unwrap();
    assert!(matches!(read_concern.level, ReadConcernLevel::Local));

    let read_concern = ReadConcern::from_document(&doc(&[("level", "customlevel")])).unwrap();
    match read_concern.level {
        ReadConcernLevel::Custom(level) => assert_eq!(level.as_str(), "customlevel"),
        other => panic!("Expected custom read concern, got {:?}", other),
    };
}

#[test]
fn read_concern_rejects_unknown_and_missing_fields() {
    let r = ReadConcern::from_document(&doc(&[("level", "local"), ("extra", "1")]));
    assert!(matches!(r, Err(SchemaViolation::UnknownField(f)) if f == "extra"));
    let r = ReadConcern::from_document(&doc(&[]));
    assert!(matches!(r, Err(SchemaViolation::MissingField(f)) if f == "level"));
}

#[test]
fn read_concern_named_levels() {
    assert_eq!(ReadConcernLevel::from_level_name("majority"), ReadConcernLevel::Majority);
    assert_eq!(ReadConcernLevel::from_level_name("snapshot"), ReadConcernLevel::Snapshot);
    assert_eq!(ReadConcernLevel::from_level_name("available"), ReadConcernLevel::Available);
    assert_eq!(
        ReadConcernLevel::from_level_name("linearizable"),
        ReadConcernLevel::Linearizable
    );
    assert_eq!(
        ReadConcernLevel::from_level_name("Local"),
        ReadConcernLevel::Custom("Local".to_string())
    );
}

#[test]
fn read_preference_modes_and_errors() {
    assert_eq!(
        SelectionCriteria::from_parts("Primary", None, None).unwrap(),
        SelectionCriteria::ReadPreference(ReadPreference::Primary)
    );
    assert!(matches!(
        SelectionCriteria::from_parts("Primary", Some(90), None),
        Err(SchemaViolation::OptionsNotAllowed)
    ));
    assert!(matches!(
        SelectionCriteria::from_parts("Anywhere", None, None),
        Err(SchemaViolation::UnknownValue(m)) if m == "Anywhere"
    ));
    match SelectionCriteria::from_parts("Nearest", None, Some(false)).unwrap() {
        SelectionCriteria::ReadPreference(ReadPreference::Nearest { options }) => {
            assert_eq!(options.max_staleness_secs, None);
            assert_eq!(options.hedge, Some(HedgedReadOptions::with_enabled(false)));
        }
        other => panic!("Expected mode Nearest, got {:?}", other),
    }
}

#[test]
fn entity_options_carry_over() {
    let options = CollectionOrDatabaseOptions {
        read_concern: Some(ReadConcern { level: ReadConcernLevel::Custom("x".to_string()) }),
        selection_criteria: Some(
            SelectionCriteria::from_parts("Secondary", Some(30), None).unwrap(),
        ),
        write_concern: Some(WriteConcern {
            w: Some(Acknowledgment::Nodes(2)),
            w_timeout_ms: Some(50),
            journal: Some(true),
        }),
    };
    let db = options.as_database_options();
    assert_eq!(db.read_concern, options.read_concern);
    assert_eq!(db.selection_criteria, options.selection_criteria);
    assert_eq!(db.write_concern, options.write_concern);
    let coll = options.as_collection_options();
    assert_eq!(coll.read_concern, options.read_concern);
    assert_eq!(coll.selection_criteria, options.selection_criteria);
    assert_eq!(coll.write_concern, options.write_concern);
}
