//! The closed schema of scenario documents: which fields each structural
//! type accepts and requires, and how an entity declaration picks its kind.
use vstd::prelude::*;
use vstd::string::*;
use crate::expect_error::{first_label_index, first_missing, texts};

verus! {

/// The structural types of a scenario document.
#[derive(Clone, Copy, Debug, PartialEq, Eq, Structural)]
pub enum RecordKind {
    TestFile,
    RunOnRequirement,
    Client,
    StoreEventsAsEntity,
    ServerApi,
    Database,
    Collection,
    Session,
    Bucket,
    Thread,
    CollectionOrDatabaseOptions,
    CollectionData,
    TestCase,
    ExpectedEvents,
    ExpectError,
    ReadConcern,
}

/// Why a document does not conform to the schema.
#[derive(Clone, Debug)]
pub enum SchemaViolation {
    /// A field that the type does not accept.
    UnknownField(String),
    /// A field that the type requires and the document lacks.
    MissingField(String),
    /// An entity declaration that does not hold exactly one key.
    NotSingleKey,
    /// An entity declaration keyed by no known entity kind.
    UnknownEntityKind(String),
    /// A value outside the closed set that the field admits.
    UnknownValue(String),
    /// Options given with a read preference mode that takes none.
    OptionsNotAllowed,
}

/// The fields that a structural type accepts.
pub open spec fn accepted_fields(kind: RecordKind) -> Seq<Seq<char>> {
    match kind {
        RecordKind::TestFile => seq![
            "description"@,
            "schemaVersion"@,
            "runOnRequirements"@,
            "createEntities"@,
            "initialData"@,
            "tests"@,
            "_yamlAnchors"@,
        ],
        RecordKind::RunOnRequirement => seq![
            "minServerVersion"@,
            "maxServerVersion"@,
            "topologies"@,
            "serverParameters"@,
            "serverless"@,
            "auth"@,
        ],
        RecordKind::Client => seq![
            "id"@,
            "uriOptions"@,
            "useMultipleMongoses"@,
            "observeEvents"@,
            "ignoreCommandMonitoringEvents"@,
            "observeSensitiveCommands"@,
            "serverApi"@,
            "storeEventsAsEntities"@,
        ],
        RecordKind::StoreEventsAsEntity => seq!["id"@, "events"@],
        RecordKind::ServerApi => seq!["version"@, "strict"@, "deprecationErrors"@],
        RecordKind::Database => seq!["id"@, "client"@, "databaseName"@, "databaseOptions"@],
        RecordKind::Collection => seq!["id"@, "database"@, "collectionName"@, "collectionOptions"@],
        RecordKind::Session => seq!["id"@, "client"@, "sessionOptions"@],
        RecordKind::Bucket => seq!["id"@, "database"@, "bucketOptions"@],
        RecordKind::Thread => seq!["id"@],
        RecordKind::CollectionOrDatabaseOptions => seq!["readConcern"@, "readPreference"@, "writeConcern"@],
        RecordKind::CollectionData => seq!["collectionName"@, "databaseName"@, "documents"@],
        RecordKind::TestCase => seq![
            "description"@,
            "runOnRequirements"@,
            "skipReason"@,
            "operations"@,
            "expectEvents"@,
            "outcome"@,
        ],
        RecordKind::ExpectedEvents => seq!["client"@, "events"@, "eventType"@, "ignoreExtraEvents"@],
        RecordKind::ExpectError => seq![
            "isError"@,
            "isClientError"@,
            "errorContains"@,
            "errorCode"@,
            "errorCodeName"@,
            "errorLabelsContain"@,
            "errorLabelsOmit"@,
            "expectResult"@,
        ],
        RecordKind::ReadConcern => seq!["level"@],
    }
}

/// The fields that a structural type requires.
pub open spec fn required_fields(kind: RecordKind) -> Seq<Seq<char>> {
    match kind {
        RecordKind::TestFile => seq!["description"@, "schemaVersion"@, "tests"@],
        RecordKind::Client => seq!["id"@],
        RecordKind::StoreEventsAsEntity => seq!["id"@, "events"@],
        RecordKind::ServerApi => seq!["version"@],
        RecordKind::Database => seq!["id"@, "client"@, "databaseName"@],
        RecordKind::Collection => seq!["id"@, "database"@, "collectionName"@],
        RecordKind::Session => seq!["id"@, "client"@],
        RecordKind::Bucket => seq!["id"@, "database"@],
        RecordKind::Thread => seq!["id"@],
        RecordKind::CollectionData => seq!["collectionName"@, "databaseName"@, "documents"@],
        RecordKind::TestCase => seq!["description"@, "operations"@],
        RecordKind::ExpectedEvents => seq!["client"@, "events"@],
        RecordKind::ReadConcern => seq!["level"@],
        _ => Seq::<Seq<char>>::empty(),
    }
}

/// Whether a document with the fields `present` conforms to `kind`: every
/// field is accepted and every required field is there.
pub open spec fn fields_conform(kind: RecordKind, present: Seq<Seq<char>>) -> bool {
    (forall|i: int| 0 <= i < present.len() ==> accepted_fields(kind).contains(#[trigger] present[i]))
        && (forall|j: int|
        0 <= j < required_fields(kind).len() ==> present.contains(#[trigger] required_fields(kind)[j]))
}

fn strings(names: Vec<&str>) -> (r: Vec<String>)
    ensures
        texts(r@) == names@.map_values(|s: &str| s@),
{
    let mut r: Vec<String> = Vec::new();
    let mut i: usize = 0;
    while i < names.len()
        invariant
            i <= names.len(),
            r@.len() == i,
            forall|k: int| 0 <= k < i ==> r@[k]@ == names@[k]@,
        decreases names.len() - i,
    {
        r.push(String::from_str(names[i]));
        i = i + 1;
    }
    assert(texts(r@) =~= names@.map_values(|s: &str| s@));
    r
}

/// The accepted and the required fields of `kind`.
fn field_lists(kind: RecordKind) -> (r: (Vec<String>, Vec<String>))
    ensures
        texts(r.0@) == accepted_fields(kind),
        texts(r.1@) == required_fields(kind),
{
    let (accepted, required) = match kind {
        RecordKind::TestFile => (
            vec![
                "description",
                "schemaVersion",
                "runOnRequirements",
                "createEntities",
                "initialData",
                "tests",
                "_yamlAnchors",
            ],
            vec!["description", "schemaVersion", "tests"],
        ),
        RecordKind::RunOnRequirement => (
            vec![
                "minServerVersion",
                "maxServerVersion",
                "topologies",
                "serverParameters",
                "serverless",
                "auth",
            ],
            vec![],
        ),
        RecordKind::Client => (
            vec![
                "id",
                "uriOptions",
                "useMultipleMongoses",
                "observeEvents",
                "ignoreCommandMonitoringEvents",
                "observeSensitiveCommands",
                "serverApi",
                "storeEventsAsEntities",
            ],
            vec!["id"],
        ),
        RecordKind::StoreEventsAsEntity => (vec!["id", "events"], vec!["id", "events"]),
        RecordKind::ServerApi => (vec!["version", "strict", "deprecationErrors"], vec!["version"]),
        RecordKind::Database => (
            vec!["id", "client", "databaseName", "databaseOptions"],
            vec!["id", "client", "databaseName"],
        ),
        RecordKind::Collection => (
            vec!["id", "database", "collectionName", "collectionOptions"],
            vec!["id", "database", "collectionName"],
        ),
        RecordKind::Session => (vec!["id", "client", "sessionOptions"], vec!["id", "client"]),
        RecordKind::Bucket => (vec!["id", "database", "bucketOptions"], vec!["id", "database"]),
        RecordKind::Thread => (vec!["id"], vec!["id"]),
        RecordKind::CollectionOrDatabaseOptions => (
            vec!["readConcern", "readPreference", "writeConcern"],
            vec![],
        ),
        RecordKind::CollectionData => (
            vec!["collectionName", "databaseName", "documents"],
            vec!["collectionName", "databaseName", "documents"],
        ),
        RecordKind::TestCase => (
            vec![
                "description",
                "runOnRequirements",
                "skipReason",
                "operations",
                "expectEvents",
                "outcome",
            ],
            vec!["description", "operations"],
        ),
        RecordKind::ExpectedEvents => (
            vec!["client", "events", "eventType", "ignoreExtraEvents"],
            vec!["client", "events"],
        ),
        RecordKind::ExpectError => (
            vec![
                "isError",
                "isClientError",
                "errorContains",
                "errorCode",
                "errorCodeName",
                "errorLabelsContain",
                "errorLabelsOmit",
                "expectResult",
            ],
            vec![],
        ),
        RecordKind::ReadConcern => (vec!["level"], vec!["level"]),
    };
    let a = strings(accepted);
    let q = strings(required);
    assert(texts(a@) =~= accepted_fields(kind));
    assert(texts(q@) =~= required_fields(kind));
    (a, q)
}

proof fn lemma_first_missing_none(want: Seq<Seq<char>>, have: Seq<Seq<char>>)
    ensures
        first_missing(want, have) is None <==> forall|i: int|
            0 <= i < want.len() ==> have.contains(#[trigger] want[i]),
    decreases want.len(),
{
    if want.len() > 0 {
        lemma_first_missing_none(want.drop_first(), have);
        if first_missing(want, have) is None {
            assert forall|i: int| 0 <= i < want.len() implies have.contains(#[trigger] want[i]) by {
                if i > 0 {
                    assert(want[i] == want.drop_first()[i - 1]);
                }
            }
        }
        if forall|i: int| 0 <= i < want.len() ==> have.contains(#[trigger] want[i]) {
            assert(have.contains(want[0]));
            assert forall|i: int| 0 <= i < want.drop_first().len() implies have.contains(
                #[trigger] want.drop_first()[i],
            ) by {
                assert(want.drop_first()[i] == want[i + 1]);
            }
        }
    }
}

/// Checks the fields of a document against the closed schema of `kind`:
/// the first field that the type does not accept is reported, then the
/// first required field that is absent.
pub fn check_fields(kind: RecordKind, present: &Vec<String>) -> (r: Result<(), SchemaViolation>)
    ensures
        r is Ok <==> fields_conform(kind, texts(present@)),
        r matches Err(SchemaViolation::UnknownField(f)) ==> first_missing(
            texts(present@),
            accepted_fields(kind),
        ) == Some(f@),
        r matches Err(SchemaViolation::MissingField(f)) ==> first_missing(
            texts(present@),
            accepted_fields(kind),
        ) is None && first_missing(required_fields(kind), texts(present@)) == Some(f@),
        r matches Err(v) ==> v is UnknownField || v is MissingField,
{
    let (accepted, required) = field_lists(kind);
    proof {
        lemma_first_missing_none(texts(present@), accepted_fields(kind));
        lemma_first_missing_none(required_fields(kind), texts(present@));
    }
    if let Some(i) = first_label_index(present, &accepted, false) {
        return Err(SchemaViolation::UnknownField(present[i].clone()));
    }
    if let Some(j) = first_label_index(&required, present, false) {
        return Err(SchemaViolation::MissingField(required[j].clone()));
    }
    Ok(())
}

proof fn lemma_required_are_accepted(kind: RecordKind)
    ensures
        forall|j: int|
            0 <= j < required_fields(kind).len() ==> accepted_fields(kind).contains(
                #[trigger] required_fields(kind)[j],
            ),
{
    let a = accepted_fields(kind);
    let q = required_fields(kind);
    assert forall|j: int| 0 <= j < q.len() implies a.contains(#[trigger] q[j]) by {
        if kind == RecordKind::TestFile {
            assert(q[j] == a[if j == 0 { 0 } else if j == 1 { 1 } else { 5 }]);
        } else if kind == RecordKind::TestCase {
            assert(q[j] == a[if j == 0 { 0 } else { 3 }]);
        } else {
            assert(q[j] == a[j]);
        }
    }
}

/// A document holding a field that its type does not accept is refused; when
/// every other field is accepted and every required field is there, the
/// same document without that field conforms.
pub proof fn unknown_field_refused_and_removal_conforms(
    kind: RecordKind,
    present: Seq<Seq<char>>,
    i: int,
)
    requires
        0 <= i < present.len(),
        !accepted_fields(kind).contains(present[i]),
        forall|k: int| 0 <= k < present.len() && k != i ==> accepted_fields(kind).contains(#[trigger] present[k]),
        forall|j: int| 0 <= j < required_fields(kind).len() ==> present.contains(#[trigger] required_fields(kind)[j]),
    ensures
        !fields_conform(kind, present),
        fields_conform(kind, present.remove(i)),
{
    lemma_required_are_accepted(kind);
    let rest = present.remove(i);
    assert forall|k: int| 0 <= k < rest.len() implies accepted_fields(kind).contains(#[trigger] rest[k]) by {
        if k < i {
            assert(rest[k] == present[k]);
        } else {
            assert(rest[k] == present[k + 1]);
        }
    }
    assert forall|j: int| 0 <= j < required_fields(kind).len() implies rest.contains(
        #[trigger] required_fields(kind)[j],
    ) by {
        let f = required_fields(kind)[j];
        let m = choose|m: int| 0 <= m < present.len() && present[m] == f;
        assert(accepted_fields(kind).contains(f));
        assert(m != i);
        if m < i {
            assert(rest[m] == f);
        } else {
            assert(rest[m - 1] == f);
        }
    }
}

} // verus!
