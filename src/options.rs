//! Read concern, read preference and write concern settings of a database or
//! collection entity.
use vstd::prelude::*;
use vstd::string::*;
use crate::expect_error::texts;
use crate::uri::option_keys;
use crate::schema::{check_fields, fields_conform, RecordKind, SchemaViolation};

verus! {

/// The isolation level of a read concern.
#[derive(Clone, Debug, PartialEq, Eq)]
pub enum ReadConcernLevel {
    Local,
    Majority,
    Linearizable,
    Available,
    Snapshot,
    Custom(String),
}

/// The level that a level name denotes, when it is one of the named levels.
pub open spec fn named_level(name: Seq<char>) -> Option<ReadConcernLevel> {
    if name == "local"@ {
        Some(ReadConcernLevel::Local)
    } else if name == "majority"@ {
        Some(ReadConcernLevel::Majority)
    } else if name == "linearizable"@ {
        Some(ReadConcernLevel::Linearizable)
    } else if name == "available"@ {
        Some(ReadConcernLevel::Available)
    } else if name == "snapshot"@ {
        Some(ReadConcernLevel::Snapshot)
    } else {
        None
    }
}

/// Whether `l` is the level that `name` denotes: a named level, or a custom
/// one that keeps the name.
pub open spec fn denotes(name: Seq<char>, l: ReadConcernLevel) -> bool {
    match named_level(name) {
        Some(k) => l == k,
        None => match l {
            ReadConcernLevel::Custom(s) => s@ == name,
            _ => false,
        },
    }
}

fn same_text(a: &str, b: &str) -> (r: bool)
    ensures
        r == (a@ == b@),
{
    String::from_str(a) == String::from_str(b)
}

impl ReadConcernLevel {
    /// The level that `name` denotes: a named level, or a custom one that
    /// keeps the name.
    pub fn from_level_name(name: &str) -> (r: ReadConcernLevel)
        ensures
            denotes(name@, r),
    {
        if same_text(name, "local") {
            ReadConcernLevel::Local
        } else if same_text(name, "majority") {
            ReadConcernLevel::Majority
        } else if same_text(name, "linearizable") {
            ReadConcernLevel::Linearizable
        } else if same_text(name, "available") {
            ReadConcernLevel::Available
        } else if same_text(name, "snapshot") {
            ReadConcernLevel::Snapshot
        } else {
            ReadConcernLevel::Custom(String::from_str(name))
        }
    }

    /// A copy of this level.
    pub fn duplicate(&self) -> (r: ReadConcernLevel)
        ensures
            r == *self,
    {
        match self {
            ReadConcernLevel::Local => ReadConcernLevel::Local,
            ReadConcernLevel::Majority => ReadConcernLevel::Majority,
            ReadConcernLevel::Linearizable => ReadConcernLevel::Linearizable,
            ReadConcernLevel::Available => ReadConcernLevel::Available,
            ReadConcernLevel::Snapshot => ReadConcernLevel::Snapshot,
            ReadConcernLevel::Custom(s) => ReadConcernLevel::Custom(s.clone()),
        }
    }
}

/// A read concern.
#[derive(Clone, Debug, PartialEq, Eq)]
pub struct ReadConcern {
    pub level: ReadConcernLevel,
}

impl ReadConcern {
    /// Reads a read concern from a document given as field names and text
    /// values; the document must hold exactly the field `level`.
    pub fn from_document(doc: &Vec<(String, String)>) -> (r: Result<ReadConcern, SchemaViolation>)
        ensures
            r is Ok <==> fields_conform(
                RecordKind::ReadConcern,
                option_keys(doc@),
            ),
            r matches Ok(c) ==> exists|i: int|
                0 <= i < doc@.len() && doc@[i].0@ == "level"@ && denotes(#[trigger] doc@[i].1@, c.level),
    {
        let mut names: Vec<String> = Vec::new();
        let mut i: usize = 0;
        while i < doc.len()
            invariant
                i <= doc.len(),
                names@.len() == i,
                forall|k: int| 0 <= k < i ==> names@[k]@ == doc@[k].0@,
            decreases doc.len() - i,
        {
            names.push(doc[i].0.clone());
            i = i + 1;
        }
        assert(texts(names@) =~= option_keys(doc@));
        match check_fields(RecordKind::ReadConcern, &names) {
            Ok(()) => {},
            Err(v) => return Err(v),
        }
        proof {
            reveal_strlit("level");
            assert(texts(names@).contains("level"@)) by {
                assert(crate::schema::required_fields(RecordKind::ReadConcern)[0] == "level"@);
            }
        }
        let ghost w = choose|w: int| 0 <= w < texts(names@).len() && texts(names@)[w] == "level"@;
        let mut j: usize = 0;
        while j < doc.len()
            invariant
                j <= doc.len(),
                0 <= w < doc@.len(),
                fields_conform(RecordKind::ReadConcern, option_keys(doc@)),
                doc@[w].0@ == "level"@,
                forall|k: int| 0 <= k < j ==> doc@[k].0@ != "level"@,
            decreases doc.len() - j,
        {
            if same_text(doc[j].0.as_str(), "level") {
                let level = ReadConcernLevel::from_level_name(doc[j].1.as_str());
                return Ok(ReadConcern { level });
            }
            j = j + 1;
        }
        assert(false);
        Err(SchemaViolation::MissingField(String::from_str("level")))
    }

    /// A copy of this read concern.
    pub fn duplicate(&self) -> (r: ReadConcern)
        ensures
            r == *self,
    {
        ReadConcern { level: self.level.duplicate() }
    }
}

/// Hedged-read settings of a read preference.
#[derive(Clone, Copy, Debug, PartialEq, Eq, Structural)]
pub struct HedgedReadOptions {
    pub enabled: bool,
}

impl HedgedReadOptions {
    pub fn with_enabled(enabled: bool) -> (r: HedgedReadOptions)
        ensures
            r.enabled == enabled,
    {
        HedgedReadOptions { enabled }
    }
}

/// Options of a read preference mode other than primary.
#[derive(Clone, Copy, Debug, PartialEq, Eq, Structural)]
pub struct ReadPreferenceOptions {
    /// The maximum replication lag of an eligible secondary, in seconds.
    pub max_staleness_secs: Option<u64>,
    pub hedge: Option<HedgedReadOptions>,
}

/// Which members a read may be sent to.
#[derive(Clone, Copy, Debug, PartialEq, Eq, Structural)]
pub enum ReadPreference {
    Primary,
    Secondary { options: ReadPreferenceOptions },
    PrimaryPreferred { options: ReadPreferenceOptions },
    SecondaryPreferred { options: ReadPreferenceOptions },
    Nearest { options: ReadPreferenceOptions },
}

/// How the server that serves a read is selected.
#[derive(Clone, Copy, Debug, PartialEq, Eq, Structural)]
pub enum SelectionCriteria {
    ReadPreference(ReadPreference),
}

/// The read preference that a mode name and its options denote; nothing for
/// an unknown mode or for options given with the primary mode.
pub open spec fn read_preference_of(mode: Seq<char>, options: ReadPreferenceOptions) -> Option<ReadPreference> {
    if mode == "Primary"@ {
        if options.max_staleness_secs is None && options.hedge is None {
            Some(ReadPreference::Primary)
        } else {
            None
        }
    } else if mode == "Secondary"@ {
        Some(ReadPreference::Secondary { options })
    } else if mode == "PrimaryPreferred"@ {
        Some(ReadPreference::PrimaryPreferred { options })
    } else if mode == "SecondaryPreferred"@ {
        Some(ReadPreference::SecondaryPreferred { options })
    } else if mode == "Nearest"@ {
        Some(ReadPreference::Nearest { options })
    } else {
        None
    }
}

impl SelectionCriteria {
    /// Builds a read preference from a mode name (`Primary`, `Secondary`,
    /// `PrimaryPreferred`, `SecondaryPreferred` or `Nearest`), an optional
    /// maximum staleness in seconds and an optional hedge flag.
    pub fn from_parts(mode: &str, max_staleness_secs: Option<u64>, hedge_enabled: Option<bool>) -> (r:
        Result<SelectionCriteria, SchemaViolation>)
        ensures
            ({
                let options = ReadPreferenceOptions {
                    max_staleness_secs,
                    hedge: match hedge_enabled {
                        Some(b) => Some(HedgedReadOptions { enabled: b }),
                        None => None,
                    },
                };
                match read_preference_of(mode@, options) {
                    Some(p) => r == Ok::<SelectionCriteria, SchemaViolation>(
                        SelectionCriteria::ReadPreference(p),
                    ),
                    None => r is Err,
                }
            }),
    {
        let hedge = match hedge_enabled {
            Some(b) => Some(HedgedReadOptions::with_enabled(b)),
            None => None,
        };
        let options = ReadPreferenceOptions { max_staleness_secs, hedge };
        let pref = if same_text(mode, "Primary") {
            if max_staleness_secs.is_some() || hedge_enabled.is_some() {
                return Err(SchemaViolation::OptionsNotAllowed);
            }
            ReadPreference::Primary
        } else if same_text(mode, "Secondary") {
            ReadPreference::Secondary { options }
        } else if same_text(mode, "PrimaryPreferred") {
            ReadPreference::PrimaryPreferred { options }
        } else if same_text(mode, "SecondaryPreferred") {
            ReadPreference::SecondaryPreferred { options }
        } else if same_text(mode, "Nearest") {
            ReadPreference::Nearest { options }
        } else {
            return Err(SchemaViolation::UnknownValue(String::from_str(mode)));
        };
        Ok(SelectionCriteria::ReadPreference(pref))
    }
}

/// The acknowledgment that a write concern asks for.
#[derive(Clone, Debug, PartialEq, Eq)]
pub enum Acknowledgment {
    Nodes(u32),
    Majority,
    Custom(String),
}

impl Acknowledgment {
    /// A copy of this acknowledgment.
    pub fn duplicate(&self) -> (r: Acknowledgment)
        ensures
            r == *self,
    {
        match self {
            Acknowledgment::Nodes(n) => Acknowledgment::Nodes(*n),
            Acknowledgment::Majority => Acknowledgment::Majority,
            Acknowledgment::Custom(s) => Acknowledgment::Custom(s.clone()),
        }
    }
}

/// A write concern.
#[derive(Clone, Debug, PartialEq, Eq)]
pub struct WriteConcern {
    pub w: Option<Acknowledgment>,
    pub w_timeout_ms: Option<u64>,
    pub journal: Option<bool>,
}

impl WriteConcern {
    /// A copy of this write concern.
    pub fn duplicate(&self) -> (r: WriteConcern)
        ensures
            r == *self,
    {
        let w = match &self.w {
            Some(a) => Some(a.duplicate()),
            None => None,
        };
        WriteConcern { w, w_timeout_ms: self.w_timeout_ms, journal: self.journal }
    }
}

/// Settings of a database handle.
#[derive(Clone, Debug, PartialEq, Eq)]
pub struct DatabaseOptions {
    pub read_concern: Option<ReadConcern>,
    pub selection_criteria: Option<SelectionCriteria>,
    pub write_concern: Option<WriteConcern>,
}

/// Settings of a collection handle.
#[derive(Clone, Debug, PartialEq, Eq)]
pub struct CollectionOptions {
    pub read_concern: Option<ReadConcern>,
    pub selection_criteria: Option<SelectionCriteria>,
    pub write_concern: Option<WriteConcern>,
}

/// The options that a scenario declares for a database or collection entity.
#[derive(Clone, Debug, PartialEq, Eq)]
pub struct CollectionOrDatabaseOptions {
    pub read_concern: Option<ReadConcern>,
    pub selection_criteria: Option<SelectionCriteria>,
    pub write_concern: Option<WriteConcern>,
}

impl CollectionOrDatabaseOptions {
    fn copy_read_concern(&self) -> (r: Option<ReadConcern>)
        ensures
            r == self.read_concern,
    {
        match &self.read_concern {
            Some(c) => Some(c.duplicate()),
            None => None,
        }
    }

    fn copy_write_concern(&self) -> (r: Option<WriteConcern>)
        ensures
            r == self.write_concern,
    {
        match &self.write_concern {
            Some(c) => Some(c.duplicate()),
            None => None,
        }
    }

    /// The same settings as options of a database handle.
    pub fn as_database_options(&self) -> (r: DatabaseOptions)
        ensures
            r.read_concern == self.read_concern,
            r.selection_criteria == self.selection_criteria,
            r.write_concern == self.write_concern,
    {
        DatabaseOptions {
            read_concern: self.copy_read_concern(),
            selection_criteria: self.selection_criteria,
            write_concern: self.copy_write_concern(),
        }
    }

    /// The same settings as options of a collection handle.
    pub fn as_collection_options(&self) -> (r: CollectionOptions)
        ensures
            r.read_concern == self.read_concern,
            r.selection_criteria == self.selection_criteria,
            r.write_concern == self.write_concern,
    {
        CollectionOptions {
            read_concern: self.copy_read_concern(),
            selection_criteria: self.selection_criteria,
            write_concern: self.copy_write_concern(),
        }
    }
}

} // verus!
