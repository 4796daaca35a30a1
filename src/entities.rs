//! Entity declarations and event-expectation descriptors of a scenario.
use vstd::prelude::*;
use vstd::string::*;
use crate::schema::{RecordKind, SchemaViolation};

verus! {

/// Events of a client that a scenario stores under an entity id.
#[derive(Clone, Debug)]
pub struct StoreEventsAsEntity {
    pub id: String,
    pub events: Vec<String>,
}

/// The kind of a declared entity.
#[derive(Clone, Copy, Debug, PartialEq, Eq, Structural)]
pub enum EntityKind {
    Client,
    Database,
    Collection,
    Session,
    Bucket,
    Thread,
}

/// The entity kind that a declaration key names.
pub open spec fn entity_kind_named(name: Seq<char>) -> Option<EntityKind> {
    if name == "client"@ {
        Some(EntityKind::Client)
    } else if name == "database"@ {
        Some(EntityKind::Database)
    } else if name == "collection"@ {
        Some(EntityKind::Collection)
    } else if name == "session"@ {
        Some(EntityKind::Session)
    } else if name == "bucket"@ {
        Some(EntityKind::Bucket)
    } else if name == "thread"@ {
        Some(EntityKind::Thread)
    } else {
        None
    }
}

fn is_text(s: &String, t: &str) -> (r: bool)
    ensures
        r == (s@ == t@),
{
    *s == String::from_str(t)
}

impl EntityKind {
    /// The structural type that describes a declaration of this kind.
    pub fn record_kind(&self) -> (r: RecordKind)
        ensures
            r == match *self {
                EntityKind::Client => RecordKind::Client,
                EntityKind::Database => RecordKind::Database,
                EntityKind::Collection => RecordKind::Collection,
                EntityKind::Session => RecordKind::Session,
                EntityKind::Bucket => RecordKind::Bucket,
                EntityKind::Thread => RecordKind::Thread,
            },
    {
        match self {
            EntityKind::Client => RecordKind::Client,
            EntityKind::Database => RecordKind::Database,
            EntityKind::Collection => RecordKind::Collection,
            EntityKind::Session => RecordKind::Session,
            EntityKind::Bucket => RecordKind::Bucket,
            EntityKind::Thread => RecordKind::Thread,
        }
    }
}

/// Picks the kind of an entity declaration from its keys: the declaration
/// must hold exactly one key, and that key must name an entity kind.
pub fn entity_kind(keys: &Vec<String>) -> (r: Result<EntityKind, SchemaViolation>)
    ensures
        keys.len() != 1 <==> r matches Err(SchemaViolation::NotSingleKey),
        keys.len() == 1 ==> match entity_kind_named(keys@[0]@) {
            Some(k) => r == Ok::<EntityKind, SchemaViolation>(k),
            None => match r {
                Err(SchemaViolation::UnknownEntityKind(n)) => n@ == keys@[0]@,
                _ => false,
            },
        },
{
    if keys.len() != 1 {
        return Err(SchemaViolation::NotSingleKey);
    }
    let key = &keys[0];
    if is_text(key, "client") {
        Ok(EntityKind::Client)
    } else if is_text(key, "database") {
        Ok(EntityKind::Database)
    } else if is_text(key, "collection") {
        Ok(EntityKind::Collection)
    } else if is_text(key, "session") {
        Ok(EntityKind::Session)
    } else if is_text(key, "bucket") {
        Ok(EntityKind::Bucket)
    } else if is_text(key, "thread") {
        Ok(EntityKind::Thread)
    } else {
        Err(SchemaViolation::UnknownEntityKind(key.clone()))
    }
}

/// Which stream of events an expectation is about.
#[derive(Clone, Copy, Debug, PartialEq, Eq, Structural)]
pub enum ExpectedEventType {
    Command,
    Cmap,
    /// Pool events without the connection-ready event; chosen by the runner
    /// itself and never named in a document.
    CmapWithoutConnectionReady,
}

impl ExpectedEventType {
    /// The event type that a document names: `command` or `cmap`.
    pub fn from_name(name: &str) -> (r: Option<ExpectedEventType>)
        ensures
            r == (if name@ == "command"@ {
                Some(ExpectedEventType::Command)
            } else if name@ == "cmap"@ {
                Some(ExpectedEventType::Cmap)
            } else {
                None::<ExpectedEventType>
            }),
    {
        let n = String::from_str(name);
        if is_text(&n, "command") {
            Some(ExpectedEventType::Command)
        } else if is_text(&n, "cmap") {
            Some(ExpectedEventType::Cmap)
        } else {
            None
        }
    }
}

/// Whether observed events must equal the expected list or only begin with it.
#[derive(Clone, Copy, Debug, PartialEq, Eq, Structural)]
pub enum EventMatch {
    Exact,
    Prefix,
}

impl EventMatch {
    /// The matching mode that a document names: `exact` or `prefix`.
    pub fn from_name(name: &str) -> (r: Option<EventMatch>)
        ensures
            r == (if name@ == "exact"@ {
                Some(EventMatch::Exact)
            } else if name@ == "prefix"@ {
                Some(EventMatch::Prefix)
            } else {
                None::<EventMatch>
            }),
    {
        let n = String::from_str(name);
        if is_text(&n, "exact") {
            Some(EventMatch::Exact)
        } else if is_text(&n, "prefix") {
            Some(EventMatch::Prefix)
        } else {
            None
        }
    }
}

} // verus!
