//! The import orchestrator: routing a downloaded file by suffix, the SQL it
//! issues against the backing store, and the strict two-outcome event
//! protocol it reports through. The store itself is an external collaborator;
//! its engine outcome is an input here.
use vstd::prelude::*;

use crate::network::DownloadEvent;
use crate::text::{append_str, chars_to_string, contains_spec, ends_with_spec, str_contains, str_ends_with};

verus! {

/// The logical table a completed download is imported into.
pub open spec fn import_table_name_spec() -> Seq<char> {
    "imported_data"@
}

/// The logical table a completed download is imported into.
pub fn import_table_name() -> (r: &'static str)
    ensures
        r@ == import_table_name_spec(),
{
    "imported_data"
}

/// How a file is loaded into the store, decided by its path alone.
#[derive(Clone, Copy, Debug, PartialEq, Eq, Structural)]
pub enum ImportRoute {
    BinaryGeodata,
    GenericGeospatial,
    Unsupported,
}

/// Routing by filename suffix: an OSM-binary suffix goes to the binary
/// geodata loader, shapefile/zip/geojson suffixes to the generic geospatial
/// loader, anything else is unsupported.
pub open spec fn classify_spec(path: Seq<char>) -> ImportRoute {
    if ends_with_spec(path, ".osm.pbf"@) {
        ImportRoute::BinaryGeodata
    } else if contains_spec(path, ".shp"@) || ends_with_spec(path, ".zip"@) || ends_with_spec(
        path,
        ".geojson"@,
    ) {
        ImportRoute::GenericGeospatial
    } else {
        ImportRoute::Unsupported
    }
}

/// Classifies a path for import routing.
pub fn classify_path(path: &str) -> (r: ImportRoute)
    ensures
        r == classify_spec(path@),
{
    if str_ends_with(path, ".osm.pbf") {
        ImportRoute::BinaryGeodata
    } else if str_contains(path, ".shp") || str_ends_with(path, ".zip") || str_ends_with(
        path,
        ".geojson",
    ) {
        ImportRoute::GenericGeospatial
    } else {
        ImportRoute::Unsupported
    }
}

/// The statement that clears any pre-existing relation of the same name.
pub open spec fn drop_table_sql_spec(table: Seq<char>) -> Seq<char> {
    "DROP TABLE IF EXISTS "@ + table
}

pub fn drop_table_sql(table: &str) -> (r: String)
    ensures
        r@ == drop_table_sql_spec(table@),
{
    let mut out: Vec<char> = Vec::new();
    append_str(&mut out, "DROP TABLE IF EXISTS ");
    append_str(&mut out, table);
    chars_to_string(&out)
}

/// The load statement for a path, or nothing when its suffix is unsupported:
/// the binary-geodata reader for OSM binaries, the generic geospatial reader
/// otherwise.
pub open spec fn import_sql_spec(path: Seq<char>, table: Seq<char>) -> Option<Seq<char>> {
    match classify_spec(path) {
        ImportRoute::BinaryGeodata => Some(
            "CREATE TABLE "@ + table + " AS SELECT * FROM ST_ReadOSM('"@ + path + "')"@,
        ),
        ImportRoute::GenericGeospatial => Some(
            "CREATE TABLE "@ + table + " AS SELECT * FROM ST_Read('"@ + path + "')"@,
        ),
        ImportRoute::Unsupported => None,
    }
}

pub fn import_sql(path: &str, table: &str) -> (r: Option<String>)
    ensures
        (r matches Some(s) && Some(s@) == import_sql_spec(path@, table@)) || (r is None
            && import_sql_spec(path@, table@) is None),
{
    let route = classify_path(path);
    match route {
        ImportRoute::BinaryGeodata => {
            let mut out: Vec<char> = Vec::new();
            append_str(&mut out, "CREATE TABLE ");
            append_str(&mut out, table);
            append_str(&mut out, " AS SELECT * FROM ST_ReadOSM('");
            append_str(&mut out, path);
            append_str(&mut out, "')");
            proof {
                assert(out@ =~= import_sql_spec(path@, table@).unwrap());
            }
            Some(chars_to_string(&out))
        },
        ImportRoute::GenericGeospatial => {
            let mut out: Vec<char> = Vec::new();
            append_str(&mut out, "CREATE TABLE ");
            append_str(&mut out, table);
            append_str(&mut out, " AS SELECT * FROM ST_Read('");
            append_str(&mut out, path);
            append_str(&mut out, "')");
            proof {
                assert(out@ =~= import_sql_spec(path@, table@).unwrap());
            }
            Some(chars_to_string(&out))
        },
        ImportRoute::Unsupported => None,
    }
}

/// What the store's engine reported for the load statement, when one was
/// issued.
#[derive(Debug)]
pub enum EngineOutcome {
    Loaded,
    Failed(String),
}

/// The failure reported when the path's suffix supports no automatic import.
pub open spec fn unsupported_message_spec() -> Seq<char> {
    "Unsupported file type for auto-import"@
}

/// Whether an import of `path` succeeds given the engine outcome: the suffix
/// must be supported and the engine must have loaded the file.
pub open spec fn import_succeeds(path: Seq<char>, engine: EngineOutcome) -> bool {
    classify_spec(path) != ImportRoute::Unsupported && engine is Loaded
}

/// The message of the terminal failure event of an import that did not
/// succeed.
pub open spec fn import_failure_message_spec(path: Seq<char>, engine: EngineOutcome) -> Seq<
    char,
> {
    if classify_spec(path) == ImportRoute::Unsupported {
        unsupported_message_spec()
    } else {
        engine->Failed_0@
    }
}

/// The event protocol of one import attempt: a start event, then exactly one
/// terminal event — `ImportFinished` on success, `ImportFailed` otherwise.
pub open spec fn import_postcondition(
    path: Seq<char>,
    engine: EngineOutcome,
    events: Seq<DownloadEvent>,
) -> bool {
    &&& events.len() == 2
    &&& events[0] is ImportStarted
    &&& (import_succeeds(path, engine) ==> (events[1] matches DownloadEvent::ImportFinished(m)
        && m@ == "Import successful."@))
    &&& (!import_succeeds(path, engine) ==> (events[1] matches DownloadEvent::ImportFailed(m)
        && m@ == import_failure_message_spec(path, engine)))
}

/// Runs the event protocol of one import attempt over the engine's outcome.
/// Recording provenance is best-effort: `record_ok` does not influence the
/// events, as the contract (which does not mention it) shows. An unsupported
/// suffix fails without consulting the engine.
pub fn run_import(path: &str, record_ok: bool, engine: &EngineOutcome) -> (events: Vec<
    DownloadEvent,
>)
    ensures
        import_postcondition(path@, *engine, events@),
{
    let mut events: Vec<DownloadEvent> = Vec::new();
    events.push(DownloadEvent::ImportStarted);
    let route = classify_path(path);
    match route {
        ImportRoute::Unsupported => {
            let mut out: Vec<char> = Vec::new();
            append_str(&mut out, "Unsupported file type for auto-import");
            events.push(DownloadEvent::ImportFailed(chars_to_string(&out)));
        },
        _ => {
            match engine {
                EngineOutcome::Loaded => {
                    let mut out: Vec<char> = Vec::new();
                    append_str(&mut out, "Import successful.");
                    events.push(DownloadEvent::ImportFinished(chars_to_string(&out)));
                },
                EngineOutcome::Failed(msg) => {
                    events.push(DownloadEvent::ImportFailed(msg.clone()));
                },
            }
        },
    }
    events
}

/// Exactly one terminal event (`ImportFinished` xor `ImportFailed`) is
/// produced per import attempt — never zero, never two.
pub proof fn lemma_import_exactly_one_terminal(
    path: Seq<char>,
    engine: EngineOutcome,
    events: Seq<DownloadEvent>,
)
    requires
        import_postcondition(path, engine, events),
    ensures
        events.len() == 2,
        !(events[0] is ImportFinished) && !(events[0] is ImportFailed),
        (events[1] is ImportFinished) != (events[1] is ImportFailed),
{
}

} // verus!
