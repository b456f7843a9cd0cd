//! Translation of wire actions into the store's actions.
//!
//! String maps are carried as sequences of key/value pairs.
use vstd::prelude::*;

verus! {

/// Wire value of the data-change flag that means "the action changes data".
pub const DATA_CHANGE_TRUE: i32 = 1;

/// Wire codes of the commit operations.
pub const OPERATION_WRITE: i32 = 1;
pub const OPERATION_MERGE: i32 = 2;
pub const OPERATION_UPDATE: i32 = 3;
pub const OPERATION_DELETE: i32 = 4;
pub const OPERATION_OPTIMIZE: i32 = 5;
pub const OPERATION_VACUUM: i32 = 6;
pub const OPERATION_RESTORE: i32 = 7;
pub const OPERATION_CONVERT: i32 = 8;

/// Adds a data file (wire form).
pub struct WireAdd {
    pub path: String,
    pub size: i64,
    pub modification_time: i64,
    pub partition_values: Vec<(String, String)>,
    pub data_change: i32,
    pub tags: Vec<(String, String)>,
}

/// Removes a data file (wire form).
pub struct WireRemove {
    pub path: String,
    pub deletion_timestamp: Option<i64>,
    pub data_change: i32,
}

/// Sets the protocol versions (wire form).
pub struct WireProtocol {
    pub min_reader_version: i32,
    pub min_writer_version: i32,
}

/// Sets the table metadata (wire form); empty strings and zero stand for
/// absent values.
pub struct WireTableMetadata {
    pub id: String,
    pub name: String,
    pub description: String,
    pub schema_string: String,
    pub partition_columns: Vec<String>,
    pub configuration: Vec<(String, String)>,
    pub created_time: i64,
}

/// Describes the commit (wire form); empty strings, empty maps and zero stand
/// for absent values.
pub struct WireCommitInfo {
    pub operation: i32,
    pub operation_parameters: Vec<(String, String)>,
    pub user_metadata: Vec<(String, String)>,
    pub engine_name: String,
    pub engine_version: String,
    pub timestamp: i64,
}

pub enum WireActionKind {
    Add(WireAdd),
    Remove(WireRemove),
    Protocol(WireProtocol),
    MetaData(WireTableMetadata),
    CommitInfo(WireCommitInfo),
}

/// One wire action; `action` is absent when the sender set no kind.
pub struct WireAction {
    pub action: Option<WireActionKind>,
}

pub struct Add {
    pub path: String,
    pub size: i64,
    pub modification_time: i64,
    pub partition_values: Vec<(String, Option<String>)>,
    pub data_change: bool,
    pub tags: Option<Vec<(String, Option<String>)>>,
}

pub struct Remove {
    pub path: String,
    pub deletion_timestamp: Option<i64>,
    pub data_change: bool,
}

pub struct Protocol {
    pub min_reader_version: i32,
    pub min_writer_version: i32,
}

pub struct Metadata {
    pub id: String,
    pub name: Option<String>,
    pub description: Option<String>,
    pub schema_string: String,
    pub partition_columns: Vec<String>,
    pub configuration: Vec<(String, String)>,
    pub created_time: Option<i64>,
}

pub struct CommitInfo {
    pub timestamp: Option<i64>,
    pub operation: Option<String>,
    pub operation_parameters: Option<Vec<(String, String)>>,
    pub engine_info: Option<String>,
    pub user_metadata: Option<String>,
}

/// An action in the store's terms.
pub enum Action {
    Add(Add),
    Remove(Remove),
    Protocol(Protocol),
    Metadata(Metadata),
    CommitInfo(CommitInfo),
}

/// The JSON text of an object with the given string entries.
pub uninterp spec fn json_object_text(entries: Seq<(Seq<char>, Seq<char>)>) -> Seq<char>;

pub open spec fn pairs_view(s: Seq<(String, String)>) -> Seq<(Seq<char>, Seq<char>)> {
    s.map_values(|e: (String, String)| (e.0@, e.1@))
}

/// Relies on serde_json::to_string on a JSON object of string values. It fails
/// only when a value's serialisation fails or a map key is not a string,
/// neither of which a string-keyed object of strings can meet; with
/// serde_json's default ordered map the text depends on the entries alone.
#[verifier::external_body]
fn json_object_text_of(entries: &Vec<(String, String)>) -> (r: String)
    ensures
        r@ == json_object_text(pairs_view(entries@)),
{
    let obj: serde_json::Map<String, serde_json::Value> = entries
        .iter()
        .map(|(k, v)| (k.clone(), serde_json::Value::String(v.clone())))
        .collect();
    serde_json::to_string(&obj).unwrap_or_default()
}

pub open spec fn lifted(s: Seq<(String, String)>) -> Seq<(String, Option<String>)> {
    s.map_values(|e: (String, String)| (e.0, Some(e.1)))
}

pub open spec fn data_change_of(dc: i32) -> bool {
    dc == DATA_CHANGE_TRUE
}

pub open spec fn opt_view(o: Option<String>) -> Option<Seq<char>> {
    match o {
        Some(s) => Some(s@),
        None => None,
    }
}

/// The store's name of a wire commit operation; none for an unknown code.
pub open spec fn operation_name(op: i32) -> Option<Seq<char>> {
    if op == OPERATION_WRITE {
        Some("WRITE"@)
    } else if op == OPERATION_MERGE {
        Some("MERGE"@)
    } else if op == OPERATION_UPDATE {
        Some("UPDATE"@)
    } else if op == OPERATION_DELETE {
        Some("DELETE"@)
    } else if op == OPERATION_OPTIMIZE {
        Some("OPTIMIZE"@)
    } else if op == OPERATION_VACUUM {
        Some("VACUUM"@)
    } else if op == OPERATION_RESTORE {
        Some("RESTORE"@)
    } else if op == OPERATION_CONVERT {
        Some("CONVERT"@)
    } else {
        None
    }
}

/// Engine information from a name and a version, either of which may be empty.
pub open spec fn engine_info_of(name: Seq<char>, version: Seq<char>) -> Option<Seq<char>> {
    if name.len() == 0 && version.len() == 0 {
        None
    } else if version.len() == 0 {
        Some(name)
    } else if name.len() == 0 {
        Some(version)
    } else {
        Some(name + "/"@ + version)
    }
}

pub open spec fn nonzero(v: i64) -> Option<i64> {
    if v == 0 {
        None
    } else {
        Some(v)
    }
}

pub open spec fn nonempty(s: String) -> Option<String> {
    if s@.len() == 0 {
        None
    } else {
        Some(s)
    }
}

pub open spec fn add_translates(w: WireAdd, a: Add) -> bool {
    &&& a.path == w.path
    &&& a.size == w.size
    &&& a.modification_time == w.modification_time
    &&& a.partition_values@ == lifted(w.partition_values@)
    &&& a.data_change == data_change_of(w.data_change)
    &&& (if w.tags@.len() == 0 {
        a.tags is None
    } else {
        a.tags matches Some(t) && t@ == lifted(w.tags@)
    })
}

pub open spec fn remove_translates(w: WireRemove, a: Remove) -> bool {
    &&& a.path == w.path
    &&& a.deletion_timestamp == w.deletion_timestamp
    &&& a.data_change == data_change_of(w.data_change)
}

pub open spec fn metadata_translates(w: WireTableMetadata, a: Metadata) -> bool {
    &&& a.id == w.id
    &&& a.name == nonempty(w.name)
    &&& a.description == nonempty(w.description)
    &&& a.schema_string == w.schema_string
    &&& a.partition_columns == w.partition_columns
    &&& a.configuration == w.configuration
    &&& a.created_time == nonzero(w.created_time)
}

pub open spec fn commit_info_translates(w: WireCommitInfo, a: CommitInfo) -> bool {
    &&& a.timestamp == nonzero(w.timestamp)
    &&& opt_view(a.operation) == operation_name(w.operation)
    &&& (if w.operation_parameters@.len() == 0 {
        a.operation_parameters is None
    } else {
        a.operation_parameters == Some(w.operation_parameters)
    })
    &&& opt_view(a.engine_info) == engine_info_of(w.engine_name@, w.engine_version@)
    &&& (if w.user_metadata@.len() == 0 {
        a.user_metadata is None
    } else {
        a.user_metadata matches Some(t) && t@ == json_object_text(pairs_view(w.user_metadata@))
    })
}

/// Why a wire action is refused: the field that it lacks.
#[derive(Clone, Copy, Debug, PartialEq, Eq, Structural)]
pub enum ActionFault {
    /// The action carries no kind.
    MissingAction,
    /// An added file names no path.
    MissingAddPath,
    /// A removed file names no path.
    MissingRemovePath,
}

/// A refused batch: the position of the first refused action, and why.
#[derive(Clone, Copy, Debug, PartialEq, Eq, Structural)]
pub struct ActionError {
    pub index: usize,
    pub fault: ActionFault,
}

/// Why a wire action is refused, if it is: it must have a kind, and an added
/// or removed file must name its path.
pub open spec fn action_fault(w: WireAction) -> Option<ActionFault> {
    match w.action {
        None => Some(ActionFault::MissingAction),
        Some(WireActionKind::Add(a)) => if a.path@.len() == 0 {
            Some(ActionFault::MissingAddPath)
        } else {
            None
        },
        Some(WireActionKind::Remove(r)) => if r.path@.len() == 0 {
            Some(ActionFault::MissingRemovePath)
        } else {
            None
        },
        Some(_) => None,
    }
}

pub open spec fn action_valid(w: WireAction) -> bool {
    action_fault(w) is None
}

pub open spec fn action_translates(w: WireAction, a: Action) -> bool {
    match w.action {
        Some(WireActionKind::Add(x)) => a matches Action::Add(y) && add_translates(x, y),
        Some(WireActionKind::Remove(x)) => a matches Action::Remove(y) && remove_translates(x, y),
        Some(WireActionKind::Protocol(x)) => a matches Action::Protocol(y)
            && y.min_reader_version == x.min_reader_version
            && y.min_writer_version == x.min_writer_version,
        Some(WireActionKind::MetaData(x)) => a matches Action::Metadata(y) && metadata_translates(x, y),
        Some(WireActionKind::CommitInfo(x)) => a matches Action::CommitInfo(y)
            && commit_info_translates(x, y),
        None => false,
    }
}

pub fn map_data_change(dc: i32) -> (r: bool)
    ensures
        r == data_change_of(dc),
{
    dc == DATA_CHANGE_TRUE
}

pub fn map_string_map(input: Vec<(String, String)>) -> (r: Vec<(String, Option<String>)>)
    ensures
        r@ == lifted(input@),
{
    let mut r: Vec<(String, Option<String>)> = Vec::new();
    let mut i: usize = 0;
    while i < input.len()
        invariant
            0 <= i <= input@.len(),
            r@ == lifted(input@.take(i as int)),
        decreases input@.len() - i,
    {
        let k = input[i].0.clone();
        let v = input[i].1.clone();
        r.push((k, Some(v)));
        proof {
            assert(input@.take(i as int + 1) == input@.take(i as int).push(input@[i as int]));
        }
        i = i + 1;
    }
    proof {
        assert(input@.take(input@.len() as int) == input@);
    }
    r
}

pub fn map_optional_string_map(input: Vec<(String, String)>) -> (r: Option<Vec<(String, Option<String>)>>)
    ensures
        input@.len() == 0 ==> r is None,
        input@.len() > 0 ==> (r matches Some(v) && v@ == lifted(input@)),
{
    if input.len() == 0 {
        None
    } else {
        Some(map_string_map(input))
    }
}

pub fn map_protocol(protocol: WireProtocol) -> (r: Protocol)
    ensures
        r.min_reader_version == protocol.min_reader_version,
        r.min_writer_version == protocol.min_writer_version,
{
    Protocol {
        min_reader_version: protocol.min_reader_version,
        min_writer_version: protocol.min_writer_version,
    }
}

fn present(s: String) -> (r: Option<String>)
    ensures
        r == nonempty(s),
{
    if s.as_str().is_empty() {
        None
    } else {
        Some(s)
    }
}

pub fn map_metadata(metadata: WireTableMetadata) -> (r: Metadata)
    ensures
        metadata_translates(metadata, r),
{
    let created_time = if metadata.created_time == 0 {
        None
    } else {
        Some(metadata.created_time)
    };
    Metadata {
        id: metadata.id,
        name: present(metadata.name),
        description: present(metadata.description),
        schema_string: metadata.schema_string,
        partition_columns: metadata.partition_columns,
        configuration: metadata.configuration,
        created_time,
    }
}

pub fn map_engine_info(name: String, version: String) -> (r: Option<String>)
    ensures
        opt_view(r) == engine_info_of(name@, version@),
{
    if name.as_str().is_empty() && version.as_str().is_empty() {
        None
    } else if version.as_str().is_empty() {
        Some(name)
    } else if name.as_str().is_empty() {
        Some(version)
    } else {
        Some(name.concat("/").concat(version.as_str()))
    }
}

pub fn map_commit_operation(operation: i32) -> (r: Option<String>)
    ensures
        opt_view(r) == operation_name(operation),
{
    if operation == OPERATION_WRITE {
        Some("WRITE".to_string())
    } else if operation == OPERATION_MERGE {
        Some("MERGE".to_string())
    } else if operation == OPERATION_UPDATE {
        Some("UPDATE".to_string())
    } else if operation == OPERATION_DELETE {
        Some("DELETE".to_string())
    } else if operation == OPERATION_OPTIMIZE {
        Some("OPTIMIZE".to_string())
    } else if operation == OPERATION_VACUUM {
        Some("VACUUM".to_string())
    } else if operation == OPERATION_RESTORE {
        Some("RESTORE".to_string())
    } else if operation == OPERATION_CONVERT {
        Some("CONVERT".to_string())
    } else {
        None
    }
}

/// User metadata as the JSON text of an object; none for an empty map.
pub fn map_user_metadata(input: Vec<(String, String)>) -> (r: Option<String>)
    ensures
        input@.len() == 0 ==> r is None,
        input@.len() > 0 ==> (r matches Some(t) && t@ == json_object_text(pairs_view(input@))),
{
    if input.len() == 0 {
        None
    } else {
        Some(json_object_text_of(&input))
    }
}

pub fn map_commit_info(commit_info: WireCommitInfo) -> (r: CommitInfo)
    ensures
        commit_info_translates(commit_info, r),
{
    let operation = map_commit_operation(commit_info.operation);
    let operation_parameters = if commit_info.operation_parameters.len() == 0 {
        None
    } else {
        Some(commit_info.operation_parameters)
    };
    let user_metadata = map_user_metadata(commit_info.user_metadata);
    let engine_info = map_engine_info(commit_info.engine_name, commit_info.engine_version);
    let timestamp = if commit_info.timestamp == 0 {
        None
    } else {
        Some(commit_info.timestamp)
    };
    CommitInfo { timestamp, operation, operation_parameters, engine_info, user_metadata }
}

/// Translates one wire action; an action without a kind, or an added or
/// removed file without a path, is refused with the field it lacks.
pub fn map_action(action: WireAction) -> (r: Result<Action, ActionFault>)
    ensures
        match action_fault(action) {
            Some(f) => r == Err::<Action, ActionFault>(f),
            None => r matches Ok(a) && action_translates(action, a),
        },
{
    match action.action {
        None => Err(ActionFault::MissingAction),
        Some(WireActionKind::Add(a)) => {
            if a.path.as_str().is_empty() {
                return Err(ActionFault::MissingAddPath);
            }
            let partition_values = map_string_map(a.partition_values);
            let tags = map_optional_string_map(a.tags);
            Ok(
                Action::Add(
                    Add {
                        path: a.path,
                        size: a.size,
                        modification_time: a.modification_time,
                        partition_values,
                        data_change: map_data_change(a.data_change),
                        tags,
                    },
                ),
            )
        },
        Some(WireActionKind::Remove(r)) => {
            if r.path.as_str().is_empty() {
                return Err(ActionFault::MissingRemovePath);
            }
            Ok(
                Action::Remove(
                    Remove {
                        path: r.path,
                        deletion_timestamp: r.deletion_timestamp,
                        data_change: map_data_change(r.data_change),
                    },
                ),
            )
        },
        Some(WireActionKind::Protocol(p)) => Ok(Action::Protocol(map_protocol(p))),
        Some(WireActionKind::MetaData(m)) => Ok(Action::Metadata(map_metadata(m))),
        Some(WireActionKind::CommitInfo(ci)) => Ok(Action::CommitInfo(map_commit_info(ci))),
    }
}

/// Whether every action of a batch is well formed.
pub open spec fn batch_valid(ws: Seq<WireAction>) -> bool {
    forall|i: int| 0 <= i < ws.len() ==> action_valid(#[trigger] ws[i])
}

pub open spec fn batch_translates(ws: Seq<WireAction>, acts: Seq<Action>) -> bool {
    &&& acts.len() == ws.len()
    &&& forall|i: int| 0 <= i < ws.len() ==> action_translates(#[trigger] ws[i], acts[i])
}

/// `e` reports the first refused action of the batch.
pub open spec fn first_fault(ws: Seq<WireAction>, e: ActionError) -> bool {
    &&& e.index < ws.len()
    &&& action_fault(ws[e.index as int]) == Some(e.fault)
    &&& forall|j: int| 0 <= j < e.index ==> action_valid(#[trigger] ws[j])
}

/// Translates a batch in order, stopping at the first action that is refused.
pub fn map_actions(pb_actions: Vec<WireAction>) -> (r: Result<Vec<Action>, ActionError>)
    ensures
        batch_valid(pb_actions@) ==> (r matches Ok(v) && batch_translates(pb_actions@, v@)),
        !batch_valid(pb_actions@) ==> (r matches Err(e) && first_fault(pb_actions@, e)),
{
    let ghost ws = pb_actions@;
    let mut rest = pb_actions;
    let mut out: Vec<Action> = Vec::new();
    let ghost mut i: int = 0;
    while rest.len() > 0
        invariant
            0 <= i,
            i + rest@.len() == ws.len(),
            ws == pb_actions@,
            rest@ == ws.subrange(i, ws.len() as int),
            out@.len() == i,
            forall|j: int| 0 <= j < i ==> action_translates(#[trigger] ws[j], out@[j]),
            forall|j: int| 0 <= j < i ==> action_valid(#[trigger] ws[j]),
        decreases rest@.len(),
    {
        assert(rest@[0] == ws[i]);
        let a = rest.remove(0);
        assert(rest@ == ws.subrange(i + 1, ws.len() as int));
        match map_action(a) {
            Ok(x) => {
                out.push(x);
            },
            Err(fault) => {
                return Err(ActionError { index: out.len(), fault });
            },
        }
        proof {
            i = i + 1;
        }
    }
    proof {
        assert forall|j: int| 0 <= j < ws.len() implies action_valid(#[trigger] ws[j]) by {}
    }
    Ok(out)
}

} // verus!
