//! The window manager's JSON messages, read into the events that the bar
//! applies to its state.
use vstd::prelude::*;

use crate::ids::WorkspaceIds;
use crate::json::{
    array_of, bool_of, deref_opt, get_bool, get_member, get_str, member, parse_json, serde_json_parse,
    str_of, JsonValue,
};
use crate::text::{decimal_text, lemma_parse_decimal, parse_u8, parse_u8_spec, str_eq, trim, trimmed};

verus! {

/// An event for the bar.
#[derive(Debug, Clone, PartialEq, Eq)]
pub enum IPCEvent {
    /// A workspace changed: `active` and `focused` are the flags that the
    /// message gives, where it gives them.
    WorkspaceUpdate { id: u8, active: Option<bool>, focused: Option<bool> },
    /// The title of the focused window.
    FocusedTitle(String),
    /// Whether the window manager is paused.
    Pause(bool),
    /// Whether new windows tile horizontally.
    TilingDirection(bool),
}

/// An event with its text as characters.
pub enum EventModel {
    WorkspaceUpdate { id: u8, active: Option<bool>, focused: Option<bool> },
    FocusedTitle(Seq<char>),
    Pause(bool),
    TilingDirection(bool),
}

impl View for IPCEvent {
    type V = EventModel;

    open spec fn view(&self) -> EventModel {
        match self {
            IPCEvent::WorkspaceUpdate { id, active, focused } => EventModel::WorkspaceUpdate {
                id: *id,
                active: *active,
                focused: *focused,
            },
            IPCEvent::FocusedTitle(t) => EventModel::FocusedTitle(t@),
            IPCEvent::Pause(p) => EventModel::Pause(*p),
            IPCEvent::TilingDirection(h) => EventModel::TilingDirection(*h),
        }
    }
}

/// The events of a list, as models.
pub open spec fn events_view(events: Seq<IPCEvent>) -> Seq<EventModel> {
    events.map_values(|e: IPCEvent| e@)
}

/// The number that a JSON string names, where it is a decimal `u8`.
pub open spec fn u8_of(v: Option<JsonValue>) -> Option<u8> {
    match str_of(v) {
        Some(s) => parse_u8_spec(s),
        None => None,
    }
}

/// Workspace `id` is now the active and focused one.
pub open spec fn focus_event(id: u8) -> EventModel {
    EventModel::WorkspaceUpdate { id, active: Some(true), focused: Some(true) }
}

/// `ids` with the workspace identifier given by `wid`, where there is one,
/// mapped to `id`.
pub open spec fn record_id(ids: Map<Seq<char>, u8>, wid: Option<Seq<char>>, id: u8) -> Map<Seq<char>, u8> {
    match wid {
        Some(w) => ids.insert(w, id),
        None => ids,
    }
}

/// The focus event for the workspace that holds the window whose parent is
/// `parent`, where that workspace is known.
pub open spec fn parent_focus(ids: Map<Seq<char>, u8>, parent: Option<Seq<char>>) -> Seq<EventModel> {
    match parent {
        Some(p) => if ids.contains_key(p) {
            seq![focus_event(ids[p])]
        } else {
            Seq::empty()
        },
        None => Seq::empty(),
    }
}

/// What a `focus_changed` message yields.
pub open spec fn on_focus_changed(data: Option<JsonValue>, ids: Map<Seq<char>, u8>) -> (Seq<EventModel>, Map<Seq<char>, u8>) {
    let focused = member(data, "focusedContainer"@);
    let kind = match str_of(member(focused, "type"@)) {
        Some(s) => s,
        None => ""@,
    };
    if kind == "workspace"@ {
        match u8_of(member(focused, "name"@)) {
            Some(id) => (seq![focus_event(id)], record_id(ids, str_of(member(focused, "id"@)), id)),
            None => (Seq::empty(), ids),
        }
    } else if kind == "window"@ {
        let title = match str_of(member(focused, "title"@)) {
            Some(s) => s,
            None => ""@,
        };
        (
            seq![EventModel::FocusedTitle(title)] + parent_focus(ids, str_of(member(focused, "parentId"@))),
            ids,
        )
    } else {
        (Seq::empty(), ids)
    }
}

/// What a `focused_container_moved` message yields.
pub open spec fn on_container_moved(data: Option<JsonValue>, ids: Map<Seq<char>, u8>) -> Seq<EventModel> {
    let focused = member(data, "focusedContainer"@);
    if str_of(member(focused, "type"@)) == Some("window"@) {
        parent_focus(ids, str_of(member(focused, "parentId"@)))
    } else {
        Seq::empty()
    }
}

/// What a `workspace_activated` message yields.
pub open spec fn on_activated(data: Option<JsonValue>, ids: Map<Seq<char>, u8>) -> (Seq<EventModel>, Map<Seq<char>, u8>) {
    let ws = member(data, "activatedWorkspace"@);
    match u8_of(member(ws, "name"@)) {
        Some(id) => {
            let focused = bool_of(member(ws, "hasFocus"@)) == Some(true);
            (
                seq![EventModel::WorkspaceUpdate { id, active: Some(true), focused: if focused { Some(true) } else { None } }],
                record_id(ids, str_of(member(ws, "id"@)), id),
            )
        },
        None => (Seq::empty(), ids),
    }
}

/// What a `workspace_deactivated` message yields.
pub open spec fn on_deactivated(data: Option<JsonValue>, ids: Map<Seq<char>, u8>) -> (Seq<EventModel>, Map<Seq<char>, u8>) {
    let ids2 = match str_of(member(data, "deactivatedId"@)) {
        Some(w) => ids.remove(w),
        None => ids,
    };
    match u8_of(member(data, "deactivatedName"@)) {
        Some(id) => (seq![EventModel::WorkspaceUpdate { id, active: Some(false), focused: Some(false) }], ids2),
        None => (Seq::empty(), ids2),
    }
}

/// The events that a message of the window manager's event subscription
/// yields, and the workspace identifiers after it.
pub open spec fn event_outcome(v: JsonValue, ids: Map<Seq<char>, u8>) -> (Seq<EventModel>, Map<Seq<char>, u8>) {
    let data = member(Some(v), "data"@);
    match str_of(member(data, "eventType"@)) {
        None => (Seq::empty(), ids),
        Some(t) => if t == "focus_changed"@ {
            on_focus_changed(data, ids)
        } else if t == "focused_container_moved"@ {
            (on_container_moved(data, ids), ids)
        } else if t == "tiling_direction_changed"@ {
            let dir = match str_of(member(data, "newTilingDirection"@)) {
                Some(s) => s,
                None => "horizontal"@,
            };
            (seq![EventModel::TilingDirection(dir == "horizontal"@)], ids)
        } else if t == "workspace_activated"@ {
            on_activated(data, ids)
        } else if t == "workspace_deactivated"@ {
            on_deactivated(data, ids)
        } else if t == "pause_changed"@ {
            (seq![EventModel::Pause(bool_of(member(data, "isPaused"@)) == Some(true))], ids)
        } else {
            (Seq::empty(), ids)
        },
    }
}

/// The focus event for the workspace holding a window whose parent is `parent`.
fn push_parent_focus(events: &mut Vec<IPCEvent>, ids: &WorkspaceIds, parent: Option<&str>)
    ensures
        events_view(final(events)@) == events_view(old(events)@) + parent_focus(ids@, crate::json::str_view(parent)),
{
    let ghost before = events@;
    if let Some(parent_id) = parent {
        if let Some(id) = ids.get(parent_id) {
            events.push(IPCEvent::WorkspaceUpdate { id, active: Some(true), focused: Some(true) });
            assert(events_view(events@) =~= events_view(before) + seq![focus_event(id)]);
            return;
        }
    }
    assert(events_view(events@) =~= events_view(before) + Seq::<EventModel>::empty());
}

/// Reads one message of the window manager's event subscription: the events
/// it yields for the bar, in order, while `workspace_ids` learns or forgets the
/// workspace identifiers that it names.
pub fn apply_event(value: &JsonValue, workspace_ids: &mut WorkspaceIds) -> (events: Vec<IPCEvent>)
    ensures
        events_view(events@) == event_outcome(*value, old(workspace_ids)@).0,
        final(workspace_ids)@ == event_outcome(*value, old(workspace_ids)@).1,
{
    let mut events: Vec<IPCEvent> = Vec::new();
    let data = value.get("data");
    let event_type = get_str(get_member(data, "eventType"));
    let ghost ids = workspace_ids@;
    let ghost dv = deref_opt(data);
    assert(events_view(events@) =~= Seq::<EventModel>::empty());
    let event_type = match event_type {
        Some(t) => t,
        None => return events,
    };
    if str_eq(event_type, "focus_changed") {
        let focused = get_member(data, "focusedContainer");
        let kind = match get_str(get_member(focused, "type")) {
            Some(k) => k,
            None => "",
        };
        if str_eq(kind, "workspace") {
            let id = match get_str(get_member(focused, "name")) {
                Some(s) => parse_u8(s),
                None => None,
            };
            if let Some(id) = id {
                if let Some(workspace_id) = get_str(get_member(focused, "id")) {
                    workspace_ids.insert(String::from_str(workspace_id), id);
                }
                events.push(IPCEvent::WorkspaceUpdate { id, active: Some(true), focused: Some(true) });
                assert(events_view(events@) =~= seq![focus_event(id)]);
            }
        } else if str_eq(kind, "window") {
            let title = match get_str(get_member(focused, "title")) {
                Some(t) => String::from_str(t),
                None => String::from_str(""),
            };
            events.push(IPCEvent::FocusedTitle(title));
            assert(events_view(events@) =~= seq![events@[0]@]);
            push_parent_focus(&mut events, workspace_ids, get_str(get_member(focused, "parentId")));
        }
    } else if str_eq(event_type, "focused_container_moved") {
        let focused = get_member(data, "focusedContainer");
        let is_window = match get_str(get_member(focused, "type")) {
            Some(k) => str_eq(k, "window"),
            None => false,
        };
        if is_window {
            push_parent_focus(&mut events, workspace_ids, get_str(get_member(focused, "parentId")));
        }
    } else if str_eq(event_type, "tiling_direction_changed") {
        let direction = match get_str(get_member(data, "newTilingDirection")) {
            Some(d) => d,
            None => "horizontal",
        };
        events.push(IPCEvent::TilingDirection(str_eq(direction, "horizontal")));
        assert(events_view(events@) =~= seq![events@[0]@]);
    } else if str_eq(event_type, "workspace_activated") {
        let ws = get_member(data, "activatedWorkspace");
        let id = match get_str(get_member(ws, "name")) {
            Some(s) => parse_u8(s),
            None => None,
        };
        if let Some(id) = id {
            if let Some(workspace_id) = get_str(get_member(ws, "id")) {
                workspace_ids.insert(String::from_str(workspace_id), id);
            }
            let focused = match get_bool(get_member(ws, "hasFocus")) {
                Some(b) => b,
                None => false,
            };
            events.push(IPCEvent::WorkspaceUpdate {
                id,
                active: Some(true),
                focused: if focused { Some(true) } else { None },
            });
            assert(events_view(events@) =~= seq![events@[0]@]);
        }
    } else if str_eq(event_type, "workspace_deactivated") {
        if let Some(workspace_id) = get_str(get_member(data, "deactivatedId")) {
            workspace_ids.remove(workspace_id);
        }
        let id = match get_str(get_member(data, "deactivatedName")) {
            Some(s) => parse_u8(s),
            None => None,
        };
        if let Some(id) = id {
            events.push(IPCEvent::WorkspaceUpdate { id, active: Some(false), focused: Some(false) });
            assert(events_view(events@) =~= seq![events@[0]@]);
        }
    } else if str_eq(event_type, "pause_changed") {
        let paused = match get_bool(get_member(data, "isPaused")) {
            Some(b) => b,
            None => false,
        };
        events.push(IPCEvent::Pause(paused));
        assert(events_view(events@) =~= seq![events@[0]@]);
    }
    events
}

/// The `data` member of a message.
pub open spec fn message_data(v: JsonValue) -> Option<JsonValue> {
    member(Some(v), "data"@)
}

/// The `eventType` of a message.
pub open spec fn message_type(v: JsonValue) -> Option<Seq<char>> {
    str_of(member(message_data(v), "eventType"@))
}

/// The six kinds of message have six different names.
proof fn lemma_message_types_distinct()
    ensures
        "pause_changed"@ != "focus_changed"@,
        "pause_changed"@ != "focused_container_moved"@,
        "pause_changed"@ != "tiling_direction_changed"@,
        "pause_changed"@ != "workspace_activated"@,
        "pause_changed"@ != "workspace_deactivated"@,
        "tiling_direction_changed"@ != "focus_changed"@,
        "tiling_direction_changed"@ != "focused_container_moved"@,
        "workspace_activated"@ != "focus_changed"@,
        "workspace_activated"@ != "focused_container_moved"@,
        "workspace_activated"@ != "tiling_direction_changed"@,
        "workspace_deactivated"@ != "focus_changed"@,
        "workspace_deactivated"@ != "focused_container_moved"@,
        "workspace_deactivated"@ != "tiling_direction_changed"@,
        "workspace_deactivated"@ != "workspace_activated"@,
        "focused_container_moved"@ != "focus_changed"@,
        "window"@ != "workspace"@,
{
    reveal_strlit("pause_changed");
    reveal_strlit("focus_changed");
    reveal_strlit("focused_container_moved");
    reveal_strlit("tiling_direction_changed");
    reveal_strlit("workspace_activated");
    reveal_strlit("workspace_deactivated");
    reveal_strlit("window");
    reveal_strlit("workspace");
    assert("pause_changed"@.len() == 13);
    assert("focus_changed"@.len() == 13);
    assert("pause_changed"@[0] != "focus_changed"@[0]);
    assert("focused_container_moved"@.len() == 23);
    assert("tiling_direction_changed"@.len() == 24);
    assert("workspace_activated"@.len() == 19);
    assert("workspace_deactivated"@.len() == 21);
    assert("window"@.len() == 6);
    assert("workspace"@.len() == 9);
}

/// A `pause_changed` message gives exactly the pause state it carries, and
/// not paused where it carries none; the identifiers are kept.
pub proof fn lemma_pause_message(v: JsonValue, ids: Map<Seq<char>, u8>, b: bool)
    requires
        message_type(v) == Some("pause_changed"@),
    ensures
        bool_of(member(message_data(v), "isPaused"@)) == Some(b) ==> event_outcome(v, ids) == (
        seq![EventModel::Pause(b)], ids),
        bool_of(member(message_data(v), "isPaused"@)) is None ==> event_outcome(v, ids) == (
        seq![EventModel::Pause(false)], ids),
{
    lemma_message_types_distinct();
}

/// A `tiling_direction_changed` message gives horizontal tiling exactly when
/// its new direction is `horizontal` or missing; the identifiers are kept.
pub proof fn lemma_tiling_message(v: JsonValue, ids: Map<Seq<char>, u8>, d: Seq<char>)
    requires
        message_type(v) == Some("tiling_direction_changed"@),
    ensures
        str_of(member(message_data(v), "newTilingDirection"@)) == Some(d) ==> event_outcome(v, ids) == (
        seq![EventModel::TilingDirection(d == "horizontal"@)], ids),
        str_of(member(message_data(v), "newTilingDirection"@)) is None ==> event_outcome(v, ids) == (
        seq![EventModel::TilingDirection(true)], ids),
{
    lemma_message_types_distinct();
}

/// Focus on a workspace named by the decimal number `id` makes it the
/// active, focused workspace and records its identifier.
pub proof fn lemma_workspace_focus_message(v: JsonValue, ids: Map<Seq<char>, u8>, id: u8, wid: Seq<char>)
    requires
        message_type(v) == Some("focus_changed"@),
        str_of(member(member(message_data(v), "focusedContainer"@), "type"@)) == Some("workspace"@),
        str_of(member(member(message_data(v), "focusedContainer"@), "name"@)) == Some(decimal_text(id as nat)),
        str_of(member(member(message_data(v), "focusedContainer"@), "id"@)) == Some(wid),
    ensures
        event_outcome(v, ids).0 == seq![
            EventModel::WorkspaceUpdate { id, active: Some(true), focused: Some(true) },
        ],
        event_outcome(v, ids).1 == ids.insert(wid, id),
        event_outcome(v, ids).1[wid] == id,
{
    lemma_parse_decimal(id);
    lemma_message_types_distinct();
}

/// Focus on a window shows its title, and focuses the workspace that holds
/// it where that workspace's identifier is known; the identifiers are kept.
pub proof fn lemma_window_focus_message(v: JsonValue, ids: Map<Seq<char>, u8>, title: Seq<char>, parent: Seq<char>)
    requires
        message_type(v) == Some("focus_changed"@),
        str_of(member(member(message_data(v), "focusedContainer"@), "type"@)) == Some("window"@),
        str_of(member(member(message_data(v), "focusedContainer"@), "title"@)) == Some(title),
        str_of(member(member(message_data(v), "focusedContainer"@), "parentId"@)) == Some(parent),
    ensures
        event_outcome(v, ids).1 == ids,
        event_outcome(v, ids).0[0] == EventModel::FocusedTitle(title),
        ids.contains_key(parent) ==> event_outcome(v, ids).0 == seq![
            EventModel::FocusedTitle(title),
            EventModel::WorkspaceUpdate { id: ids[parent], active: Some(true), focused: Some(true) },
        ],
        !ids.contains_key(parent) ==> event_outcome(v, ids).0 == seq![EventModel::FocusedTitle(title)],
{
    lemma_message_types_distinct();
    let t = event_outcome(v, ids).0;
    if ids.contains_key(parent) {
        assert(t =~= seq![
            EventModel::FocusedTitle(title),
            EventModel::WorkspaceUpdate { id: ids[parent], active: Some(true), focused: Some(true) },
        ]);
    } else {
        assert(t =~= seq![EventModel::FocusedTitle(title)]);
    }
}

/// A moved window focuses the workspace that holds it, where known.
pub proof fn lemma_moved_window_message(v: JsonValue, ids: Map<Seq<char>, u8>, parent: Seq<char>)
    requires
        message_type(v) == Some("focused_container_moved"@),
        str_of(member(member(message_data(v), "focusedContainer"@), "type"@)) == Some("window"@),
        str_of(member(member(message_data(v), "focusedContainer"@), "parentId"@)) == Some(parent),
        ids.contains_key(parent),
    ensures
        event_outcome(v, ids) == (
            seq![EventModel::WorkspaceUpdate { id: ids[parent], active: Some(true), focused: Some(true) }],
            ids,
        ),
{
    lemma_message_types_distinct();
}

/// Activation of the workspace named `id` makes it active (and focused when
/// the message says it has the focus) and records its identifier;
/// deactivation makes it neither, and forgets its identifier.
pub proof fn lemma_activation_messages(v: JsonValue, w: JsonValue, ids: Map<Seq<char>, u8>, id: u8, wid: Seq<char>, focus: bool)
    requires
        message_type(v) == Some("workspace_activated"@),
        str_of(member(member(message_data(v), "activatedWorkspace"@), "name"@)) == Some(decimal_text(id as nat)),
        str_of(member(member(message_data(v), "activatedWorkspace"@), "id"@)) == Some(wid),
        bool_of(member(member(message_data(v), "activatedWorkspace"@), "hasFocus"@)) == Some(focus),
        message_type(w) == Some("workspace_deactivated"@),
        str_of(member(message_data(w), "deactivatedName"@)) == Some(decimal_text(id as nat)),
        str_of(member(message_data(w), "deactivatedId"@)) == Some(wid),
    ensures
        event_outcome(v, ids) == (
            seq![EventModel::WorkspaceUpdate { id, active: Some(true), focused: if focus { Some(true) } else { None } }],
            ids.insert(wid, id),
        ),
        event_outcome(w, ids) == (
            seq![EventModel::WorkspaceUpdate { id, active: Some(false), focused: Some(false) }],
            ids.remove(wid),
        ),
        !event_outcome(w, event_outcome(v, ids).1).1.contains_key(wid),
{
    lemma_parse_decimal(id);
    lemma_message_types_distinct();
}

/// A message of any other kind, or with no kind, yields nothing and keeps
/// the identifiers.
pub proof fn lemma_other_messages(v: JsonValue, ids: Map<Seq<char>, u8>)
    requires
        message_type(v) != Some("focus_changed"@),
        message_type(v) != Some("focused_container_moved"@),
        message_type(v) != Some("tiling_direction_changed"@),
        message_type(v) != Some("workspace_activated"@),
        message_type(v) != Some("workspace_deactivated"@),
        message_type(v) != Some("pause_changed"@),
    ensures
        event_outcome(v, ids) == (Seq::<EventModel>::empty(), ids),
{
}

/// What one line of the event subscription's output yields: nothing for a
/// blank line or one that is not JSON, else what its message yields.
pub open spec fn line_outcome(line: Seq<char>, ids: Map<Seq<char>, u8>) -> (Seq<EventModel>, Map<Seq<char>, u8>) {
    let t = trimmed(line);
    if t.len() == 0 {
        (Seq::empty(), ids)
    } else {
        match serde_json_parse(t) {
            Some(v) => event_outcome(v, ids),
            None => (Seq::empty(), ids),
        }
    }
}

/// Reads one line of the window manager's event subscription.
pub fn events_from_line(line: &str, workspace_ids: &mut WorkspaceIds) -> (events: Vec<IPCEvent>)
    ensures
        events_view(events@) == line_outcome(line@, old(workspace_ids)@).0,
        final(workspace_ids)@ == line_outcome(line@, old(workspace_ids)@).1,
{
    let trimmed_line = trim(line);
    if trimmed_line.unicode_len() == 0 {
        let events = Vec::new();
        assert(events_view(events@) =~= Seq::<EventModel>::empty());
        return events;
    }
    match parse_json(trimmed_line) {
        Some(value) => apply_event(&value, workspace_ids),
        None => {
            let events = Vec::new();
            assert(events_view(events@) =~= Seq::<EventModel>::empty());
            events
        },
    }
}

/// One workspace of the window manager's workspace list, read into the
/// events and identifiers gathered so far.
pub open spec fn snapshot_step(w: JsonValue, acc: (Seq<EventModel>, Map<Seq<char>, u8>)) -> (Seq<EventModel>, Map<Seq<char>, u8>) {
    match u8_of(member(Some(w), "name"@)) {
        None => acc,
        Some(id) => {
            let active = bool_of(member(Some(w), "isDisplayed"@)) == Some(true);
            let focused = bool_of(member(Some(w), "hasFocus"@)) == Some(true);
            (
                acc.0.push(EventModel::WorkspaceUpdate {
                    id,
                    active: Some(active),
                    focused: if focused { Some(true) } else { None },
                }),
                record_id(acc.1, str_of(member(Some(w), "id"@)), id),
            )
        },
    }
}

/// The events and identifiers that a list of workspaces yields, from no
/// identifiers at all.
pub open spec fn snapshot(ws: Seq<JsonValue>) -> (Seq<EventModel>, Map<Seq<char>, u8>)
    decreases ws.len(),
{
    if ws.len() == 0 {
        (Seq::empty(), Map::empty())
    } else {
        snapshot_step(ws.last(), snapshot(ws.drop_last()))
    }
}

/// What the output of the window manager's workspace query yields: where it
/// parses and holds a list under `data.workspaces`, the workspaces' events
/// with the identifiers read afresh; else nothing, with the identifiers kept.
pub open spec fn query_outcome(output: Seq<char>, ids: Map<Seq<char>, u8>) -> (Seq<EventModel>, Map<Seq<char>, u8>) {
    match serde_json_parse(output) {
        None => (Seq::empty(), ids),
        Some(v) => document_outcome(v, ids),
    }
}

/// What a parsed workspace query yields: where it holds a list under
/// `data.workspaces`, the workspaces' events with the identifiers read
/// afresh; else nothing, with the identifiers kept.
pub open spec fn document_outcome(v: JsonValue, ids: Map<Seq<char>, u8>) -> (Seq<EventModel>, Map<Seq<char>, u8>) {
    match array_of(member(member(Some(v), "data"@), "workspaces"@)) {
        None => (Seq::empty(), ids),
        Some(ws) => snapshot(ws),
    }
}

/// Reads the output of the window manager's workspace query into one update
/// per workspace, in the query's order, and learns the workspaces'
/// identifiers afresh.
pub fn workspaces_from_query(output: &str, workspace_ids: &mut WorkspaceIds) -> (events: Vec<IPCEvent>)
    ensures
        events_view(events@) == query_outcome(output@, old(workspace_ids)@).0,
        final(workspace_ids)@ == query_outcome(output@, old(workspace_ids)@).1,
{
    match parse_json(output) {
        Some(value) => workspaces_from_document(&value, workspace_ids),
        None => {
            let events: Vec<IPCEvent> = Vec::new();
            assert(events_view(events@) =~= Seq::<EventModel>::empty());
            events
        },
    }
}

/// Reads a parsed workspace query into one update per workspace, in the
/// query's order, and learns the workspaces' identifiers afresh.
pub fn workspaces_from_document(value: &JsonValue, workspace_ids: &mut WorkspaceIds) -> (events: Vec<IPCEvent>)
    ensures
        events_view(events@) == document_outcome(*value, old(workspace_ids)@).0,
        final(workspace_ids)@ == document_outcome(*value, old(workspace_ids)@).1,
{
    let mut events: Vec<IPCEvent> = Vec::new();
    assert(events_view(events@) =~= Seq::<EventModel>::empty());
    let workspaces = match get_member(value.get("data"), "workspaces") {
        Some(w) => w.as_array(),
        None => None,
    };
    let workspaces = match workspaces {
        Some(w) => w,
        None => return events,
    };
    workspace_ids.clear();
    let mut i: usize = 0;
    assert(workspaces@.take(0) =~= Seq::<JsonValue>::empty());
    while i < workspaces.len()
        invariant
            i <= workspaces@.len(),
            (events_view(events@), workspace_ids@) == snapshot(workspaces@.take(i as int)),
        decreases workspaces@.len() - i,
    {
        let ghost before = (events_view(events@), workspace_ids@);
        assert(workspaces@.take(i + 1).drop_last() =~= workspaces@.take(i as int));
        assert(workspaces@.take(i + 1).last() == workspaces@[i as int]);
        let workspace = &workspaces[i];
        let id = match workspace.get("name") {
            Some(n) => match n.as_str() {
                Some(s) => parse_u8(s),
                None => None,
            },
            None => None,
        };
        if let Some(id) = id {
            if let Some(workspace_id) = get_str(workspace.get("id")) {
                workspace_ids.insert(String::from_str(workspace_id), id);
            }
            let active = match get_bool(workspace.get("isDisplayed")) {
                Some(b) => b,
                None => false,
            };
            let focused = match get_bool(workspace.get("hasFocus")) {
                Some(b) => b,
                None => false,
            };
            let ghost old_events = events@;
            events.push(IPCEvent::WorkspaceUpdate {
                id,
                active: Some(active),
                focused: if focused { Some(true) } else { None },
            });
            assert(events_view(events@) =~= events_view(old_events).push(events@[old_events.len() as int]@));
        }
        i = i + 1;
    }
    assert(workspaces@.take(workspaces@.len() as int) =~= workspaces@);
    events
}

} // verus!
