//! What the bar shows: its workspaces, the focused window's title, the
//! window manager's pause and tiling direction, and the time.
use vstd::prelude::*;

use crate::clock::{chrono_format, format_reading, instant_now, read_local_clock, LocalReading};
use crate::ipc::{EventModel, IPCEvent};
use crate::text::{decimal_text, push_decimal};

verus! {

/// The number of workspaces that the bar shows.
pub const WORKSPACE_COUNT: u8 = 9;

/// One workspace button of the bar.
#[derive(Debug, Clone, PartialEq, Eq)]
pub struct Workspace {
    /// The workspace's number, 1 to 9.
    pub id: u8,
    /// The button's text.
    pub icon: String,
    /// Whether the workspace is shown on a monitor.
    pub active: bool,
    /// Whether the workspace holds the focus.
    pub focused: bool,
}

/// A workspace with its icon as characters.
pub struct WorkspaceModel {
    pub id: u8,
    pub icon: Seq<char>,
    pub active: bool,
    pub focused: bool,
}

impl View for Workspace {
    type V = WorkspaceModel;

    open spec fn view(&self) -> WorkspaceModel {
        WorkspaceModel { id: self.id, icon: self.icon@, active: self.active, focused: self.focused }
    }
}

impl Workspace {
    fn replica(&self) -> (r: Workspace)
        ensures
            r@ == self@,
    {
        Workspace { id: self.id, icon: self.icon.clone(), active: self.active, focused: self.focused }
    }
}

/// The colour role in which a workspace button is drawn.
#[derive(Debug, Clone, Copy, PartialEq, Eq)]
pub enum WorkspaceRole {
    Focused,
    Active,
    Inactive,
}

impl Workspace {
    /// Active and focused: the focused colour; active only: the active
    /// colour; otherwise the inactive one.
    pub fn role(&self) -> (r: WorkspaceRole)
        ensures
            r == (if self.active && self.focused {
                WorkspaceRole::Focused
            } else if self.active {
                WorkspaceRole::Active
            } else {
                WorkspaceRole::Inactive
            }),
    {
        match (self.active, self.focused) {
            (true, true) => WorkspaceRole::Focused,
            (true, false) => WorkspaceRole::Active,
            (false, _) => WorkspaceRole::Inactive,
        }
    }
}

/// The icon of workspace `id`: `[n]` when focused, ` n*` when active,
/// ` n ` otherwise.
pub open spec fn icon_text(id: u8, active: bool, focused: bool) -> Seq<char> {
    if focused {
        "["@ + decimal_text(id as nat) + "]"@
    } else if active {
        " "@ + decimal_text(id as nat) + "*"@
    } else {
        " "@ + decimal_text(id as nat) + " "@
    }
}

/// The whole state, as values.
pub struct StateModel {
    pub workspaces: Seq<WorkspaceModel>,
    pub focused_title: Seq<char>,
    pub paused: bool,
    pub horizontal: bool,
    pub time: Seq<char>,
}

impl StateModel {
    /// Nine workspaces, numbered 1 to 9 in order.
    pub open spec fn well_formed(self) -> bool {
        &&& self.workspaces.len() == WORKSPACE_COUNT
        &&& forall|i: int| 0 <= i < self.workspaces.len() ==> #[trigger] self.workspaces[i].id == i + 1
    }

    /// Every icon matches its workspace's flags, and at most one workspace
    /// holds the focus.
    pub open spec fn consistent(self) -> bool {
        &&& forall|i: int|
            0 <= i < self.workspaces.len() ==> (#[trigger] self.workspaces[i]).icon == icon_text(
                self.workspaces[i].id,
                self.workspaces[i].active,
                self.workspaces[i].focused,
            )
        &&& forall|i: int, j: int|
            0 <= i < self.workspaces.len() && 0 <= j < self.workspaces.len()
                && (#[trigger] self.workspaces[i]).focused && (#[trigger] self.workspaces[j]).focused
                ==> i == j
    }
}

/// The workspaces of a fresh bar: 1 to 9, neither active nor focused.
pub open spec fn initial_workspaces() -> Seq<WorkspaceModel> {
    Seq::new(
        WORKSPACE_COUNT as nat,
        |i: int| WorkspaceModel {
            id: (i + 1) as u8,
            icon: icon_text((i + 1) as u8, false, false),
            active: false,
            focused: false,
        },
    )
}

/// Sets the flags of workspace `id`; nothing for a number outside 1 to 9.
pub open spec fn model_update_workspace(s: StateModel, id: u8, active: bool, focused: bool) -> StateModel {
    if id < 1 || id > 9 {
        s
    } else {
        let w = s.workspaces[id - 1];
        StateModel {
            workspaces: s.workspaces.update(
                id - 1,
                WorkspaceModel { id: w.id, icon: w.icon, active, focused },
            ),
            ..s
        }
    }
}

/// Focuses workspace `id` alone (or, with `focused` false, none); nothing
/// for a number outside 1 to 9.
pub open spec fn model_set_focused(s: StateModel, id: u8, focused: bool) -> StateModel {
    if id < 1 || id > 9 {
        s
    } else {
        StateModel {
            workspaces: s.workspaces.map_values(
                |w: WorkspaceModel|
                    WorkspaceModel { id: w.id, icon: w.icon, active: w.active, focused: focused && w.id == id },
            ),
            ..s
        }
    }
}

/// Redraws every icon from its workspace's flags.
pub open spec fn model_refresh_icons(s: StateModel) -> StateModel {
    StateModel {
        workspaces: s.workspaces.map_values(
            |w: WorkspaceModel|
                WorkspaceModel {
                    id: w.id,
                    icon: icon_text(w.id, w.active, w.focused),
                    active: w.active,
                    focused: w.focused,
                },
        ),
        ..s
    }
}

/// The state after one event.
pub open spec fn model_apply(s: StateModel, e: EventModel) -> StateModel {
    match e {
        EventModel::WorkspaceUpdate { id, active, focused } => {
            let s1 = match active {
                Some(a) => model_update_workspace(
                    s,
                    id,
                    a,
                    match focused {
                        Some(f) => f,
                        None => false,
                    },
                ),
                None => s,
            };
            let s2 = match focused {
                Some(f) => model_set_focused(s1, id, f),
                None => s1,
            };
            model_refresh_icons(s2)
        },
        EventModel::FocusedTitle(t) => StateModel { focused_title: t, ..s },
        EventModel::Pause(p) => StateModel { paused: p, ..s },
        EventModel::TilingDirection(h) => StateModel { horizontal: h, ..s },
    }
}

/// The state after a list of events, applied in order.
pub open spec fn model_apply_all(s: StateModel, events: Seq<EventModel>) -> StateModel
    decreases events.len(),
{
    if events.len() == 0 {
        s
    } else {
        model_apply(model_apply_all(s, events.drop_last()), events.last())
    }
}

/// The clock text of a fresh state for a reading of the local clock: the
/// reading as `%m/%d/%Y %H:%M`, or nothing where chrono cannot format it.
pub open spec fn initial_time_text(reading: LocalReading) -> Seq<char> {
    match chrono_format(reading, "%m/%d/%Y %H:%M"@) {
        Some(t) => t,
        None => Seq::empty(),
    }
}

/// What the bar shows.
pub struct RebarState {
    workspaces: Vec<Workspace>,
    focused_title: String,
    paused: bool,
    horizontal: bool,
    time: String,
    /// The moment from which the monotonic clock is read.
    clock_anchor: std::time::Instant,
    /// Nanoseconds from `clock_anchor` to the last reading of the clock.
    last_tick: u128,
}

impl View for RebarState {
    type V = StateModel;

    closed spec fn view(&self) -> StateModel {
        StateModel {
            workspaces: self.workspaces@.map_values(|w: Workspace| w@),
            focused_title: self.focused_title@,
            paused: self.paused,
            horizontal: self.horizontal,
            time: self.time@,
        }
    }
}

/// The icon of workspace `id` for the given flags.
fn make_icon(id: u8, active: bool, focused: bool) -> (r: String)
    ensures
        r@ == icon_text(id, active, focused),
{
    let mut out = String::new();
    if focused {
        out.append("[");
        push_decimal(&mut out, id as u32);
        out.append("]");
    } else if active {
        out.append(" ");
        push_decimal(&mut out, id as u32);
        out.append("*");
    } else {
        out.append(" ");
        push_decimal(&mut out, id as u32);
        out.append(" ");
    }
    out
}

impl RebarState {
    #[verifier::type_invariant]
    pub(crate) open spec fn numbered(self) -> bool {
        self@.well_formed()
    }

    /// The moment from which the monotonic clock is read.
    pub closed spec fn clock_anchor(&self) -> std::time::Instant {
        self.clock_anchor
    }

    /// The last reading of the clock, in nanoseconds from `clock_anchor`.
    pub closed spec fn last_tick(&self) -> u128 {
        self.last_tick
    }

    /// The last reading of the clock, in nanoseconds from the anchor.
    pub fn tick(&self) -> (r: u128)
        ensures
            r == self.last_tick(),
    {
        self.last_tick
    }

    /// The moment from which the monotonic clock is read.
    pub(crate) fn anchor(&self) -> (r: std::time::Instant)
        ensures
            r == self.clock_anchor(),
    {
        self.clock_anchor
    }

    /// Reads the monotonic clock: the nanoseconds from the anchor to now.
    /// The reading depends on the clock and is not stated.
    pub(crate) fn clock_nanos(&self) -> u128 {
        let elapsed = crate::clock::elapsed_since(&self.clock_anchor);
        crate::clock::duration_nanos(&elapsed)
    }

    /// Workspaces 1 to 9, none active, an empty title and clock text, not
    /// paused, tiling horizontally, read from `anchor`, with `tick` as the
    /// last reading of the clock.
    pub(crate) fn blank(anchor: std::time::Instant, tick: u128) -> (r: RebarState)
        ensures
            r@.workspaces == initial_workspaces(),
            r@.focused_title == Seq::<char>::empty(),
            !r@.paused,
            r@.horizontal,
            r@.time == Seq::<char>::empty(),
            r@.consistent(),
            r.clock_anchor() == anchor,
            r.last_tick() == tick,
    {
        let mut workspaces: Vec<Workspace> = Vec::new();
        let mut id: u8 = 1;
        while id <= WORKSPACE_COUNT
            invariant
                1 <= id <= WORKSPACE_COUNT + 1,
                workspaces@.len() == id - 1,
                forall|i: int|
                    0 <= i < workspaces@.len() ==> #[trigger] workspaces@[i]@ == initial_workspaces()[i],
            decreases WORKSPACE_COUNT + 1 - id,
        {
            workspaces.push(Workspace { id, icon: make_icon(id, false, false), active: false, focused: false });
            id = id + 1;
        }
        let r = RebarState {
            workspaces,
            focused_title: String::new(),
            paused: false,
            horizontal: true,
            time: String::new(),
            clock_anchor: anchor,
            last_tick: tick,
        };
        assert(r@.workspaces =~= initial_workspaces());
        r
    }

    /// A fresh state: workspaces 1 to 9, none active, the title
    /// `GlazeWM - Rebar`, not paused, tiling horizontally, and the local
    /// time as `%m/%d/%Y %H:%M` (empty where chrono cannot format it).
    fn initial() -> (r: RebarState)
        ensures
            r@.workspaces == initial_workspaces(),
            r@.focused_title == "GlazeWM - Rebar"@,
            !r@.paused,
            r@.horizontal,
            r@.consistent(),
            exists|reading: LocalReading| reading.in_range() && r@.time == initial_time_text(reading),
            r.last_tick() == 0,
    {
        let mut r = RebarState::blank(instant_now(), 0);
        proof {
            use_type_invariant(&r);
        }
        r.focused_title = String::from_str("GlazeWM - Rebar");
        let reading = read_local_clock();
        r.time = match format_reading(&reading, "%m/%d/%Y %H:%M") {
            Some(t) => t,
            None => String::new(),
        };
        assert(r@.time == initial_time_text(reading));
        r
    }

    /// The workspace buttons, in order.
    pub fn workspaces(&self) -> (r: &Vec<Workspace>)
        ensures
            r@.map_values(|w: Workspace| w@) == self@.workspaces,
    {
        &self.workspaces
    }

    /// The focused window's title.
    pub fn focused_title(&self) -> (r: &str)
        ensures
            r@ == self@.focused_title,
    {
        self.focused_title.as_str()
    }

    /// The text of the clock.
    pub fn time(&self) -> (r: &str)
        ensures
            r@ == self@.time,
    {
        self.time.as_str()
    }

    pub fn paused(&self) -> (r: bool)
        ensures
            r == self@.paused,
    {
        self.paused
    }

    pub fn horizontal(&self) -> (r: bool)
        ensures
            r == self@.horizontal,
    {
        self.horizontal
    }

    /// `H` when tiling horizontally, else `V`.
    pub fn direction_label(&self) -> (r: &'static str)
        ensures
            r@ == (if self@.horizontal { "H"@ } else { "V"@ }),
    {
        if self.horizontal {
            "H"
        } else {
            "V"
        }
    }

    /// `PAUSED` while paused, else nothing.
    pub fn paused_label(&self) -> (r: &'static str)
        ensures
            r@ == (if self@.paused { "PAUSED"@ } else { ""@ }),
    {
        if self.paused {
            "PAUSED"
        } else {
            ""
        }
    }
}

/// Sets the flags of workspace `id`; does nothing for a number outside 1 to 9.
/// The icons are left as they were.
pub fn update_workspace(state: &mut RebarState, id: u8, active: bool, focused: bool)
    ensures
        final(state)@ == model_update_workspace(old(state)@, id, active, focused),
        final(state).last_tick() == old(state).last_tick(),
        final(state).clock_anchor() == old(state).clock_anchor(),
{
    proof {
        use_type_invariant(&*state);
    }
    if id < 1 || id > 9 {
        return;
    }
    let k = (id - 1) as usize;
    let ghost target = model_update_workspace(old(state)@, id, active, focused).workspaces;
    let mut rebuilt: Vec<Workspace> = Vec::new();
    let mut i: usize = 0;
    while i < state.workspaces.len()
        invariant
            state@ == old(state)@,
            target == model_update_workspace(old(state)@, id, active, focused).workspaces,
            1 <= id <= 9,
            k == id - 1,
            k < state@.workspaces.len(),
            target.len() == state@.workspaces.len(),
            i <= state@.workspaces.len(),
            rebuilt@.len() == i,
            forall|j: int| 0 <= j < i ==> #[trigger] rebuilt@[j]@ == target[j],
        decreases state@.workspaces.len() - i,
    {
        let w = &state.workspaces[i];
        assert(state@.workspaces[i as int] == state.workspaces@[i as int]@);
        if i == k {
            rebuilt.push(Workspace { id: w.id, icon: w.icon.clone(), active, focused });
        } else {
            rebuilt.push(w.replica());
        }
        i = i + 1;
    }
    state.workspaces = rebuilt;
    assert(state@.workspaces =~= target);
}

/// Gives the focus to workspace `id` alone, or, with `focused` false, takes
/// it from every workspace; does nothing for a number outside 1 to 9.
pub fn set_focused_workspace(state: &mut RebarState, id: u8, focused: bool)
    ensures
        final(state)@ == model_set_focused(old(state)@, id, focused),
        final(state).last_tick() == old(state).last_tick(),
        final(state).clock_anchor() == old(state).clock_anchor(),
{
    proof {
        use_type_invariant(&*state);
    }
    if id < 1 || id > 9 {
        return;
    }
    let ghost target = model_set_focused(old(state)@, id, focused).workspaces;
    let mut rebuilt: Vec<Workspace> = Vec::new();
    let mut i: usize = 0;
    while i < state.workspaces.len()
        invariant
            state@ == old(state)@,
            1 <= id <= 9,
            target == model_set_focused(old(state)@, id, focused).workspaces,
            target.len() == state@.workspaces.len(),
            i <= state@.workspaces.len(),
            rebuilt@.len() == i,
            forall|j: int| 0 <= j < i ==> #[trigger] rebuilt@[j]@ == target[j],
        decreases state@.workspaces.len() - i,
    {
        let w = &state.workspaces[i];
        assert(state@.workspaces[i as int] == state.workspaces@[i as int]@);
        let updated = Workspace { id: w.id, icon: w.icon.clone(), active: w.active, focused: focused && w.id == id };
        rebuilt.push(updated);
        i = i + 1;
    }
    state.workspaces = rebuilt;
    assert(state@.workspaces =~= target);
}

/// Redraws every workspace's icon from its flags.
pub fn update_workspace_icons(state: &mut RebarState)
    ensures
        final(state)@ == model_refresh_icons(old(state)@),
        final(state).last_tick() == old(state).last_tick(),
        final(state).clock_anchor() == old(state).clock_anchor(),
{
    proof {
        use_type_invariant(&*state);
    }
    let ghost target = model_refresh_icons(old(state)@).workspaces;
    let mut rebuilt: Vec<Workspace> = Vec::new();
    let mut i: usize = 0;
    while i < state.workspaces.len()
        invariant
            state@ == old(state)@,
            target == model_refresh_icons(old(state)@).workspaces,
            target.len() == state@.workspaces.len(),
            i <= state@.workspaces.len(),
            rebuilt@.len() == i,
            forall|j: int| 0 <= j < i ==> #[trigger] rebuilt@[j]@ == target[j],
        decreases state@.workspaces.len() - i,
    {
        let w = &state.workspaces[i];
        assert(state@.workspaces[i as int] == state.workspaces@[i as int]@);
        let updated = Workspace { id: w.id, icon: make_icon(w.id, w.active, w.focused), active: w.active, focused: w.focused };
        rebuilt.push(updated);
        i = i + 1;
    }
    state.workspaces = rebuilt;
    assert(state@.workspaces =~= target);
}

impl Default for RebarState {
    /// A fresh state: workspaces 1 to 9, none active, the title
    /// `GlazeWM - Rebar`, not paused, tiling horizontally, and the local
    /// time as `%m/%d/%Y %H:%M`.
    fn default() -> (r: RebarState)
        ensures
            r@.workspaces == initial_workspaces(),
            r@.focused_title == "GlazeWM - Rebar"@,
            !r@.paused,
            r@.horizontal,
            r@.consistent(),
            exists|reading: LocalReading| reading.in_range() && r@.time == initial_time_text(reading),
            r.last_tick() == 0,
    {
        RebarState::initial()
    }
}

impl RebarState {
    /// Sets the text of the clock and the moment it was read.
    pub fn set_time(&mut self, time: String, tick: u128)
        ensures
            final(self)@ == (StateModel { time: time@, ..old(self)@ }),
            final(self).last_tick() == tick,
            final(self).clock_anchor() == old(self).clock_anchor(),
    {
        proof {
            use_type_invariant(&*self);
        }
        self.time = time;
        self.last_tick = tick;
    }

    /// Applies one event to the state.
    pub fn apply_event(&mut self, event: &IPCEvent)
        ensures
            final(self)@ == model_apply(old(self)@, event@),
            final(self).last_tick() == old(self).last_tick(),
            final(self).clock_anchor() == old(self).clock_anchor(),
            final(self)@.time == old(self)@.time,
            event matches IPCEvent::Pause(p) ==> final(self)@.paused == p,
            event matches IPCEvent::FocusedTitle(t) ==> final(self)@.focused_title == t@,
            event matches IPCEvent::TilingDirection(h) ==> final(self)@.horizontal == h,
            !(event is Pause) ==> final(self)@.paused == old(self)@.paused,
            !(event is FocusedTitle) ==> final(self)@.focused_title == old(self)@.focused_title,
            !(event is TilingDirection) ==> final(self)@.horizontal == old(self)@.horizontal,
            !(event is WorkspaceUpdate) ==> final(self)@.workspaces == old(self)@.workspaces,
    {
        proof {
            use_type_invariant(&*self);
        }
        match event {
            IPCEvent::WorkspaceUpdate { id, active, focused } => {
                if let Some(active) = active {
                    let f = match focused {
                        Some(f) => *f,
                        None => false,
                    };
                    update_workspace(self, *id, *active, f);
                }
                if let Some(focused) = focused {
                    set_focused_workspace(self, *id, *focused);
                }
                update_workspace_icons(self);
            },
            IPCEvent::FocusedTitle(title) => {
                self.focused_title = title.clone();
            },
            IPCEvent::Pause(paused) => {
                self.paused = *paused;
            },
            IPCEvent::TilingDirection(horizontal) => {
                self.horizontal = *horizontal;
            },
        }
    }

    /// Applies a list of events, in order.
    pub fn apply_events(&mut self, events: &Vec<IPCEvent>)
        ensures
            final(self)@ == model_apply_all(old(self)@, crate::ipc::events_view(events@)),
            final(self).last_tick() == old(self).last_tick(),
            final(self).clock_anchor() == old(self).clock_anchor(),
    {
        let ghost evs = crate::ipc::events_view(events@);
        let mut i: usize = 0;
        assert(evs.take(0) =~= Seq::<EventModel>::empty());
        while i < events.len()
            invariant
                i <= events@.len(),
                evs == crate::ipc::events_view(events@),
                self@ == model_apply_all(old(self)@, evs.take(i as int)),
                self.last_tick() == old(self).last_tick(),
                self.clock_anchor() == old(self).clock_anchor(),
            decreases events@.len() - i,
        {
            assert(evs.take(i + 1).drop_last() =~= evs.take(i as int));
            self.apply_event(&events[i]);
            i = i + 1;
        }
        assert(evs.take(events@.len() as int) =~= evs);
    }
}

/// An event keeps the workspaces numbered 1 to 9, every icon in step with
/// its workspace's flags, and the focus on at most one workspace.
pub proof fn lemma_apply_keeps_consistent(s: StateModel, e: EventModel)
    requires
        s.well_formed(),
        s.consistent(),
    ensures
        model_apply(s, e).well_formed(),
        model_apply(s, e).consistent(),
{
    match e {
        EventModel::WorkspaceUpdate { id, active, focused } => {
            let s1 = match active {
                Some(a) => model_update_workspace(s, id, a, match focused {
                    Some(f) => f,
                    None => false,
                }),
                None => s,
            };
            let s2 = match focused {
                Some(f) => model_set_focused(s1, id, f),
                None => s1,
            };
            let t = model_apply(s, e);
            assert(t == model_refresh_icons(s2));
            assert(s1.workspaces.len() == 9);
            assert forall|i: int| 0 <= i < s1.workspaces.len() implies #[trigger] s1.workspaces[i].id == i + 1 by {
            }
            // At most one focused workspace in s1: an update with focus sets it
            // alone afterwards; an update without focus clears it.
            assert forall|i: int, j: int|
                0 <= i < s2.workspaces.len() && 0 <= j < s2.workspaces.len()
                    && (#[trigger] s2.workspaces[i]).focused && (#[trigger] s2.workspaces[j]).focused implies i == j by {
                match focused {
                    Some(f) => {
                        if 1 <= id <= 9 {
                            assert(s2.workspaces[i].id == id);
                            assert(s2.workspaces[j].id == id);
                            assert(s1.workspaces[i].id == i + 1);
                            assert(s1.workspaces[j].id == j + 1);
                        } else {
                            assert(s1.workspaces[i].focused);
                            assert(s1.workspaces[j].focused);
                            assert(s.workspaces[i].focused);
                            assert(s.workspaces[j].focused);
                        }
                    },
                    None => {
                        assert(s1.workspaces[i].focused);
                        assert(s1.workspaces[j].focused);
                        if 1 <= id <= 9 && active is Some {
                            assert(i != id - 1);
                            assert(j != id - 1);
                        }
                        assert(s.workspaces[i].focused);
                        assert(s.workspaces[j].focused);
                    },
                }
            }
        },
        _ => {},
    }
}

/// A list of events keeps a consistent state consistent.
pub proof fn lemma_apply_all_keeps_consistent(s: StateModel, events: Seq<EventModel>)
    requires
        s.well_formed(),
        s.consistent(),
    ensures
        model_apply_all(s, events).well_formed(),
        model_apply_all(s, events).consistent(),
    decreases events.len(),
{
    if events.len() > 0 {
        lemma_apply_all_keeps_consistent(s, events.drop_last());
        lemma_apply_keeps_consistent(model_apply_all(s, events.drop_last()), events.last());
    }
}

/// A message that workspace `id` (1 to 9) is active and focused leaves it
/// the one focused workspace, active, with the icon `[id]`.
pub proof fn lemma_focus_event_focuses_one(s: StateModel, id: u8)
    requires
        s.well_formed(),
        1 <= id <= 9,
    ensures
        ({
            let t = model_apply(s, EventModel::WorkspaceUpdate { id, active: Some(true), focused: Some(true) });
            &&& t.workspaces[id - 1].active
            &&& t.workspaces[id - 1].icon == icon_text(id, true, true)
            &&& forall|i: int| 0 <= i < t.workspaces.len() ==> (#[trigger] t.workspaces[i].focused <==> i == id - 1)
        }),
{
    let t = model_apply(s, EventModel::WorkspaceUpdate { id, active: Some(true), focused: Some(true) });
    assert forall|i: int| 0 <= i < t.workspaces.len() implies (#[trigger] t.workspaces[i].focused <==> i == id - 1) by {
        assert(s.workspaces[i].id == i + 1);
    }
}

/// A message that workspace `id` (1 to 9) is neither active nor focused
/// leaves it inactive with the icon ` id `, and no workspace focused.
pub proof fn lemma_deactivation_unfocuses_all(s: StateModel, id: u8)
    requires
        s.well_formed(),
        1 <= id <= 9,
    ensures
        ({
            let t = model_apply(s, EventModel::WorkspaceUpdate { id, active: Some(false), focused: Some(false) });
            &&& !t.workspaces[id - 1].active
            &&& t.workspaces[id - 1].icon == icon_text(id, false, false)
            &&& forall|i: int| 0 <= i < t.workspaces.len() ==> !(#[trigger] t.workspaces[i].focused)
        }),
{
}

/// Messages other than workspace updates leave the workspaces as they were.
pub proof fn lemma_other_events_keep_workspaces(s: StateModel, e: EventModel)
    requires
        !(e is WorkspaceUpdate),
    ensures
        model_apply(s, e).workspaces == s.workspaces,
{
}

/// Events leave the text of the clock as it was.
pub proof fn lemma_apply_all_keeps_time(s: StateModel, events: Seq<EventModel>)
    ensures
        model_apply_all(s, events).time == s.time,
    decreases events.len(),
{
    if events.len() > 0 {
        lemma_apply_all_keeps_time(s, events.drop_last());
    }
}

/// After a pause message the bar shows exactly the pause state it gives,
/// whatever it showed before; nothing else changes.
pub proof fn lemma_pause_event_sets_flag(s: StateModel, p: bool)
    ensures
        model_apply(s, EventModel::Pause(p)).paused == p,
        model_apply(s, EventModel::Pause(p)).workspaces == s.workspaces,
        model_apply(s, EventModel::Pause(p)).focused_title == s.focused_title,
        model_apply(s, EventModel::Pause(p)).horizontal == s.horizontal,
        model_apply(s, EventModel::Pause(p)).time == s.time,
        model_apply(model_apply(s, EventModel::Pause(true)), EventModel::Pause(false)).paused == false,
{
}

/// After a title message the bar shows exactly that title; after a tiling
/// message exactly that direction.
pub proof fn lemma_title_and_direction_events(s: StateModel, t: Seq<char>, h: bool)
    ensures
        model_apply(s, EventModel::FocusedTitle(t)).focused_title == t,
        model_apply(s, EventModel::FocusedTitle(t)).paused == s.paused,
        model_apply(s, EventModel::TilingDirection(h)).horizontal == h,
        model_apply(s, EventModel::TilingDirection(h)).paused == s.paused,
{
}

/// Events are applied in the order given: applying a list and then another
/// is applying the two lists one after the other.
pub proof fn lemma_apply_all_in_order(s: StateModel, a: Seq<EventModel>, b: Seq<EventModel>)
    ensures
        model_apply_all(s, a + b) == model_apply_all(model_apply_all(s, a), b),
    decreases b.len(),
{
    if b.len() == 0 {
        assert(a + b =~= a);
    } else {
        lemma_apply_all_in_order(s, a, b.drop_last());
        assert((a + b).drop_last() =~= a + b.drop_last());
        assert((a + b).last() == b.last());
    }
}

/// A later event wins over an earlier one: after a deactivation of one
/// workspace and then a focus on another, the other is the one focused.
pub proof fn lemma_later_focus_wins(s: StateModel, off: u8, on: u8)
    requires
        s.well_formed(),
        1 <= off <= 9,
        1 <= on <= 9,
    ensures
        ({
            let t = model_apply_all(
                s,
                seq![
                    EventModel::WorkspaceUpdate { id: off, active: Some(false), focused: Some(false) },
                    EventModel::WorkspaceUpdate { id: on, active: Some(true), focused: Some(true) },
                ],
            );
            forall|i: int| 0 <= i < t.workspaces.len() ==> (#[trigger] t.workspaces[i].focused <==> i == on - 1)
        }),
{
    let e1 = EventModel::WorkspaceUpdate { id: off, active: Some(false), focused: Some(false) };
    let e2 = EventModel::WorkspaceUpdate { id: on, active: Some(true), focused: Some(true) };
    let evs = seq![e1, e2];
    assert(evs.drop_last() =~= seq![e1]);
    assert(seq![e1].drop_last() =~= Seq::<EventModel>::empty());
    let s1 = model_apply(s, e1);
    assert(model_apply_all(s, Seq::<EventModel>::empty()) == s);
    assert(model_apply_all(s, seq![e1]) == s1);
    assert(evs.last() == e2);
    assert(model_apply_all(s, evs) == model_apply(s1, e2));
    assert(s1.well_formed()) by {
        assert forall|i: int| 0 <= i < s1.workspaces.len() implies #[trigger] s1.workspaces[i].id == i + 1 by {
            assert(s.workspaces[i].id == i + 1);
        }
    }
    lemma_focus_event_focuses_one(s1, on);
}

} // verus!
