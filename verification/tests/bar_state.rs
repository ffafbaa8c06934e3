use rebar::font::{font_candidates, resolve_font_path, FontCandidate};
use rebar::ipc::IPCEvent;
use rebar::rebar::{clock_text, Rebar};
use rebar::clock::LocalReading;
use rebar::state::{set_focused_workspace, update_workspace, update_workspace_icons, RebarState, WorkspaceRole};

fn icons(state: &RebarState) -> Vec<String> {
    state.workspaces().iter().map(|w| w.icon.clone()).collect()
}

fn focused(state: &RebarState) -> Vec<u8> {
    state.workspaces().iter().filter(|w| w.focused).map(|w| w.id).collect()
}

#[test]
fn a_fresh_state() {
    let state = RebarState::default();
    let ws = state.workspaces();
    assert_eq!(ws.len(), 9);
    for (i, w) in ws.iter().enumerate() {
        assert_eq!(w.id as usize, i + 1);
        assert_eq!(w.icon, format!(" {} ", i + 1));
        assert!(!w.active && !w.focused);
        assert_eq!(w.role(), WorkspaceRole::Inactive);
    }
    assert_eq!(state.focused_title(), "GlazeWM - Rebar");
    assert!(!state.paused());
    assert!(state.horizontal());
    assert_eq!(state.direction_label(), "H");
    assert_eq!(state.paused_label(), "");
    // The clock reads `%m/%d/%Y %H:%M`.
    let t = state.time();
    assert_eq!(t.len(), 16, "{}", t);
    assert_eq!(&t[2..3], "/");
    assert_eq!(&t[5..6], "/");
    assert_eq!(&t[13..14], ":");
}

#[test]
fn update_workspace_sets_flags_and_ignores_bad_numbers() {
    let mut state = RebarState::default();
    update_workspace(&mut state, 2, true, true);
    let w = &state.workspaces()[1];
    assert!(w.active && w.focused);
    assert_eq!(w.icon, " 2 ");
    assert_eq!(w.role(), WorkspaceRole::Focused);
    update_workspace(&mut state, 0, true, true);
    update_workspace(&mut state, 10, true, true);
    assert_eq!(focused(&state), vec![2]);
    update_workspace_icons(&mut state);
    assert_eq!(state.workspaces()[1].icon, "[2]");
}

#[test]
fn set_focused_workspace_focuses_one_or_none() {
    let mut state = RebarState::default();
    update_workspace(&mut state, 1, true, true);
    update_workspace(&mut state, 4, true, true);
    set_focused_workspace(&mut state, 4, true);
    assert_eq!(focused(&state), vec![4]);
    set_focused_workspace(&mut state, 12, false);
    assert_eq!(focused(&state), vec![4]);
    set_focused_workspace(&mut state, 4, false);
    assert!(focused(&state).is_empty());
}

#[test]
fn events_update_the_state() {
    let mut state = RebarState::default();
    state.apply_event(&IPCEvent::WorkspaceUpdate { id: 3, active: Some(true), focused: Some(true) });
    state.apply_event(&IPCEvent::WorkspaceUpdate { id: 5, active: Some(true), focused: None });
    assert_eq!(icons(&state), vec![" 1 ", " 2 ", "[3]", " 4 ", " 5*", " 6 ", " 7 ", " 8 ", " 9 "]);
    assert_eq!(state.workspaces()[4].role(), WorkspaceRole::Active);
    state.apply_event(&IPCEvent::WorkspaceUpdate { id: 5, active: Some(true), focused: Some(true) });
    assert_eq!(focused(&state), vec![5]);
    assert_eq!(icons(&state)[2], " 3*");
    state.apply_event(&IPCEvent::WorkspaceUpdate { id: 5, active: Some(false), focused: Some(false) });
    assert!(focused(&state).is_empty());
    assert_eq!(icons(&state)[4], " 5 ");
    state.apply_event(&IPCEvent::FocusedTitle("Terminal".to_string()));
    state.apply_event(&IPCEvent::Pause(true));
    state.apply_event(&IPCEvent::TilingDirection(false));
    assert_eq!(state.focused_title(), "Terminal");
    assert_eq!(state.paused_label(), "PAUSED");
    assert_eq!(state.direction_label(), "V");
}

#[test]
fn at_most_one_workspace_holds_the_focus() {
    let mut state = RebarState::default();
    let events = vec![
        IPCEvent::WorkspaceUpdate { id: 1, active: Some(true), focused: Some(true) },
        IPCEvent::WorkspaceUpdate { id: 2, active: Some(true), focused: Some(true) },
        IPCEvent::WorkspaceUpdate { id: 1, active: Some(true), focused: None },
        IPCEvent::WorkspaceUpdate { id: 7, active: None, focused: Some(true) },
        IPCEvent::WorkspaceUpdate { id: 42, active: Some(true), focused: Some(true) },
    ];
    for e in &events {
        state.apply_event(e);
        assert!(focused(&state).len() <= 1);
        for w in state.workspaces() {
            let expected = if w.focused {
                format!("[{}]", w.id)
            } else if w.active {
                format!(" {}*", w.id)
            } else {
                format!(" {} ", w.id)
            };
            assert_eq!(w.icon, expected);
        }
    }
    assert_eq!(focused(&state), vec![7]);
}

#[test]
fn the_bar_applies_what_arrives_on_its_channel() {
    let (tx, rx) = std::sync::mpsc::channel();
    let mut bar = Rebar::new(rx);
    assert_eq!(bar.view_state().focused_title(), "GlazeWM - Rebar");
    tx.send(IPCEvent::FocusedTitle("Browser".to_string())).unwrap();
    tx.send(IPCEvent::WorkspaceUpdate { id: 8, active: Some(true), focused: Some(true) }).unwrap();
    bar.handle_ipc();
    assert_eq!(bar.view_state().focused_title(), "Browser");
    assert_eq!(focused(bar.view_state()), vec![8]);
    bar.handle_ipc();
    assert_eq!(focused(bar.view_state()), vec![8]);
    drop(tx);
    bar.handle_ipc();
    assert_eq!(bar.view_state().focused_title(), "Browser");
}

#[test]
fn the_clock_is_read_at_most_once_a_minute() {
    let (_tx, rx) = std::sync::mpsc::channel();
    let mut bar = Rebar::new(rx);
    let before = bar.view_state().time().to_string();
    bar.update_time(true, "%m/%d/%Y %H:%M");
    assert_eq!(bar.view_state().time(), before);
    assert_eq!(bar.view_state().tick(), 0);
    bar.advance_clock(59_999_999_999, true, "%m/%d/%Y %H:%M");
    assert_eq!(bar.view_state().time(), before);
    assert_eq!(bar.view_state().tick(), 0);
}

#[test]
fn after_a_minute_the_clock_is_read_again() {
    let (_tx, rx) = std::sync::mpsc::channel();
    let mut bar = Rebar::new(rx);
    bar.advance_clock(60_000_000_000, true, "%m/%d/%Y %H:%M");
    let fuzzy = bar.view_state().time().to_string();
    assert!(fuzzy.contains(", "), "{}", fuzzy);
    assert_eq!(bar.view_state().tick(), 60_000_000_000);
    // Less than a minute after the last reading: nothing changes.
    bar.advance_clock(100_000_000_000, false, "%Y");
    assert_eq!(bar.view_state().time(), fuzzy);
    assert_eq!(bar.view_state().tick(), 60_000_000_000);
    // An earlier reading counts as no time at all.
    bar.advance_clock(1, false, "%Y");
    assert_eq!(bar.view_state().tick(), 60_000_000_000);
    bar.advance_clock(120_000_000_000, false, "%Y");
    let year = bar.view_state().time().to_string();
    assert_eq!(year.len(), 4, "{}", year);
    assert!(year.parse::<u32>().is_ok());
    assert_eq!(bar.view_state().tick(), 120_000_000_000);
    bar.advance_clock(3_600_000_000_000, false, "%Q%");
    assert_eq!(bar.view_state().time(), year);
    assert_eq!(bar.view_state().tick(), 3_600_000_000_000);
}

#[test]
fn font_candidates_in_order() {
    assert!(font_candidates("   ", true).is_empty());
    assert_eq!(font_candidates("Cascadia Code", false), vec![FontCandidate::AsGiven]);
    assert_eq!(
        font_candidates(" Cascadia Code ", true),
        vec![
            FontCandidate::AsGiven,
            FontCandidate::InFontsDir("Cascadia Code.ttf".to_string()),
            FontCandidate::InFontsDir("Cascadia Code.ttc".to_string()),
            FontCandidate::InFontsDir("Cascadia Code.otf".to_string()),
            FontCandidate::InFontsDir("CascadiaCode.ttf".to_string()),
            FontCandidate::InFontsDir("CascadiaCode.ttc".to_string()),
            FontCandidate::InFontsDir("CascadiaCode.otf".to_string()),
        ]
    );
}

#[test]
fn the_first_existing_font_file_is_chosen() {
    assert_eq!(resolve_font_path("", true, &vec![true]), None);
    assert_eq!(resolve_font_path("Arial", true, &vec![true, true]), Some(FontCandidate::AsGiven));
    assert_eq!(
        resolve_font_path("Arial", true, &vec![false, false, true, true]),
        Some(FontCandidate::InFontsDir("Arial.ttc".to_string()))
    );
    assert_eq!(resolve_font_path("Arial", false, &vec![false, true]), None);
    assert_eq!(resolve_font_path("Arial", true, &vec![false; 7]), None);
    assert_eq!(resolve_font_path("Arial", true, &vec![]), None);
}

#[test]
fn clock_text_for_a_reading() {
    let reading = LocalReading {
        year: 2024,
        month: 3,
        day: 9,
        weekday: 5,
        hour: 17,
        minute: 41,
        second: 7,
        nanosecond: 0,
        offset_seconds: 3600,
    };
    assert_eq!(clock_text(&reading, true, "%H", "old"), "SAT MAR 9, TWENTY to SIX");
    assert_eq!(clock_text(&reading, false, "%m/%d/%Y %H:%M", "old"), "03/09/2024 17:41");
    assert_eq!(clock_text(&reading, false, "%H:%M %z", "old"), "17:41 +0100");
    assert_eq!(clock_text(&reading, false, "%Q%", "old"), "old");
}
