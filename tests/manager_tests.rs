use gridwm::bar::{desktop_widget, get_widgets, widget_kind, Widget, WidgetContents};
use gridwm::command::parse_command;
use gridwm::config::{Bar, General, Keybinds, Keyboard, Start};
use gridwm::keys::{
    decode_row, lock_variants, match_key, parse_action, parse_keybind, parse_modifier, Action,
    Binding, BuiltinAction, CONTROL_MASK, KEYSYM_RETURN, KEYSYM_SPACE, LOCK_MASK, MOD1_MASK,
    MOD2_MASK, MOD4_MASK, SHIFT_MASK,
};
use gridwm::manager::{
    climb_step, type_tileable, ButtonKind, Event, ManagerSettings, WindowManager, WindowType,
};
use gridwm::pointer::{drag_target, scale_down, scale_up, DragState, Geometry};
use gridwm::status::{pace, refresh_pause, StatusLink};
use gridwm::tiling::{grid_columns, tile, TileRect};
use gridwm::windows::WindowSets;

fn settings(bindings: Vec<Binding>) -> ManagerSettings {
    ManagerSettings {
        screen_width: 1920,
        screen_height: 1080,
        bar_enabled: true,
        bar_height: 20,
        scale_step: 20,
        move_mod: "SUPER".to_string(),
        resize_mod: "SUPER".to_string(),
        bindings,
    }
}

fn overlaps(a: &TileRect, b: &TileRect) -> bool {
    a.x < b.x + b.w && b.x < a.x + a.w && a.y < b.y + b.h && b.y < a.y + a.h
}

#[test]
fn tile_single_window_covers_usable_area() {
    let r = tile(1, 1920, 1080, 20);
    assert_eq!(r, vec![TileRect { x: 0, y: 20, w: 1920, h: 1060 }]);
}

#[test]
fn tile_four_windows_make_two_by_two() {
    let r = tile(4, 1000, 800, 0);
    assert_eq!(
        r,
        vec![
            TileRect { x: 0, y: 0, w: 500, h: 400 },
            TileRect { x: 500, y: 0, w: 500, h: 400 },
            TileRect { x: 0, y: 400, w: 500, h: 400 },
            TileRect { x: 500, y: 400, w: 500, h: 400 },
        ]
    );
}

#[test]
fn tile_counts_sizes_and_overlap() {
    for n in 1..=30usize {
        let r = tile(n, 1366, 768, 20);
        assert_eq!(r.len(), n);
        let cols = grid_columns(n);
        assert!(cols * cols >= n && (cols - 1) * (cols - 1) < n);
        for a in 0..n {
            assert!(r[a].w > 0 && r[a].h > 0);
            for b in 0..n {
                if a != b {
                    assert!(!overlaps(&r[a], &r[b]));
                }
            }
        }
    }
}

#[test]
fn tile_truncates_and_keeps_slack() {
    let r = tile(3, 1000, 701, 0);
    assert_eq!(grid_columns(3), 2);
    assert_eq!(r[0], TileRect { x: 0, y: 0, w: 500, h: 350 });
    assert_eq!(r[2], TileRect { x: 0, y: 350, w: 500, h: 350 });
}

#[test]
fn tile_zero_windows_and_short_screen() {
    assert!(tile(0, 100, 100, 20).is_empty());
    let r = tile(1, 100, 10, 20);
    assert_eq!(r[0], TileRect { x: 0, y: 20, w: 100, h: 0 });
}

#[test]
fn grid_columns_is_ceil_sqrt() {
    assert_eq!(grid_columns(0), 0);
    assert_eq!(grid_columns(1), 1);
    assert_eq!(grid_columns(2), 2);
    assert_eq!(grid_columns(4), 2);
    assert_eq!(grid_columns(5), 3);
    assert_eq!(grid_columns(9), 3);
    assert_eq!(grid_columns(10), 4);
}

#[test]
fn keybind_super_return() {
    assert_eq!(parse_keybind("SUPER+RETURN"), Some((MOD4_MASK, KEYSYM_RETURN)));
    assert_eq!(parse_keybind("super + enter"), Some((MOD4_MASK, KEYSYM_RETURN)));
}

#[test]
fn keybind_ctrl_shift_q() {
    assert_eq!(
        parse_keybind("ctrl+shift+Q"),
        Some((CONTROL_MASK | SHIFT_MASK, 'Q' as u64))
    );
    assert_eq!(
        parse_keybind("control+shift+q"),
        Some((CONTROL_MASK | SHIFT_MASK, 'Q' as u64))
    );
}

#[test]
fn keybind_unknown_name_is_none() {
    assert_eq!(parse_keybind("SUPER+FOO"), None);
    assert_eq!(parse_keybind("SUPER+SHIFT"), None);
    assert_eq!(parse_keybind(""), None);
}

#[test]
fn keybind_names_and_last_key_wins() {
    assert_eq!(parse_keybind("alt+space"), Some((MOD1_MASK, KEYSYM_SPACE)));
    assert_eq!(parse_keybind("win+a+b"), Some((MOD4_MASK, 'B' as u64)));
    assert_eq!(parse_keybind("x"), Some((0, 'X' as u64)));
}

#[test]
fn modifier_names() {
    assert_eq!(parse_modifier("super"), Some(MOD4_MASK));
    assert_eq!(parse_modifier(" Alt "), Some(MOD1_MASK));
    assert_eq!(parse_modifier("hyper"), None);
}

#[test]
fn grab_variants_cover_lock_states() {
    assert_eq!(
        lock_variants(MOD4_MASK),
        vec![
            MOD4_MASK,
            MOD4_MASK | LOCK_MASK,
            MOD4_MASK | MOD2_MASK,
            MOD4_MASK | LOCK_MASK | MOD2_MASK
        ]
    );
}

#[test]
fn action_tokens() {
    assert_eq!(parse_action("close"), Some(BuiltinAction::Close));
    assert_eq!(parse_action("desktop_left"), Some(BuiltinAction::DesktopLeft));
    assert_eq!(parse_action("desktop_right"), Some(BuiltinAction::DesktopRight));
    assert_eq!(parse_action("unfloat"), Some(BuiltinAction::Unfloat));
    assert_eq!(parse_action("explode"), None);
}

#[test]
fn rows_decode_or_are_skipped() {
    let row = vec!["SUPER+Q".to_string(), "close".to_string()];
    let k = decode_row(&row, false).unwrap();
    assert_eq!((k.mask, k.keysym), (MOD4_MASK, 'Q' as u64));
    assert!(matches!(k.action, Action::Builtin(BuiltinAction::Close)));
    let row = vec!["SUPER+T".to_string(), "xterm -e top".to_string()];
    let k = decode_row(&row, true).unwrap();
    assert!(matches!(k.action, Action::Exec(ref c) if c == "xterm -e top"));
    assert!(decode_row(&vec!["SUPER+Q".to_string()], false).is_none());
    assert!(decode_row(&vec!["SUPER+FOO".to_string(), "close".to_string()], false).is_none());
    assert!(decode_row(&vec!["SUPER+Q".to_string(), "nope".to_string()], false).is_none());
}

fn sample_bindings() -> Vec<Binding> {
    vec![
        Binding { mask: MOD4_MASK, keycode: 24, action: Action::Builtin(BuiltinAction::Close) },
        Binding { mask: MOD4_MASK, keycode: 24, action: Action::Builtin(BuiltinAction::Unfloat) },
        Binding { mask: MOD4_MASK, keycode: 24, action: Action::Exec("a".to_string()) },
        Binding { mask: MOD4_MASK, keycode: 25, action: Action::Exec("b".to_string()) },
        Binding { mask: MOD4_MASK, keycode: 24, action: Action::Exec("c".to_string()) },
        Binding { mask: MOD4_MASK, keycode: 114, action: Action::Builtin(BuiltinAction::DesktopRight) },
        Binding { mask: MOD4_MASK, keycode: 113, action: Action::Builtin(BuiltinAction::DesktopLeft) },
        Binding { mask: 0, keycode: 30, action: Action::Builtin(BuiltinAction::Unfloat) },
    ]
}

#[test]
fn key_match_ignores_lock_bits() {
    let bs = sample_bindings();
    let m = match_key(&bs, MOD4_MASK | LOCK_MASK | MOD2_MASK, 24);
    assert_eq!(m.builtin, Some(BuiltinAction::Close));
    assert_eq!(m.commands, vec!["a".to_string(), "c".to_string()]);
    let m = match_key(&bs, MOD4_MASK | SHIFT_MASK, 24);
    assert_eq!(m.builtin, None);
    assert!(m.commands.is_empty());
}

#[test]
fn window_set_round_trip() {
    let mut s = WindowSets::new();
    s.insert(0, 7);
    assert!(s.contains(0, 7));
    s.remove(0, 7);
    assert!(s.get_desktop(0).is_empty());
}

#[test]
fn removing_floating_window_clears_it() {
    let mut s = WindowSets::new();
    s.insert(2, 9);
    s.mark_floating(9);
    assert!(s.is_floating(9));
    s.remove(2, 9);
    assert!(!s.is_floating(9));
    assert!(!s.contains(2, 9));
}

#[test]
fn window_joins_only_one_desktop() {
    let mut s = WindowSets::new();
    s.insert(0, 5);
    s.insert(3, 5);
    assert!(!s.contains(0, 5));
    assert!(s.contains(3, 5));
    s.insert(1, 2);
    s.insert(1, 1);
    assert_eq!(s.windows_of(1), vec![1, 2]);
    assert!(s.windows_of(8).is_empty());
}

#[test]
fn drag_moves_by_pointer_travel() {
    let mut wm = WindowManager::new(settings(vec![]));
    wm.create_window(42);
    wm.begin_drag(42, 300, 200, 50, 60);
    assert!(wm.sets.is_floating(42));
    assert_eq!(wm.drag_motion(60, 55), Some((42, 310, 195)));
    wm.end_drag();
    assert!(wm.drag_state.is_none());
    assert_eq!(wm.drag_motion(70, 70), None);
}

#[test]
fn drag_target_formula() {
    let s = DragState { window: 1, start_win_x: -5, start_win_y: 10, start_mouse_x: 100, start_mouse_y: 100 };
    assert_eq!(drag_target(&s, 90, 130), (-15, 40));
}

#[test]
fn scale_down_twice_stops_at_floor() {
    let g = Geometry { x: 0, y: 0, w: 150, h: 150 };
    let a = scale_down(g, 20);
    assert_eq!((a.x, a.y, a.w, a.h), (10, 10, 130, 130));
    let b = scale_down(Geometry { x: a.x as i32, y: a.y as i32, w: a.w as i32, h: a.h as i32 }, 20);
    assert_eq!((b.x, b.y, b.w, b.h), (20, 20, 110, 110));
    let c = scale_down(Geometry { x: 20, y: 20, w: 110, h: 110 }, 20);
    assert_eq!((c.x, c.y, c.w, c.h), (25, 25, 100, 100));
}

#[test]
fn scale_up_clamps_to_screen_and_a_half() {
    let g = Geometry { x: 100, y: 100, w: 200, h: 1500 };
    let r = scale_up(g, 20, 1000, 1000);
    assert_eq!((r.x, r.y, r.w, r.h), (90, 100, 220, 1500));
    let r = scale_up(Geometry { x: 0, y: 0, w: 1495, h: 100 }, 20, 1000, 1000);
    assert_eq!((r.w, r.x), (1500, -2));
}

#[test]
fn manager_scale_marks_floating() {
    let mut wm = WindowManager::new(settings(vec![]));
    wm.create_window(3);
    let r = wm.scale_window(3, Geometry { x: 0, y: 0, w: 150, h: 150 }, false);
    assert_eq!((r.w, r.h), (130, 130));
    assert!(wm.sets.is_floating(3));
}

#[test]
fn change_to_current_desktop_is_noop() {
    let mut wm = WindowManager::new(settings(vec![]));
    wm.create_window(1);
    assert!(wm.change_desktop(0).is_none());
    assert_eq!(wm.current_desktop, 0);
    assert!(wm.on_current_desktop(1));
}

#[test]
fn change_desktop_lists_windows() {
    let mut wm = WindowManager::new(settings(vec![]));
    wm.create_window(4);
    wm.create_window(2);
    let sw = wm.change_desktop(1).unwrap();
    assert_eq!(sw.unmap, vec![2, 4]);
    assert!(sw.map.is_empty());
    assert_eq!(wm.current_desktop, 1);
    wm.create_window(9);
    let sw = wm.change_desktop(0).unwrap();
    assert_eq!(sw.unmap, vec![9]);
    assert_eq!(sw.map, vec![2, 4]);
}

#[test]
fn key_actions_drive_desktops_and_floating() {
    let mut wm = WindowManager::new(settings(sample_bindings()));
    let r = wm.handle_key(MOD4_MASK, 113, 0, 1);
    assert!(r.switch.is_none());
    assert_eq!(wm.current_desktop, 0);
    let r = wm.handle_key(MOD4_MASK, 114, 0, 1);
    assert!(r.switch.is_some());
    assert_eq!(wm.current_desktop, 1);
    wm.create_window(6);
    wm.begin_drag(6, 0, 0, 0, 0);
    wm.end_drag();
    let r = wm.handle_key(0, 30, 0, 1);
    assert!(r.relayout);
    assert!(!wm.sets.is_floating(6));
    let r = wm.handle_key(MOD4_MASK, 24, 77, 1);
    assert_eq!(r.close, Some(77));
    assert_eq!(r.commands, vec!["a".to_string(), "c".to_string()]);
    let r = wm.handle_key(MOD4_MASK, 24, 1, 1);
    assert_eq!(r.close, None);
}

#[test]
fn layout_skips_floating_and_special_types() {
    let mut wm = WindowManager::new(settings(vec![]));
    for w in [10u64, 11, 12, 13] {
        wm.create_window(w);
    }
    wm.begin_drag(12, 0, 0, 0, 0);
    let ws = wm.current_windows();
    assert_eq!(ws, vec![10, 11, 12, 13]);
    let kinds = vec![None, Some(WindowType::Dock), None, Some(WindowType::Other)];
    let p = wm.layout(&ws, &kinds);
    assert_eq!(p.len(), 2);
    assert_eq!(p[0].window, 10);
    assert_eq!(p[1].window, 13);
    assert_eq!(p[0].rect, TileRect { x: 0, y: 20, w: 960, h: 1060 });
    assert_eq!(p[1].rect, TileRect { x: 960, y: 20, w: 960, h: 1060 });
}

#[test]
fn window_types_that_are_not_tiled() {
    assert!(type_tileable(None));
    assert!(type_tileable(Some(WindowType::Other)));
    assert!(!type_tileable(Some(WindowType::Notification)));
    assert!(!type_tileable(Some(WindowType::Dock)));
    assert!(!type_tileable(Some(WindowType::Dialog)));
    assert!(!type_tileable(Some(WindowType::Splash)));
}

#[test]
fn buttons_classify() {
    let wm = WindowManager::new(settings(vec![]));
    assert_eq!(wm.classify_button(MOD4_MASK, 1), ButtonKind::Drag);
    assert_eq!(wm.classify_button(MOD4_MASK | LOCK_MASK, 4), ButtonKind::ScaleUp);
    assert_eq!(wm.classify_button(MOD4_MASK, 5), ButtonKind::ScaleDown);
    assert_eq!(wm.classify_button(0, 1), ButtonKind::Click);
    assert_eq!(wm.classify_button(MOD4_MASK, 3), ButtonKind::Click);
}

#[test]
fn toplevel_climb_stops_at_root() {
    assert_eq!(climb_step(0, 1), None);
    assert_eq!(climb_step(1, 1), None);
    assert_eq!(climb_step(5, 1), Some(5));
}

#[test]
fn status_request_answered_next_poll() {
    let widgets = vec!["desktop".to_string(), "time".to_string()];
    let mut link = StatusLink::new(String::new());
    assert!(link.poll(None, true, &widgets, 3).is_none());
    link.note_request();
    let snap = link.poll(Some("new".to_string()), true, &widgets, 3).unwrap();
    assert_eq!(snap.widgets, widgets);
    assert_eq!(snap.desktop, 3);
    assert_eq!(link.bar_text, "new");
    assert!(link.poll(Some("x".to_string()), false, &widgets, 3).is_none());
    assert_eq!(link.bar_text, "new");
}

#[test]
fn loop_pacing() {
    let p = pace(5, 2, 3);
    assert_eq!((p.sleep_ms, p.overruns, p.warn), (3, 0, false));
    let p = pace(5, 7, 5);
    assert_eq!((p.sleep_ms, p.overruns, p.warn), (0, 6, true));
    let p = pace(5, 5, 0);
    assert_eq!((p.sleep_ms, p.overruns, p.warn), (0, 1, false));
    assert_eq!(refresh_pause(1000, 250), Some(750));
    assert_eq!(refresh_pause(1000, 1000), None);
}

#[test]
fn desktop_widget_numbers_from_one() {
    assert_eq!(desktop_widget(0), "Desktop 1");
    assert_eq!(desktop_widget(9), "Desktop 10");
    assert_eq!(desktop_widget(1233), "Desktop 1234");
}

#[test]
fn widgets_join_and_skip_unknown() {
    let contents = WidgetContents {
        time: "Mon, 1 May 2023, 10:00:00".to_string(),
        cpu: "CPU: 5%".to_string(),
        mem: "Memory: 1.0/8.0 GiB".to_string(),
        battery: "No batteries found".to_string(),
    };
    let ws = vec!["desktop".to_string(), "weather".to_string(), "cpu".to_string(), "battery".to_string()];
    assert_eq!(get_widgets(&ws, &2, &contents), "Desktop 3 | CPU: 5% | No batteries found");
    assert_eq!(get_widgets(&vec![], &0, &contents), "");
    assert_eq!(get_widgets(&vec!["weather".to_string()], &0, &contents), "");
    assert_eq!(widget_kind(&"mem".to_string()), Some(Widget::Mem));
    assert_eq!(widget_kind(&"Mem".to_string()), None);
}

#[test]
fn command_lines_split_like_a_shell() {
    let c = parse_command("xterm -e 'htop -d 5'").unwrap();
    assert_eq!(c.program, "xterm");
    assert_eq!(c.args, vec!["-e".to_string(), "htop -d 5".to_string()]);
    assert!(parse_command("echo 'unterminated").is_none());
    assert!(parse_command("   ").is_none());
}

#[test]
fn config_defaults() {
    let g = General::default();
    assert_eq!((g.update_ms, g.scale_steps), (5, 20));
    assert_eq!(Keyboard::default().layout, "");
    let b = Bar::default();
    assert_eq!((b.height, b.enable, b.update_ms), (20, true, 1000));
    assert_eq!(b.widgets, vec!["desktop".to_string()]);
    let k = Keybinds::default();
    assert_eq!(k.move_mod, "SUPER");
    assert!(k.gridwm.is_empty() && k.exec_binds.is_empty());
    assert!(Start::default().jobs.is_empty());
    assert_eq!(gridwm::config::Desktop::default().color, "#464646");
}

#[test]
fn events_route_to_model_and_effects() {
    let mut wm = WindowManager::new(settings(vec![]));
    let r = wm.on_event(Event::MapRequest(8));
    assert_eq!((r.map, r.focus, r.layout, r.release_pointer), (Some(8), None, false, false));
    assert!(wm.on_current_desktop(8));
    let r = wm.on_event(Event::Mapped(8));
    assert_eq!((r.map, r.focus, r.layout), (None, Some(8), true));
    let r = wm.on_event(Event::Mapped(99));
    assert_eq!((r.focus, r.layout), (None, true));
    wm.begin_drag(8, 10, 10, 100, 100);
    let r = wm.on_event(Event::Motion(110, 95));
    assert_eq!(r.move_to, Some((8, 20, 5)));
    let r = wm.on_event(Event::Release);
    assert!(r.release_pointer);
    assert!(wm.drag_state.is_none());
    assert_eq!(wm.on_event(Event::Motion(0, 0)).move_to, None);
    let r = wm.on_event(Event::Unmapped(8));
    assert!(r.layout);
    assert!(!wm.on_current_desktop(8));
    assert!(!wm.sets.is_floating(8));
}
