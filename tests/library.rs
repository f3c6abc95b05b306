use rula::app::{App, InputMode, Mode};
use rula::discovery::{desktop_fields, search_dir_allowed_exec, DesktopFields, Discovery, PathFile};
use rula::entries::{enrich, identities, usable_cache, AppEntry, AppIdentity};
use rula::input::{Action, InputHandler, KeyCode, KeyEvent};
use rula::launch::{app_launch, file_launch, spawn_line, strip_field_codes};
use rula::order::text_le_exec;
use rula::prefs::{PrefRecord, PrefStore};
use rula::search::{fuzzy_search_apps, search_apps, FileSearcher};
use rula::seed::seed_names;
use rula::terminal::Terminal;
use rula::text::push_decimal;
use rula::theme::{styled, styled_bg, Color, RosePineMoon, Style};
use rula::ui::{last_slash, Ui};
use rula::words::first_word_of;

fn id(name: &str, command: &str, cli: bool) -> AppIdentity {
    AppIdentity { name: name.to_string(), command: command.to_string(), is_cli_only: cli }
}

fn rec(is_tui: bool, score: i32, usage: i32, last_used: u64) -> PrefRecord {
    PrefRecord { is_tui, score, usage, last_used }
}

fn entry(name: &str, total: i64, dormant: bool) -> AppEntry {
    AppEntry {
        name: name.to_string(),
        command: name.to_string(),
        is_cli_only: false,
        total_score: total,
        is_dormant: dormant,
    }
}

fn names(v: &[AppEntry]) -> Vec<String> {
    v.iter().map(|e| e.name.clone()).collect()
}

const NOW: u64 = 1_700_000_000;

#[test]
fn color_codes_are_truecolor_sequences() {
    let c = Color::new(35, 33, 54);
    assert_eq!(c.fg(), "\x1b[38;2;35;33;54m");
    assert_eq!(c.bg(), "\x1b[48;2;35;33;54m");
    assert_eq!(Color::new(0, 7, 255).fg(), "\x1b[38;2;0;7;255m");
}

#[test]
fn style_apply_orders_attributes() {
    let st = Style::new().underline().bold().fg(Color::new(1, 2, 3)).bg(Color::new(4, 5, 6));
    assert_eq!(st.apply("x"), "\x1b[1m\x1b[4m\x1b[38;2;1;2;3m\x1b[48;2;4;5;6mx\x1b[0m");
    assert_eq!(Style::new().apply("plain"), "plain\x1b[0m");
    assert_eq!(Style::new().dim().italic().apply(""), "\x1b[2m\x1b[3m\x1b[0m");
    assert_eq!(Style::default(), Style::new());
}

#[test]
fn styled_helpers() {
    let love = RosePineMoon::love();
    assert_eq!(styled("q", love), "\x1b[38;2;235;111;146mq\x1b[0m");
    assert_eq!(
        styled_bg("b", love, RosePineMoon::base()),
        "\x1b[38;2;235;111;146m\x1b[48;2;35;33;54mb\x1b[0m"
    );
}

#[test]
fn decimal_digits() {
    let mut s = String::from("n=");
    push_decimal(&mut s, 4096);
    assert_eq!(s, "n=4096");
    let mut z = String::new();
    push_decimal(&mut z, 0);
    assert_eq!(z, "0");
}

#[test]
fn record_launch_adds_a_use() {
    let mut store = PrefStore::from_rows(vec![("vim".to_string(), rec(true, 5, 2, 1000))]);
    store.record_launch("vim", 2000);
    assert_eq!(store.lookup("vim"), rec(true, 5, 3, 2000));
    store.record_launch("new", 3000);
    assert_eq!(store.lookup("new"), rec(false, 0, 1, 3000));
}

#[test]
fn set_tui_on_absent_name_creates_row() {
    let mut store = PrefStore::new();
    assert!(!store.has_entry("htop"));
    store.set_tui("htop", true);
    assert!(store.has_entry("htop"));
    assert_eq!(store.lookup("htop"), rec(true, 0, 0, 0));
    assert!(store.is_tui("htop"));
    store.set_tui("htop", false);
    assert_eq!(store.lookup("htop"), rec(false, 0, 0, 0));
}

#[test]
fn set_base_score_keeps_other_fields() {
    let mut store = PrefStore::from_rows(vec![("git".to_string(), rec(true, 0, 4, 77))]);
    store.set_base_score("git", 50);
    assert_eq!(store.lookup("git"), rec(true, 50, 4, 77));
    store.set_base_score("ls", 50);
    assert_eq!(store.lookup("ls"), rec(false, 50, 0, 0));
}

#[test]
fn lookup_of_absent_name_is_default() {
    let store = PrefStore::new();
    assert_eq!(store.lookup("nothing"), PrefRecord::defaults());
    assert_eq!(PrefRecord::defaults(), rec(false, 0, 0, 0));
}

#[test]
fn later_rows_replace_earlier_ones() {
    let store = PrefStore::from_rows(vec![
        ("a".to_string(), rec(false, 1, 1, 1)),
        ("a".to_string(), rec(true, 2, 2, 2)),
    ]);
    assert_eq!(store.lookup("a"), rec(true, 2, 2, 2));
}

#[test]
fn compose_total_and_dormancy() {
    assert_eq!(rec(false, 50, 3, 0).compose(NOW), (80, false));
    assert_eq!(rec(false, -5, 0, NOW).compose(NOW), (-5, false));
    assert_eq!(rec(false, i32::MAX, i32::MAX, 0).compose(NOW).0, i32::MAX as i64 * 11);
}

#[test]
fn dormancy_boundary() {
    assert!(rec(false, 0, 0, NOW - 2_592_001).compose(NOW).1);
    assert!(!rec(false, 0, 0, NOW - 2_592_000).compose(NOW).1);
    assert!(!rec(false, 0, 0, 0).compose(NOW).1);
    assert!(!rec(false, 0, 0, NOW + 10).compose(NOW).1);
}

#[test]
fn usage_counter_stops_at_its_limit() {
    let mut store = PrefStore::from_rows(vec![("x".to_string(), rec(false, 0, i32::MAX, 1))]);
    store.record_launch("x", 9);
    assert_eq!(store.lookup("x"), rec(false, 0, i32::MAX, 9));
}

#[test]
fn enrich_scores_and_orders() {
    let store = PrefStore::from_rows(vec![
        ("b".to_string(), rec(false, 0, 2, NOW)),
        ("c".to_string(), rec(false, 20, 0, 0)),
        ("d".to_string(), rec(false, 0, 1, NOW - 3_000_000)),
    ]);
    let ids = vec![id("d", "d", true), id("a", "a", true), id("c", "c", false), id("b", "b", false)];
    let out = enrich(&ids, &store, NOW);
    assert_eq!(names(&out), vec!["b", "c", "d", "a"]);
    assert_eq!(out[0].total_score, 20);
    assert_eq!(out[1].total_score, 20);
    assert_eq!(out[2].total_score, 10);
    assert!(out[2].is_dormant);
    assert_eq!(out[3].total_score, 0);
    assert!(!out[3].is_dormant);
}

#[test]
fn enrich_breaks_ties_by_case_sensitive_name() {
    let store = PrefStore::new();
    let ids = vec![id("b", "b", true), id("B", "B", true), id("ab", "ab", true), id("a", "a", true)];
    let out = enrich(&ids, &store, NOW);
    assert_eq!(names(&out), vec!["B", "a", "ab", "b"]);
}

#[test]
fn enrichment_ignores_stale_values_and_is_repeatable() {
    let store = PrefStore::from_rows(vec![("x".to_string(), rec(false, 1, 1, 0))]);
    let first = enrich(&vec![id("x", "x", true)], &store, NOW);
    let again = enrich(&identities(&first), &store, NOW);
    assert_eq!(first, again);
    assert_eq!(again[0].total_score, 11);
    assert_eq!(identities(&again), vec![id("x", "x", true)]);
}

#[test]
fn cache_use_decision() {
    assert!(usable_cache(None).is_none());
    assert!(usable_cache(Some(Vec::new())).is_none());
    let v = vec![id("a", "b", false)];
    assert_eq!(usable_cache(Some(v.clone())), Some(v));
}

#[test]
fn text_order_is_by_code_point() {
    assert!(text_le_exec("Z", "a"));
    assert!(!text_le_exec("a", "Z"));
    assert!(text_le_exec("ab", "abc"));
    assert!(text_le_exec("", ""));
    assert!(!text_le_exec("b", "abc"));
}

#[test]
fn app_search_drops_non_matches() {
    let apps = vec![entry("firefox", 0, false), entry("htop", 10, false), entry("thunar", 5, false)];
    let out = fuzzy_search_apps("fire", &apps);
    assert_eq!(names(&out), vec!["firefox"]);
    let none = fuzzy_search_apps("zzzz", &apps);
    assert!(none.is_empty());
}

#[test]
fn app_search_prefers_usage_on_equal_affinity() {
    let apps = vec![entry("vim", 0, false), entry("vim", 30, false)];
    let out = fuzzy_search_apps("vim", &apps);
    assert_eq!(out.len(), 2);
    assert_eq!(out[0].total_score, 30);
    assert_eq!(out[1].total_score, 0);
}

#[test]
fn app_search_caps_at_fifty() {
    let apps: Vec<AppEntry> = (0..60).map(|i| entry(&format!("app{}", i), i, false)).collect();
    let out = fuzzy_search_apps("app", &apps);
    assert_eq!(out.len(), 50);
}

#[test]
fn empty_query_lists_all_without_dormant() {
    let apps = vec![entry("a", 30, false), entry("b", 20, true), entry("c", 10, false)];
    assert_eq!(names(&search_apps("", &apps, false)), vec!["a", "c"]);
    assert_eq!(names(&search_apps("", &apps, true)), vec!["a", "b", "c"]);
    let q = search_apps("b", &apps, false);
    assert!(q.is_empty());
    assert_eq!(names(&search_apps("b", &apps, true)), vec!["b"]);
}

#[test]
fn file_query_keeps_matching_paths_only() {
    let searcher = FileSearcher::new("/home/u".to_string());
    let mut walk = searcher.start("main", 50).unwrap();
    assert!(walk.wants_more());
    walk.offer("/home/u/src/main.rs");
    walk.offer("/home/u/docs/readme.md");
    assert_eq!(walk.finish(), vec!["/home/u/src/main.rs".to_string()]);
}

#[test]
fn empty_file_query_walks_nothing() {
    let searcher = FileSearcher::new("/home/u".to_string());
    assert!(searcher.start("", 50).is_none());
}

#[test]
fn file_walk_stops_at_ten_per_result() {
    let searcher = FileSearcher::new("/".to_string());
    let mut walk = searcher.start("a", 1).unwrap();
    for i in 0..12 {
        walk.offer(&format!("/a{}", i));
    }
    assert!(!walk.wants_more());
    let out = walk.finish();
    assert_eq!(out.len(), 1);
}

#[test]
fn file_prefilter_folds_case() {
    let searcher = FileSearcher::new("/".to_string());
    let mut walk = searcher.start("MAIN", 5).unwrap();
    walk.offer("/x/Main.rs");
    walk.offer("/x/other.rs");
    assert_eq!(walk.finish(), Vec::<String>::new());
    let mut walk = searcher.start("main", 5).unwrap();
    walk.offer("/x/MAIN.rs");
    assert_eq!(walk.finish(), vec!["/x/MAIN.rs".to_string()]);
}

fn desktop(name: Option<&str>, command: Option<&str>, no_display: Option<&str>) -> DesktopFields {
    DesktopFields {
        name: name.map(|s| s.to_string()),
        command: command.map(|s| s.to_string()),
        no_display: no_display.map(|s| s.to_string()),
    }
}

fn exe(name: &str) -> PathFile {
    PathFile { name: name.to_string(), mode: 0o755 }
}

#[test]
fn desktop_entry_wins_over_path_binary() {
    let mut pass = Discovery::new();
    pass.add_desktop(&desktop(Some("firefox"), Some("/usr/lib/firefox/firefox %u"), None));
    pass.add_path_file(&exe("firefox"));
    pass.add_path_file(&exe("htop"));
    let out = pass.finish();
    assert_eq!(out, vec![id("firefox", "/usr/lib/firefox/firefox %u", false), id("htop", "htop", true)]);
}

#[test]
fn first_found_name_wins() {
    let mut pass = Discovery::new();
    pass.add_desktop(&desktop(Some("Editor"), Some("gedit"), None));
    pass.add_desktop(&desktop(Some("Editor"), Some("kate"), None));
    let out = pass.finish();
    assert_eq!(out, vec![id("Editor", "gedit", false)]);
}

#[test]
fn desktop_entries_that_give_nothing() {
    let mut pass = Discovery::new();
    pass.add_desktop(&desktop(Some("Hidden"), Some("hid"), Some("true")));
    pass.add_desktop(&desktop(None, Some("anon"), None));
    pass.add_desktop(&desktop(Some(""), Some("empty"), None));
    pass.add_desktop(&desktop(Some("NoExec"), Some(""), None));
    pass.add_desktop(&desktop(Some("NoExec2"), None, None));
    pass.add_desktop(&desktop(Some("Shown"), Some("shown"), Some("false")));
    assert_eq!(pass.finish(), vec![id("Shown", "shown", false)]);
}

#[test]
fn path_files_that_give_nothing() {
    let mut pass = Discovery::new();
    pass.add_path_file(&PathFile { name: "data".to_string(), mode: 0o644 });
    pass.add_path_file(&exe("lib.so"));
    pass.add_path_file(&exe(".hidden"));
    pass.add_path_file(&exe("tool"));
    pass.add_path_file(&exe("tool"));
    assert_eq!(pass.finish(), vec![id("tool", "tool", true)]);
}

#[test]
fn search_dirs_skip_system_segments() {
    assert!(search_dir_allowed_exec("/usr/bin"));
    assert!(!search_dir_allowed_exec("/usr/sbin"));
    assert!(!search_dir_allowed_exec("/usr/games"));
    assert!(!search_dir_allowed_exec("/usr/lib/jvm/bin"));
}

#[test]
fn first_word_skips_white_space() {
    assert_eq!(first_word_of("  /usr/bin/foo --bar"), "/usr/bin/foo");
    assert_eq!(first_word_of("\tx"), "x");
    assert_eq!(first_word_of("   "), "");
}

#[test]
fn field_codes_are_removed() {
    assert_eq!(strip_field_codes("firefox %u"), "firefox");
    assert_eq!(strip_field_codes("  a   %F b  %i c "), "a b c");
    assert_eq!(strip_field_codes("%U"), "");
}

#[test]
fn launch_intent_from_command() {
    let l = app_launch("env 'A B' run %f", true).unwrap();
    assert_eq!(l.program, "env");
    assert_eq!(l.args, vec!["A B".to_string(), "run".to_string()]);
    assert!(l.needs_terminal);
    assert!(app_launch("%u", false).is_none());
    assert!(app_launch("bad 'quote", false).is_none());
}

#[test]
fn launch_intent_for_file_and_terminal_wrap() {
    let l = file_launch("/tmp/x.rs");
    assert_eq!(l.program, "kitty");
    assert_eq!(l.args, vec!["-e", "nvim", "/tmp/x.rs"]);
    assert!(!l.needs_terminal);
    let (p, a) = spawn_line(&l);
    assert_eq!(p, "kitty");
    assert_eq!(a, vec!["-e", "nvim", "/tmp/x.rs"]);
    let t = app_launch("htop -d 5", true).unwrap();
    let (p, a) = spawn_line(&t);
    assert_eq!(p, "kitty");
    assert_eq!(a, vec!["-e", "htop", "-d", "5"]);
}

#[test]
fn seed_listing_names_programs() {
    let listing = "git /usr/bin/git\ngit /usr/bin/git-shell\r\nbad\n\nvim /usr/bin/\n";
    assert_eq!(seed_names(listing), vec!["git", "git-shell", "bin"]);
    assert!(seed_names("").is_empty());
}

#[test]
fn terminal_queues_sequences() {
    let mut t = Terminal::new(2, 1);
    let setup = t.flush();
    assert_eq!(setup, "\x1b[?25l\x1b[2J\x1b[1;1H\x1b[48;2;35;33;54m  \x1b[0m");
    t.write_at(2, 0, "hi");
    t.hline(0, 1, 3, '-', Color::new(1, 1, 1));
    assert_eq!(t.flush(), "\x1b[1;3Hhi\x1b[2;1H\x1b[38;2;1;1;1m---\x1b[0m");
    assert_eq!(t.flush(), "");
    t.cleanup();
    assert_eq!(t.flush(), "\x1b[?25h\x1b[2J");
    assert_eq!(t.size(), (2, 1));
}

#[test]
fn terminal_background_lines() {
    let mut t = Terminal::new(0, 0);
    let _ = t.flush();
    t.hline_bg(1, 1, 2, Color::new(9, 9, 9));
    assert_eq!(t.flush(), "\x1b[2;2H\x1b[38;2;110;106;134m\x1b[48;2;9;9;9m  \x1b[0m");
    t.write_styled(0, 0, "x", &Style::new().bold());
    assert_eq!(t.flush(), "\x1b[1;1H\x1b[1mx\x1b[0m");
}

#[test]
fn slash_search() {
    assert_eq!(last_slash("/a/b/c", 6), Some(4));
    assert_eq!(last_slash("/a/b/c", 4), Some(2));
    assert_eq!(last_slash("abc", 3), None);
}

fn key(code: KeyCode, ctrl: bool) -> KeyEvent {
    KeyEvent { code, ctrl }
}

#[test]
fn key_actions_by_mode() {
    let h = InputHandler::new();
    assert_eq!(h.action(InputMode::Insert, key(KeyCode::Char('j'), false)), Action::Insert('j'));
    assert_eq!(h.action(InputMode::Insert, key(KeyCode::Char('n'), true)), Action::Next);
    assert_eq!(h.action(InputMode::Insert, key(KeyCode::Down, false)), Action::Nothing);
    assert_eq!(h.action(InputMode::Insert, key(KeyCode::Esc, false)), Action::EnterNormal);
    assert_eq!(h.action(InputMode::Normal, key(KeyCode::Char('j'), false)), Action::Next);
    assert_eq!(h.action(InputMode::Normal, key(KeyCode::Char('G'), false)), Action::GoBottom);
    assert_eq!(h.action(InputMode::Normal, key(KeyCode::Esc, false)), Action::Quit);
    assert_eq!(h.action(InputMode::Normal, key(KeyCode::Char('t'), true)), Action::ToggleTui);
}

fn sample_app() -> App {
    let apps = vec![entry("alpha", 30, false), entry("beta", 20, true), entry("gamma", 10, false)];
    App::new(apps, PrefStore::new())
}

#[test]
fn app_editing_and_navigation() {
    let mut app = sample_app();
    assert_eq!(names(&app.filtered_apps), vec!["alpha", "gamma"]);
    let h = InputHandler::new();
    h.process(&mut app, key(KeyCode::Char('g'), false), NOW);
    h.process(&mut app, key(KeyCode::Char('m'), false), NOW);
    assert_eq!(app.input, "gm");
    assert_eq!(names(&app.filtered_apps), vec!["gamma"]);
    app.move_cursor_left();
    app.insert_char('a');
    assert_eq!(app.input, "gam");
    assert_eq!(app.cursor_pos, 2);
    app.backspace();
    assert_eq!(app.input, "gm");
    app.delete_char();
    assert_eq!(app.input, "g");
    app.clear_input();
    assert_eq!(app.input, "");
    app.toggle_dormant();
    assert_eq!(names(&app.filtered_apps), vec!["alpha", "beta", "gamma"]);
    app.previous();
    assert_eq!(app.selected_index, 2);
    app.next();
    assert_eq!(app.selected_index, 0);
    app.go_bottom();
    assert_eq!(app.selected_index, 2);
    app.go_top();
    assert_eq!(app.selected_index, 0);
}

#[test]
fn app_launch_records_usage() {
    let mut app = sample_app();
    app.toggle_tui_preference();
    assert!(app.prefs.is_tui("alpha"));
    app.launch_selection(NOW);
    assert!(app.should_launch);
    let l = app.launch_command.as_ref().unwrap();
    assert_eq!(l.program, "alpha");
    assert!(l.needs_terminal);
    assert_eq!(app.prefs.lookup("alpha"), rec(true, 0, 1, NOW));
    assert_eq!(app.store_ops.len(), 2);
}

#[test]
fn app_file_mode_asks_for_search() {
    let mut app = sample_app();
    app.toggle_mode();
    assert_eq!(app.mode, Mode::Files);
    assert!(app.file_query.is_none());
    app.insert_char('x');
    assert_eq!(app.file_query.as_deref(), Some("x"));
    app.set_file_results(vec!["/x".to_string()]);
    app.launch_selection(NOW);
    assert_eq!(app.launch_command.as_ref().unwrap().args, vec!["-e", "nvim", "/x"]);
    app.quit();
    assert!(app.should_quit);
}

#[test]
fn ui_renders_and_remembers_tui_flags() {
    let mut app = sample_app();
    app.toggle_tui_preference();
    app.update_search();
    let mut ui = Ui::new(40, 10);
    let frame = ui.render(&app);
    assert!(frame.contains("Apps > "));
    assert!(frame.contains("alpha"));
    assert!(ui.get_tui_status("alpha"));
    assert!(!ui.get_tui_status("gamma"));
    assert!(!ui.get_tui_status("absent"));
    let bye = ui.cleanup();
    assert!(bye.ends_with("\x1b[?25h\x1b[2J"));
}

#[test]
fn desktop_file_fields() {
    let text = "[Desktop Entry]\nName=Firefox\nName=Other\nExec=firefox %u\nNoDisplay=false\n";
    let f = desktop_fields(text.as_bytes()).unwrap();
    assert_eq!(f.name.as_deref(), Some("Firefox"));
    assert_eq!(f.command.as_deref(), Some("firefox %u"));
    assert_eq!(f.no_display.as_deref(), Some("false"));
    let other = desktop_fields(b"[Other]\nName=X\n").unwrap();
    assert!(other.name.is_none() && other.command.is_none());
    let mut pass = Discovery::new();
    pass.add_desktop(&f);
    pass.add_path_file(&exe("firefox"));
    assert_eq!(pass.finish(), vec![id("Firefox", "firefox %u", false)]);
}

#[test]
fn ui_shows_file_name_then_directory() {
    let mut app = sample_app();
    app.toggle_mode();
    app.insert_char('m');
    app.set_file_results(vec!["/home/u/src/main.rs".to_string()]);
    let mut ui = Ui::new(60, 8);
    let frame = ui.render(&app);
    assert!(frame.contains("\x1b[1m\x1b[38;2;224;222;244mmain.rs\x1b[0m"));
    assert!(frame.contains("\x1b[38;2;110;106;134m/home/u/src\x1b[0m"));
    assert!(frame.contains("Files > "));
}

#[test]
fn entry_named_unknown_is_kept_and_wins() {
    let mut pass = Discovery::new();
    pass.add_desktop(&desktop(Some("Unknown"), Some("/opt/unk/unk --x"), None));
    pass.add_path_file(&exe("unk"));
    assert_eq!(pass.finish(), vec![id("Unknown", "/opt/unk/unk --x", false)]);
}

#[test]
fn entry_with_empty_name_does_not_hide_its_binary() {
    let mut pass = Discovery::new();
    pass.add_desktop(&desktop(Some(""), Some("tool"), None));
    pass.add_path_file(&exe("tool"));
    assert_eq!(pass.finish(), vec![id("tool", "tool", true)]);
}

#[test]
fn desktop_file_that_does_not_parse() {
    assert!(desktop_fields(b"[Desktop Entry]\nName=\xff\xfe\n").is_none());
}
