use covey::gui::command_hotkey_labels;
use covey::gui::unknown_request_message;
use covey::commands::{Hotkey, Key};
use covey::gui::{ends_frame, pressed_hotkey};
use covey::host::route_query;
use covey::host::completion_actions;
use covey::host::{run_command_context, run_error_title, run_shell_context};
use covey::gui::{
    parse_request, primary_settings, request_line, trim_str, App, AppControlFlow, CliCommand, GuiAction, GuiInput,
    GuiSettings, Message, RenderingState,
};
use covey::host::{select_plugin, starts_with, Action, Effect, Host, Input, PluginEvent};

#[test]
fn host_numbers_queries() {
    let mut h = Host::new();
    assert_eq!(h.queries_left(), u64::MAX);
    assert_eq!(h.query(), 1);
    assert_eq!(h.query(), 2);
    assert_eq!(h.queries_left(), u64::MAX - 2);
}

#[test]
fn host_shows_only_newer_lists() {
    let mut h = Host::new();
    h.query();
    h.query();
    let e = h.handle_event(Ok(PluginEvent::SetList { list: "second", index: 2 }));
    assert!(matches!(e.as_slice(), [Effect::SetList("second")]));
    let e = h.handle_event(Ok(PluginEvent::SetList { list: "first", index: 1 }));
    assert!(e.is_empty());
    let e = h.handle_event(Ok(PluginEvent::SetList { list: "again", index: 2 }));
    assert!(e.is_empty());
}

#[test]
fn host_reports_errors() {
    let mut h = Host::new();
    let e = h.handle_event::<()>(Err("boom".to_string()));
    match e.as_slice() {
        [Effect::DisplayError(title, body)] => {
            assert_eq!(title, "Error in plugin");
            assert_eq!(body, "boom");
        }
        _ => panic!("expected one error"),
    }
}

#[test]
fn host_runs_actions_in_order() {
    let mut h = Host::new();
    h.query();
    let actions = vec![
        Action::Copy("text".to_string()),
        Action::SetInput(Input { contents: "new".to_string(), selection: (0, 3) }),
        Action::RunShell("ls".to_string()),
        Action::Close,
    ];
    let e = h.handle_event::<()>(Ok(PluginEvent::Run(actions)));
    assert_eq!(e.len(), 5);
    assert!(matches!(&e[0], Effect::Copy(s) if s == "text"));
    assert!(matches!(&e[1], Effect::SetInput(i) if i.contents == "new" && i.selection == (0, 3)));
    assert!(matches!(&e[2], Effect::Query { index: 2, input } if input == "new"));
    assert!(matches!(&e[3], Effect::RunShell(s) if s == "ls"));
    assert!(matches!(&e[4], Effect::Close));
    assert_eq!(h.query(), 3);
}

#[test]
fn plugin_chosen_by_first_prefix() {
    let prefixes = vec!["@".to_string(), "@@".to_string(), "f ".to_string()];
    assert_eq!(select_plugin(&prefixes, "@@x"), Some((0, "@x")));
    assert_eq!(select_plugin(&prefixes, "f query"), Some((2, "query")));
    assert_eq!(select_plugin(&prefixes, "nothing"), None);
    assert_eq!(select_plugin(&vec![], "x"), None);
    assert!(starts_with("hello", "he"));
    assert!(starts_with("hello", ""));
    assert!(!starts_with("he", "hello"));
}

#[test]
fn requests_read_back() {
    for cmd in [CliCommand::Open { stay_open: false }, CliCommand::Open { stay_open: true }, CliCommand::Exit] {
        let expected = match cmd {
            CliCommand::Open { stay_open: false } => Message::Open,
            CliCommand::Open { stay_open: true } => Message::OpenAndStay,
            CliCommand::Exit => Message::Exit,
        };
        assert_eq!(parse_request(request_line(cmd)), Some(expected));
    }
    assert_eq!(request_line(CliCommand::Exit), "exit\n");
    assert_eq!(parse_request("  open stay \r\n"), Some(Message::OpenAndStay));
    assert_eq!(parse_request("opens"), None);
    assert_eq!(parse_request(""), None);
    assert_eq!(trim_str("\t a b \n"), "a b");
    assert_eq!(trim_str("\u{3000}x\u{a0}"), "x");
}

#[test]
fn cli_defaults_and_primary_settings() {
    assert_eq!(CliCommand::default(), CliCommand::Open { stay_open: false });
    assert_eq!(primary_settings(CliCommand::Open { stay_open: true }), Some(GuiSettings { close_on_blur: false }));
    assert_eq!(primary_settings(CliCommand::Open { stay_open: false }), Some(GuiSettings { close_on_blur: true }));
    assert_eq!(primary_settings(CliCommand::Exit), None);
}

fn state() -> RenderingState {
    RenderingState { new_cursor_selection: None, list_selection_changed: false, window_is_focused: true }
}

#[test]
fn window_handles_messages() {
    let mut app: App<u8> = App::new(GuiSettings { close_on_blur: true });
    assert!(app.is_closed);
    assert_eq!(app.handle_cli_action(Message::Open), AppControlFlow::OpenGui);
    assert!(app.gui_settings.close_on_blur);
    assert_eq!(app.handle_cli_action(Message::OpenAndStay), AppControlFlow::OpenGui);
    assert!(!app.gui_settings.close_on_blur);
    app.is_closed = false;
    assert_eq!(app.handle_cli_action(Message::Exit), AppControlFlow::ExitProcess);
    assert!(app.is_closed);
}

#[test]
fn window_handles_plugin_actions() {
    let mut app: App<u8> = App::new(GuiSettings { close_on_blur: true });
    app.is_closed = false;
    let mut rs = state();
    let r = app.handle_plugin_action(GuiAction::SetInput(GuiInput { contents: "abc".to_string(), selection: (1, 2) }), &mut rs);
    assert_eq!(r, (AppControlFlow::Continue, Some("abc".to_string())));
    assert_eq!(app.input, "abc");
    assert_eq!(rs.new_cursor_selection, Some((1, 2)));
    let r = app.handle_plugin_action(GuiAction::SetInput(GuiInput { contents: "abc".to_string(), selection: (0, 0) }), &mut rs);
    assert_eq!(r, (AppControlFlow::Continue, None));
    app.list_selection = 4;
    let r = app.handle_plugin_action(GuiAction::SetList(9), &mut rs);
    assert_eq!(r, (AppControlFlow::Continue, None));
    assert_eq!(app.list, Some(9));
    assert_eq!(app.list_selection, 0);
    assert!(rs.list_selection_changed);
    let r = app.handle_plugin_action(GuiAction::Copy("c".to_string()), &mut rs);
    assert_eq!(r, (AppControlFlow::Continue, None));
    let r = app.handle_plugin_action(GuiAction::DisplayError("t".to_string(), "d".to_string()), &mut rs);
    assert_eq!(r, (AppControlFlow::Continue, None));
    assert!(!app.is_closed);
    let r = app.handle_plugin_action(GuiAction::Close, &mut rs);
    assert_eq!(r, (AppControlFlow::CloseGui, None));
    assert!(app.is_closed);
}

#[test]
fn window_closes_when_focus_is_lost() {
    let mut app: App<u8> = App::new(GuiSettings { close_on_blur: true });
    app.is_closed = false;
    assert!(!app.close_if_unfocused(false));
    assert!(!app.close_if_unfocused(true));
    assert!(app.close_if_unfocused(false));
    assert!(app.is_closed);
    let mut stay: App<u8> = App::new(GuiSettings { close_on_blur: false });
    stay.is_closed = false;
    assert!(!stay.close_if_unfocused(true));
    assert!(!stay.close_if_unfocused(false));
    assert!(!stay.is_closed);
}

#[test]
fn queries_route_to_a_plugin_or_fail() {
    let prefixes = vec!["g ".to_string(), "".to_string()];
    assert_eq!(route_query(&prefixes, "g rust"), Ok((0, "rust")));
    assert_eq!(route_query(&prefixes, "anything"), Ok((1, "anything")));
    assert_eq!(route_query(&vec!["x".to_string()], "y"), Err("no plugin activated".to_string()));
}

#[test]
fn completions_set_the_input() {
    let a = completion_actions(Some(Input { contents: "done".to_string(), selection: (4, 4) }));
    assert!(matches!(a.as_slice(), [Action::SetInput(i)] if i.contents == "done"));
    assert!(completion_actions(None).is_empty());
}

#[test]
fn command_failure_messages() {
    assert_eq!(run_error_title(), "Error running command");
    assert_eq!(
        run_command_context("xdg-open", &vec!["a b".to_string(), "c".to_string()]),
        "failed to run command `xdg-open a b c`"
    );
    assert_eq!(run_command_context("ls", &vec![]), "failed to run command `ls `");
    assert_eq!(run_shell_context("echo hi"), "failed to run command `echo hi`");
}

#[test]
fn frames_end_when_the_window_closes() {
    assert!(!ends_frame(AppControlFlow::Continue));
    assert!(!ends_frame(AppControlFlow::OpenGui));
    assert!(ends_frame(AppControlFlow::CloseGui));
    assert!(ends_frame(AppControlFlow::ExitProcess));
}

#[test]
fn a_single_known_key_makes_a_hotkey() {
    assert_eq!(
        pressed_hotkey(&vec![Some(Key::K)], true, false, true),
        Some(Hotkey { key: Key::K, ctrl: true, alt: false, shift: true, meta: false })
    );
    assert_eq!(pressed_hotkey(&vec![None], true, false, false), None);
    assert_eq!(pressed_hotkey(&vec![Some(Key::A), Some(Key::B)], false, false, false), None);
    assert_eq!(pressed_hotkey(&vec![], false, false, false), None);
}

#[test]
fn reload_and_open_state() {
    let mut app: App<u8> = App::new(GuiSettings { close_on_blur: true });
    app.mark_opened();
    assert!(!app.is_closed);
    app.input = "q".to_string();
    app.list = Some(3);
    assert_eq!(app.reload(), "q");
    assert_eq!(app.list, None);
    app.app_has_been_focused = true;
    app.mark_closed();
    assert!(app.is_closed);
    assert!(!app.app_has_been_focused);
}

#[test]
fn unknown_requests_are_reported() {
    assert_eq!(unknown_request_message("hello\n"), "unknown message \"hello\"");
    assert_eq!(unknown_request_message("  a \"b\"  \r\n"), "unknown message \"  a \\\"b\\\"\"");
}

fn plain(key: Key) -> Hotkey {
    Hotkey { key, ctrl: false, alt: false, shift: false, meta: false }
}

#[test]
fn each_command_shows_its_first_free_hotkey() {
    let enter = plain(Key::Enter);
    let alt_enter = Hotkey { alt: true, ..enter };
    let ctrl_r = Hotkey { key: Key::R, ctrl: true, alt: false, shift: false, meta: false };
    let commands = vec![
        Some(vec![enter]),
        None,
        Some(vec![alt_enter]),
        Some(vec![enter, ctrl_r]),
        Some(vec![ctrl_r]),
        Some(vec![enter]),
    ];
    assert_eq!(
        command_hotkey_labels(&commands),
        vec![Some(enter), None, Some(alt_enter), Some(ctrl_r), None, None]
    );
    assert!(command_hotkey_labels(&vec![]).is_empty());
}

#[test]
fn a_command_without_a_free_hotkey_takes_none() {
    let a = plain(Key::A);
    let b = plain(Key::B);
    // the second command shows nothing, so its `b` stays free for the third
    let commands = vec![Some(vec![a]), Some(vec![a, a]), Some(vec![b])];
    assert_eq!(command_hotkey_labels(&commands), vec![Some(a), None, Some(b)]);
    let commands = vec![Some(vec![a]), Some(vec![a, b]), Some(vec![b])];
    assert_eq!(command_hotkey_labels(&commands), vec![Some(a), Some(b), None]);
}
