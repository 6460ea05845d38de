use hoags_tools::mousecontrol::actions::{default_button, plan, Action, Step};
use hoags_tools::mousecontrol::keys::{combo_to_sendkeys, named_key};

#[test]
fn combo_ctrl_s_converts_correctly() {
    assert_eq!(combo_to_sendkeys("ctrl+s").unwrap(), "^s");
}

#[test]
fn combo_alt_tab_converts_correctly() {
    assert_eq!(combo_to_sendkeys("alt+tab").unwrap(), "%{TAB}");
}

#[test]
fn combo_enter_alone_converts_correctly() {
    assert_eq!(combo_to_sendkeys("enter").unwrap(), "{ENTER}");
}

#[test]
fn combo_ctrl_shift_s_converts_correctly() {
    assert_eq!(combo_to_sendkeys("ctrl+shift+s").unwrap(), "^+s");
}

#[test]
fn combo_unknown_modifier_returns_err() {
    let result = combo_to_sendkeys("super+s");
    assert!(result.is_err());
}

#[test]
fn named_key_f5_converts() {
    assert_eq!(named_key("f5"), "{F5}");
}

#[test]
fn named_key_unknown_passthrough() {
    assert_eq!(named_key("a"), "a");
}

#[test]
fn combo_case_and_win_modifier() {
    assert_eq!(combo_to_sendkeys("CTRL+Alt+Delete").unwrap(), "^%{DELETE}");
    assert_eq!(combo_to_sendkeys("win+ space ").unwrap(), "^% ");
    assert_eq!(combo_to_sendkeys("hyper+x").unwrap_err(), "Unknown modifier: 'hyper'");
}

fn run_parts(s: Step) -> (String, String) {
    match s {
        Step::Run { script, message } => (script, message),
        Step::Wait { .. } => panic!("expected a script"),
    }
}

#[test]
fn planned_steps() {
    let (script, msg) = run_parts(plan(&Action::Click { x: 10, y: -5, button: "Right".into() }).unwrap());
    assert!(script.contains("SetCursorPos(10, -5)"));
    assert!(script.contains("mouse_event(0x0008, 0, 0, 0, 0)"));
    assert_eq!(msg, "Clicked Right at (10, -5)");
    let (script, msg) = run_parts(plan(&Action::Type { text: "a+b'".into() }).unwrap());
    assert!(script.ends_with("SendWait('a{+}b''')"));
    let (script, _) = run_parts(plan(&Action::Type { text: "{x}(y)".into() }).unwrap());
    assert!(script.ends_with("SendWait('{{}x{}}{(}y{)}')"));
    assert_eq!(msg, "Typed: a+b'");
    let (_, msg) = run_parts(plan(&Action::Key { combo: "ctrl+s".into() }).unwrap());
    assert_eq!(msg, "Sent key combo: ctrl+s -> ^s");
    assert!(plan(&Action::Key { combo: "meta+s".into() }).is_err());
    match plan(&Action::Wait { ms: 250 }).unwrap() {
        Step::Wait { ms, message } => {
            assert_eq!(ms, 250);
            assert_eq!(message, "Waited 250ms");
        }
        _ => panic!("expected a wait"),
    }
    let (script, _) = run_parts(plan(&Action::Screenshot { output: "it's.png".into() }).unwrap());
    assert!(script.contains("$bmp.Save('it''s.png')"));
    assert_eq!(default_button(), "left");
}
