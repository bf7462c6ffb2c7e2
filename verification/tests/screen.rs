use light_factory_tui::client::{App, Mode, Pending, ApprovalTarget};
use light_factory_tui::config::Config;
use light_factory_tui::provider::{ProviderInfo, SelectedBy};
use light_factory_tui::screen::{ScreenBody, ScreenLine, Span, Tone};
use light_factory_tui::settings::{Session, Settings};

fn app() -> App {
    let info = ProviderInfo {
        id: "openai".to_string(),
        model: Some("gpt-5".to_string()),
        offline: None,
        selected_by: Some(SelectedBy::KeyPrecedence),
        warnings: vec![],
    };
    App::new(Config::from_url("http://localhost:8080").unwrap(), info, Settings::empty(), None)
}

fn text(line: &ScreenLine) -> String {
    line.spans.iter().map(|s| s.text.as_str()).collect()
}

#[test]
fn the_sign_in_panel_shows_both_fields_and_the_hint() {
    let mut a = app();
    a.form.email = "a@b.c".to_string();
    let view = a.screen();
    assert_eq!(view.header, " light-factory · Not signed in");
    assert_eq!(view.hint, "Ctrl-P: help");
    let ScreenBody::Panel { lines } = view.body else { panic!("a panel") };
    assert_eq!(lines.len(), 6);
    assert_eq!(lines[0].spans, vec![Span { text: "Sign in".to_string(), tone: Tone::Heading }]);
    assert_eq!(text(&lines[2]), "> Email: a@b.c_");
    assert_eq!(lines[2].spans[0].tone, Tone::Focused);
    assert_eq!(text(&lines[3]), "  Code: ");
    assert_eq!(lines[3].spans[0].tone, Tone::Muted);
    assert_eq!(lines[5].spans[0].tone, Tone::Muted);
    a.error = Some("boom".to_string());
    let ScreenBody::Panel { lines } = a.screen().body else { panic!("a panel") };
    assert_eq!(lines[5].spans, vec![Span { text: "boom".to_string(), tone: Tone::Error }]);
}

#[test]
fn the_key_panel_never_shows_the_key() {
    let mut a = app();
    a.mode = Mode::Key;
    a.key_entry.target = Some("openai".to_string());
    a.key_entry.input = "sk-secret".to_string();
    let ScreenBody::Panel { lines } = a.screen().body else { panic!("a panel") };
    let all: String = lines.iter().map(text).collect();
    assert!(!all.contains("sk-secret"));
    assert!(all.contains("*********"));
    assert_eq!(text(&lines[0]), "Enter API key for openai (input hidden)");
}

#[test]
fn the_connected_header_names_the_provider_and_why() {
    let mut a = app();
    a.enter(Session {
        token: "t".into(),
        expires_at: 0,
        email: "a@b.c".into(),
        display_name: "Ann".into(),
    });
    let ScreenBody::Connected { info, log_title, log } = a.screen().body else {
        panic!("the connected screen")
    };
    assert_eq!(info, "Ann <a@b.c>  ·  provider: openai (gpt-5) · key precedence  ·  pongs: 0");
    assert_eq!(log_title, " Activity ");
    assert_eq!(log.len(), 1);
    assert_eq!(log[0].spans[0].tone, Tone::Muted);
}

#[test]
fn the_engine_footer_is_the_prompt_or_the_pending_question() {
    let mut a = app();
    a.mode = Mode::Engine;
    a.engine.prompt = "hi".to_string();
    let ScreenBody::Engine { footer, .. } = a.screen().body else { panic!("the engine pane") };
    assert_eq!(footer, "> hi");
    a.engine.pending = Some(Pending {
        target: ApprovalTarget::Plan { plan_id: 1 },
        prompt: "approve?".to_string(),
    });
    let ScreenBody::Engine { footer, .. } = a.screen().body else { panic!("the engine pane") };
    assert_eq!(footer, "approve?");
}

#[test]
fn the_hint_line_follows_the_command_line_and_the_screen() {
    let mut a = app();
    a.mode = Mode::Device;
    assert_eq!(a.screen().hint, "Esc: cancel device login");
    a.mode = Mode::Help;
    assert_eq!(a.screen().hint, "Ctrl-P / Esc: close");
    a.command.active = true;
    a.command.text = "/mo".to_string();
    assert_eq!(a.screen().hint, "> /mo");
}

#[test]
fn the_device_panel_shows_the_url_and_code() {
    let mut a = app();
    a.mode = Mode::Device;
    a.device.verification_uri = Some("https://x/device".to_string());
    a.device.user_code = Some("ABCD".to_string());
    let ScreenBody::Panel { lines } = a.screen().body else { panic!("a panel") };
    assert!(lines.iter().any(|l| l.spans == vec![Span { text: "https://x/device".into(), tone: Tone::Link }]));
    assert!(lines.iter().any(|l| l.spans == vec![Span { text: "ABCD".into(), tone: Tone::Highlight }]));
}
