use light_factory_tui::engine_view::{
    describe_event, pending_prompt, EventKind, GateReason, Plan, Scope,
};
use light_factory_tui::i18n::Locale;

fn plan_event() -> EventKind {
    EventKind::PlanProposed {
        plan_id: 0,
        plan: Plan {
            id: 0,
            summary: "do the thing".into(),
            steps: vec![],
            scope: Scope { write_paths: vec![], commands: vec![] },
        },
    }
}

#[test]
fn describes_a_file_edit_with_interpolated_values() {
    let line = describe_event(
        Locale::En,
        &EventKind::FileEdit { path: "src/main.rs".into(), bytes_written: 42 },
    );
    assert!(line.contains("src/main.rs"));
    assert!(line.contains("42"));
}

#[test]
fn a_proposed_plan_prompts_for_approval() {
    let prompt = pending_prompt(Locale::En, &plan_event()).unwrap();
    assert!(prompt.contains("do the thing"));
}

#[test]
fn an_approval_request_names_the_offending_path() {
    let kind = EventKind::ApprovalRequest {
        request_id: 0,
        reason: GateReason::SensitiveFloor { path: ".env".into() },
        detail: "fs.write".into(),
    };
    let prompt = pending_prompt(Locale::En, &kind).unwrap();
    assert!(prompt.contains(".env"));
}

#[test]
fn ordinary_events_do_not_prompt() {
    assert!(pending_prompt(Locale::En, &EventKind::Log { message: "hi".into() }).is_none());
}

#[test]
fn spanish_differs_from_english_and_still_interpolates() {
    let en = pending_prompt(Locale::En, &plan_event()).unwrap();
    let es = pending_prompt(Locale::Es, &plan_event()).unwrap();
    assert_ne!(en, es, "the engine prompts must be translated, not passed through");
    assert!(es.contains("do the thing"), "the plan summary is data, not a translated string");
}

#[test]
fn the_plan_prompt_counts_steps_paths_and_commands() {
    let kind = EventKind::PlanProposed {
        plan_id: 7,
        plan: Plan {
            id: 7,
            summary: "refactor".into(),
            steps: vec!["a".into(), "b".into()],
            scope: Scope { write_paths: vec!["src".into()], commands: vec![] },
        },
    };
    assert_eq!(
        pending_prompt(Locale::En, &kind).unwrap(),
        "Plan: refactor\n2 step(s), 1 write path(s), 0 command(s)\n[a] approve  [d] deny"
    );
}

#[test]
fn each_event_reads_as_one_line() {
    assert_eq!(
        describe_event(Locale::En, &EventKind::CommandRun { command: "ls".into(), exit_code: -1 }),
        "ran ls (exit -1)"
    );
    assert_eq!(
        describe_event(
            Locale::En,
            &EventKind::TokenUsage { input_tokens: 1200, output_tokens: 0 }
        ),
        "tokens: 1200 in / 0 out"
    );
    assert_eq!(
        describe_event(Locale::En, &EventKind::PlanDecided { plan_id: 1, approved: false }),
        "plan rejected"
    );
    assert_eq!(
        describe_event(Locale::En, &EventKind::TurnComplete { ok: true }),
        "turn complete"
    );
    assert_eq!(
        describe_event(
            Locale::En,
            &EventKind::Error { code: "invalid_session".into(), message: "raw".into() }
        ),
        "Invalid or expired session"
    );
    assert_eq!(
        describe_event(
            Locale::En,
            &EventKind::Error { code: "unheard_of".into(), message: "raw".into() }
        ),
        "raw"
    );
    let outside = EventKind::ApprovalRequest {
        request_id: 3,
        reason: GateReason::OutsideScope { what: "rm -rf".into() },
        detail: "bash".into(),
    };
    assert_eq!(
        pending_prompt(Locale::En, &outside).unwrap(),
        "bash\noutside the approved scope: rm -rf\n[a] approve  [d] deny"
    );
}
