//! Rendering helpers for engine events: one translated log line per event, and the question to
//! put to the human when an event waits on an answer. The event types hold, as plain values,
//! what the engine reports and what these helpers read.

use vstd::prelude::*;

use crate::i18n::{interpolate, t_with, translated, error_text, tr, Locale};
use crate::text::{chars_of, decimal, extend_chars, i64_text, signed_decimal, string_of, u64_text};

verus! {

/// What a plan may touch once approved.
pub struct Scope {
    pub write_paths: Vec<String>,
    pub commands: Vec<String>,
}

/// A plan the agent proposes before acting.
pub struct Plan {
    pub id: u128,
    pub summary: String,
    pub steps: Vec<String>,
    pub scope: Scope,
}

/// Why an action was held back until the human approves it.
pub enum GateReason {
    OutsideScope { what: String },
    SensitiveFloor { path: String },
}

/// What happened in an engine session.
pub enum EventKind {
    PlanProposed { plan_id: u128, plan: Plan },
    PlanDecided { plan_id: u128, approved: bool },
    FileEdit { path: String, bytes_written: u64 },
    CommandRun { command: String, exit_code: i64 },
    ApprovalRequest { request_id: u128, reason: GateReason, detail: String },
    Log { message: String },
    TokenUsage { input_tokens: u64, output_tokens: u64 },
    TurnComplete { ok: bool },
    Error { code: String, message: String },
}

/// The catalog text for `key` with the parameters `names[i]` = `values[i]`, applied in order.
pub open spec fn tw(locale: Locale, key: Seq<char>, params: Seq<(Seq<char>, Seq<char>)>) -> Seq<
    char,
> {
    interpolate(translated(locale, key), params)
}

/// The log line for an event.
pub open spec fn described(locale: Locale, kind: EventKind) -> Seq<char> {
    match kind {
        EventKind::PlanProposed { plan, .. } => tw(
            locale,
            "engine.plan_proposed"@,
            seq![("summary"@, plan.summary@)],
        ),
        EventKind::PlanDecided { approved, .. } => translated(
            locale,
            if approved {
                "engine.plan_approved"@
            } else {
                "engine.plan_rejected"@
            },
        ),
        EventKind::FileEdit { path, bytes_written } => tw(
            locale,
            "engine.file_edit"@,
            seq![("path"@, path@), ("bytes"@, decimal(bytes_written as nat))],
        ),
        EventKind::CommandRun { command, exit_code } => tw(
            locale,
            "engine.command_run"@,
            seq![("command"@, command@), ("code"@, signed_decimal(exit_code as int))],
        ),
        EventKind::ApprovalRequest { detail, .. } => tw(
            locale,
            "engine.approval_needed"@,
            seq![("detail"@, detail@)],
        ),
        EventKind::Log { message } => message@,
        EventKind::TokenUsage { input_tokens, output_tokens } => tw(
            locale,
            "engine.token_usage"@,
            seq![
                ("input"@, decimal(input_tokens as nat)),
                ("output"@, decimal(output_tokens as nat)),
            ],
        ),
        EventKind::TurnComplete { ok } => translated(
            locale,
            if ok {
                "engine.turn_complete"@
            } else {
                "engine.turn_ended"@
            },
        ),
        EventKind::Error { code, message } => match error_text(locale, code@) {
            Some(text) => text,
            None => message@,
        },
    }
}

/// `a`, a line break, then `b`.
pub open spec fn two_lines(a: Seq<char>, b: Seq<char>) -> Seq<char> {
    a + seq!['\n'] + b
}

/// The question an event puts to the human, if it waits on an answer: the plan with its size, or
/// the gated action with the reason it was stopped, each followed by the approve/deny keys.
pub open spec fn prompt_for(locale: Locale, kind: EventKind) -> Option<Seq<char>> {
    let keys = translated(locale, "engine.approve_keys"@);
    match kind {
        EventKind::PlanProposed { plan, .. } => Some(
            two_lines(
                tw(
                    locale,
                    "engine.plan_prompt"@,
                    seq![
                        ("summary"@, plan.summary@),
                        ("steps"@, decimal(plan.steps@.len())),
                        ("paths"@, decimal(plan.scope.write_paths@.len())),
                        ("commands"@, decimal(plan.scope.commands@.len())),
                    ],
                ),
                keys,
            ),
        ),
        EventKind::ApprovalRequest { reason, detail, .. } => {
            let why = match reason {
                GateReason::OutsideScope { what } => tw(
                    locale,
                    "engine.reason_outside_scope"@,
                    seq![("what"@, what@)],
                ),
                GateReason::SensitiveFloor { path } => tw(
                    locale,
                    "engine.reason_sensitive"@,
                    seq![("path"@, path@)],
                ),
            };
            Some(two_lines(two_lines(detail@, why), keys))
        },
        _ => None,
    }
}

/// Translate `key` with one parameter.
fn tw1(locale: Locale, key: &str, n1: &str, v1: &str) -> (r: String)
    ensures
        r@ == tw(locale, key@, seq![(n1@, v1@)]),
{
    crate::i18n::t_with1(locale, key, n1, v1)
}

/// Translate `key` with two parameters, applied in order.
fn tw2(locale: Locale, key: &str, n1: &str, v1: &str, n2: &str, v2: &str) -> (r: String)
    ensures
        r@ == tw(locale, key@, seq![(n1@, v1@), (n2@, v2@)]),
{
    crate::i18n::t_with2(locale, key, n1, v1, n2, v2)
}

/// One log line for an engine event, translated for `locale`.
pub fn describe_event(locale: Locale, kind: &EventKind) -> (r: String)
    ensures
        r@ == described(locale, *kind),
{
    match kind {
        EventKind::PlanProposed { plan, .. } => {
            proof {
                reveal_strlit("engine.plan_proposed");
                reveal_strlit("summary");
            }
            tw1(locale, "engine.plan_proposed", "summary", plan.summary.as_str())
        },
        EventKind::PlanDecided { approved, .. } => {
            proof {
                reveal_strlit("engine.plan_approved");
                reveal_strlit("engine.plan_rejected");
            }
            if *approved {
                tr(locale, "engine.plan_approved")
            } else {
                tr(locale, "engine.plan_rejected")
            }
        },
        EventKind::FileEdit { path, bytes_written } => {
            proof {
                reveal_strlit("engine.file_edit");
                reveal_strlit("path");
                reveal_strlit("bytes");
            }
            let bytes = u64_text(*bytes_written);
            tw2(locale, "engine.file_edit", "path", path.as_str(), "bytes", bytes.as_str())
        },
        EventKind::CommandRun { command, exit_code } => {
            proof {
                reveal_strlit("engine.command_run");
                reveal_strlit("command");
                reveal_strlit("code");
            }
            let code = i64_text(*exit_code);
            tw2(locale, "engine.command_run", "command", command.as_str(), "code", code.as_str())
        },
        EventKind::ApprovalRequest { detail, .. } => {
            proof {
                reveal_strlit("engine.approval_needed");
                reveal_strlit("detail");
            }
            tw1(locale, "engine.approval_needed", "detail", detail.as_str())
        },
        EventKind::Log { message } => message.clone(),
        EventKind::TokenUsage { input_tokens, output_tokens } => {
            proof {
                reveal_strlit("engine.token_usage");
                reveal_strlit("input");
                reveal_strlit("output");
            }
            let input = u64_text(*input_tokens);
            let output = u64_text(*output_tokens);
            tw2(locale, "engine.token_usage", "input", input.as_str(), "output", output.as_str())
        },
        EventKind::TurnComplete { ok } => {
            proof {
                reveal_strlit("engine.turn_complete");
                reveal_strlit("engine.turn_ended");
            }
            if *ok {
                tr(locale, "engine.turn_complete")
            } else {
                tr(locale, "engine.turn_ended")
            }
        },
        EventKind::Error { code, message } => match crate::i18n::error_message(
            locale,
            code.as_str(),
        ) {
            Some(text) => string_of(&chars_of(text)),
            None => message.clone(),
        },
    }
}

/// `a`, a line break, then `b`.
fn join_lines(a: &str, b: &str) -> (r: String)
    ensures
        r@ == two_lines(a@, b@),
{
    let mut v = chars_of(a);
    v.push('\n');
    extend_chars(&mut v, &chars_of(b));
    assert(v@ =~= two_lines(a@, b@));
    string_of(&v)
}

/// The prompt to show when an event needs a human answer, or `None` when it does not.
pub fn pending_prompt(locale: Locale, kind: &EventKind) -> (r: Option<String>)
    ensures
        match r {
            Some(text) => prompt_for(locale, *kind) == Some(text@),
            None => prompt_for(locale, *kind) is None,
        },
{
    proof {
        reveal_strlit("engine.approve_keys");
    }
    let keys = tr(locale, "engine.approve_keys");
    match kind {
        EventKind::PlanProposed { plan, .. } => {
            proof {
                reveal_strlit("engine.plan_prompt");
                reveal_strlit("summary");
                reveal_strlit("steps");
                reveal_strlit("paths");
                reveal_strlit("commands");
            }
            let steps = u64_text(plan.steps.len() as u64);
            let paths = u64_text(plan.scope.write_paths.len() as u64);
            let commands = u64_text(plan.scope.commands.len() as u64);
            let params = [
                ("summary", plan.summary.as_str()),
                ("steps", steps.as_str()),
                ("paths", paths.as_str()),
                ("commands", commands.as_str()),
            ];
            let body = t_with(locale, "engine.plan_prompt", &params);
            assert(crate::i18n::param_views(params@) =~= seq![
                ("summary"@, plan.summary@),
                ("steps"@, decimal(plan.steps@.len())),
                ("paths"@, decimal(plan.scope.write_paths@.len())),
                ("commands"@, decimal(plan.scope.commands@.len())),
            ]);
            Some(join_lines(body.as_str(), keys.as_str()))
        },
        EventKind::ApprovalRequest { reason, detail, .. } => {
            let why = match reason {
                GateReason::OutsideScope { what } => {
                    proof {
                        reveal_strlit("engine.reason_outside_scope");
                        reveal_strlit("what");
                    }
                    tw1(locale, "engine.reason_outside_scope", "what", what.as_str())
                },
                GateReason::SensitiveFloor { path } => {
                    proof {
                        reveal_strlit("engine.reason_sensitive");
                        reveal_strlit("path");
                    }
                    tw1(locale, "engine.reason_sensitive", "path", path.as_str())
                },
            };
            let first = join_lines(detail.as_str(), why.as_str());
            Some(join_lines(first.as_str(), keys.as_str()))
        },
        _ => None,
    }
}

} // verus!
