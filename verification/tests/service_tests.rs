use hmac::{Hmac, Mac};
use jimmy::actions::{plan_action, ActionArgs, ActionError, ArgValue, Completion};
use jimmy::auth::{authenticate, constant_time_eq, expected_signature, AuthError};
use jimmy::clock::UtcTime;
use jimmy::config::{
    default_bind, default_confirm, default_confirmation_ttl, default_fixed_voice, default_name,
    default_ollama_model, default_ollama_url, default_stt_ready, default_system_prompt,
    default_voice_engine, default_voice_mode, default_voice_port, default_voice_status_url,
    default_voice_url, Config,
};
use jimmy::service::{
    action_completed, confirm_completed, ActionRequest, ActionStep, ChatStep, ConfirmStep, Endpoint, Jimmy,
};
use jimmy::upstream::{ollama_failure_message, voice_failure_message, ChatMessage, UpstreamFailure};
use sha2::Sha256;

const SECRET: &str = "0123456789abcdef0123456789abcdef";

fn config() -> Config {
    Config {
        bind: default_bind(),
        shared_secret: SECRET.to_string(),
        name: default_name(),
        require_confirmation_for: default_confirm(),
        allowed_apps: vec!["firefox".to_string(), "kitty".to_string()],
        ollama_url: default_ollama_url(),
        ollama_model: default_ollama_model(),
        ollama_system_prompt: default_system_prompt(),
        voice_url: default_voice_url(),
        voice_status_url: default_voice_status_url(),
        voice_engine: default_voice_engine(),
        fixed_voice: default_fixed_voice(),
        loaded_voices: vec![],
        voice_port: default_voice_port(),
        voice_mode: default_voice_mode(),
        stt_ready: default_stt_ready(),
        piper: false,
        confirmation_ttl_seconds: default_confirmation_ttl(),
    }
}

fn sign(secret: &str, payload: &[u8]) -> String {
    let mut mac = <Hmac<Sha256> as Mac>::new_from_slice(secret.as_bytes()).unwrap();
    mac.update(payload);
    hex::encode(mac.finalize().into_bytes())
}

fn args(entries: Vec<(&str, ArgValue)>) -> ActionArgs {
    ActionArgs { entries: entries.into_iter().map(|(k, v)| (k.to_string(), v)).collect() }
}

fn text(s: &str) -> ArgValue {
    ArgValue::Text(s.to_string())
}

fn request(action: &str, a: ActionArgs) -> ActionRequest {
    ActionRequest { action: action.to_string(), args: a, reason: Some("because".to_string()), source: "jonathan".to_string() }
}

const T0: UtcTime = UtcTime { secs: 1_700_000_000, nanos: 123_000_000 };

fn later(t: UtcTime, nanos: i128) -> UtcTime {
    let total = t.secs as i128 * 1_000_000_000 + t.nanos as i128 + nanos;
    UtcTime { secs: total.div_euclid(1_000_000_000) as i64, nanos: total.rem_euclid(1_000_000_000) as u32 }
}

#[test]
fn constant_time_eq_compares_bytes() {
    assert!(constant_time_eq(b"abc", b"abc"));
    assert!(!constant_time_eq(b"abc", b"abd"));
    assert!(!constant_time_eq(b"abc", b"abcd"));
    assert!(constant_time_eq(b"", b""));
}

#[test]
fn expected_signature_is_lowercase_hex_hmac_sha256() {
    // RFC 4231, test case 2.
    assert_eq!(
        expected_signature("Jefe", b"what do ya want for nothing?"),
        "5bdcc146bf60754e6a042426089575c75a003f089d2739839dec58b964ec3843"
    );
    assert_eq!(expected_signature(SECRET, b"status"), sign(SECRET, b"status"));
}

#[test]
fn authenticate_accepts_only_the_exact_signature() {
    let good = sign(SECRET, b"payload");
    assert_eq!(authenticate(SECRET, &good, b"payload"), Ok(()));
    assert_eq!(authenticate(SECRET, &good.to_uppercase(), b"payload"), Err(AuthError::InvalidSignature));
    assert_eq!(authenticate(SECRET, &good, b"payload!"), Err(AuthError::InvalidSignature));
    assert_eq!(authenticate(SECRET, "", b"payload"), Err(AuthError::InvalidSignature));
    assert_eq!(authenticate(SECRET, "", b"status").unwrap_err().message(), "invalid signature");
    assert_eq!(expected_signature(SECRET, b"").len(), 64);
    assert_eq!(authenticate("another secret that is long enough", &good, b"payload"), Err(AuthError::InvalidSignature));
    assert_eq!(AuthError::InvalidSignature.message(), "invalid signature");
}

#[test]
fn secret_must_have_32_bytes() {
    let mut c = config();
    assert!(c.check_secret().is_ok());
    c.shared_secret = "x".repeat(31);
    let err = c.check_secret().unwrap_err();
    assert_eq!(err.message(), "shared_secret must be at least 32 characters");
    // Sixteen two-byte characters are 32 bytes.
    c.shared_secret = "é".repeat(16);
    assert!(c.check_secret().is_ok());
}

#[test]
fn listen_address_prefers_configuration() {
    let mut c = config();
    assert_eq!(c.listen_address("0.0.0.0:1".to_string()), "127.0.0.1:8787");
    c.bind = String::new();
    assert_eq!(c.listen_address("0.0.0.0:1".to_string()), "0.0.0.0:1");
}

#[test]
fn defaults_match_documentation() {
    assert_eq!(default_bind(), "127.0.0.1:8787");
    assert_eq!(default_name(), "Jimmy");
    assert_eq!(default_confirm(), vec!["close_app", "type_text", "mouse_click", "shutdown", "reboot"]);
    assert_eq!(default_ollama_url(), "http://192.168.10.181:11434");
    assert_eq!(default_ollama_model(), "llama3.2");
    assert!(default_system_prompt().starts_with("You are Jimmy"));
    assert_eq!(default_voice_url(), "http://127.0.0.1:5006");
    assert_eq!(default_voice_status_url(), "http://127.0.0.1:5006/health");
    assert_eq!(default_voice_engine(), "whisper.cpp tiny.en");
    assert_eq!(default_fixed_voice(), "en_US-lessac-medium.onnx");
    assert_eq!(default_voice_port(), 5006);
    assert_eq!(default_voice_mode(), "fixed voice");
    assert!(default_stt_ready());
    assert_eq!(default_confirmation_ttl(), 120);
}

fn plan(action: &str, a: ActionArgs) -> Result<(String, Vec<String>, Option<String>), String> {
    match plan_action(&config(), action, &a) {
        Ok(p) => Ok((
            p.command.program,
            p.command.args,
            match p.completion {
                Completion::Report(r) => Some(r),
                Completion::Output => None,
            },
        )),
        Err(e) => Err(e.message()),
    }
}

fn owned(v: &[&str]) -> Vec<String> {
    v.iter().map(|s| s.to_string()).collect()
}

#[test]
fn policy_plans_the_fixed_commands() {
    let none = ActionArgs::empty;
    assert_eq!(plan("lock", none()), Ok(("loginctl".into(), owned(&["lock-session"]), Some("session locked".into()))));
    assert_eq!(plan("get_windows", none()), Ok(("hyprctl".into(), owned(&["clients", "-j"]), None)));
    assert_eq!(plan("shutdown", none()), Ok(("loginctl".into(), owned(&["poweroff"]), Some("shutdown requested".into()))));
    assert_eq!(plan("reboot", none()), Ok(("loginctl".into(), owned(&["reboot"]), Some("reboot requested".into()))));
}

#[test]
fn policy_opens_only_http_urls() {
    let url = args(vec![("url", text("https://example.org/a"))]);
    assert_eq!(
        plan("open_url", url),
        Ok(("xdg-open".into(), owned(&["https://example.org/a"]), Some("opened https://example.org/a".into())))
    );
    assert!(plan("open_url", args(vec![("url", text("http://x"))])).is_ok());
    assert_eq!(plan("open_url", args(vec![("url", text("file:///etc/passwd"))])), Err("only http/https URLs are allowed".into()));
    assert_eq!(plan("open_url", args(vec![("url", ArgValue::Integer(3))])), Err("url required".into()));
    assert_eq!(plan("open_url", ActionArgs::empty()), Err("url required".into()));
}

#[test]
fn policy_starts_only_allowlisted_apps() {
    assert_eq!(plan("open_app", args(vec![("app", text("kitty"))])), Ok(("kitty".into(), vec![], Some("started kitty".into()))));
    assert_eq!(plan("open_app", args(vec![("app", text("bash"))])), Err("application is not allowlisted".into()));
    assert_eq!(plan("open_app", ActionArgs::empty()), Err("app required".into()));
}

#[test]
fn policy_checks_window_addresses() {
    assert_eq!(
        plan("focus_window", args(vec![("address", text("0x55d0c0ffee"))])),
        Ok(("hyprctl".into(), owned(&["dispatch", "focuswindow", "address:0x55d0c0ffee"]), Some("window focused".into())))
    );
    assert_eq!(plan("focus_window", args(vec![("address", text("55d0"))])), Err("invalid Hyprland address".into()));
    let long = format!("0x{}", "f".repeat(31));
    assert_eq!(plan("focus_window", args(vec![("address", text(&long))])), Err("invalid Hyprland address".into()));
    let exact = format!("0x{}", "f".repeat(30));
    assert!(plan("focus_window", args(vec![("address", text(&exact))])).is_ok());
    assert_eq!(plan("focus_window", ActionArgs::empty()), Err("Hyprland window address required".into()));
}

#[test]
fn policy_bounds_workspaces() {
    assert_eq!(
        plan("workspace", args(vec![("workspace", ArgValue::Integer(7))])),
        Ok(("hyprctl".into(), owned(&["dispatch", "workspace", "7"]), Some("moved to workspace 7".into())))
    );
    assert_eq!(
        plan("workspace", args(vec![("workspace", ArgValue::Integer(99))])),
        Ok(("hyprctl".into(), owned(&["dispatch", "workspace", "99"]), Some("moved to workspace 99".into())))
    );
    assert_eq!(plan("workspace", args(vec![("workspace", ArgValue::Integer(0))])), Err("workspace must be 1..99".into()));
    assert_eq!(plan("workspace", args(vec![("workspace", ArgValue::Integer(100))])), Err("workspace must be 1..99".into()));
    assert_eq!(plan("workspace", args(vec![("workspace", text("3"))])), Err("workspace required".into()));
}

#[test]
fn policy_keeps_screenshots_in_tmp() {
    assert_eq!(
        plan("screenshot", ActionArgs::empty()),
        Ok(("grim".into(), owned(&["/tmp/jimmy-screenshot.png"]), Some("/tmp/jimmy-screenshot.png".into())))
    );
    assert!(plan("screenshot", args(vec![("path", text("/tmp/a.png"))])).is_ok());
    assert_eq!(plan("screenshot", args(vec![("path", text("/home/h/a.png"))])), Err("screenshots are restricted to /tmp".into()));
    let outside = "screenshots are restricted to /tmp";
    assert_eq!(plan("screenshot", args(vec![("path", text("/tmp/../home/harry/x.png"))])), Err(outside.into()));
    assert_eq!(plan("screenshot", args(vec![("path", text("/tmp/a/../../etc/x.png"))])), Err(outside.into()));
    assert_eq!(plan("screenshot", args(vec![("path", text("/tmp/shots/.."))])), Err(outside.into()));
    assert!(plan("screenshot", args(vec![("path", text("/tmp/a..b.png"))])).is_ok());
    assert!(plan("screenshot", args(vec![("path", text("/tmp/.../x.png"))])).is_ok());
    assert!(plan("screenshot", args(vec![("path", text("/tmp/.hidden.png"))])).is_ok());
    assert_eq!(
        plan("screenshot", args(vec![("path", ArgValue::Other)])),
        Ok(("grim".into(), owned(&["/tmp/jimmy-screenshot.png"]), Some("/tmp/jimmy-screenshot.png".into())))
    );
}

#[test]
fn policy_refuses_input_killing_and_unknown_actions() {
    let input = "input control is intentionally disabled until ydotool/uinput permissions are explicitly configured";
    assert_eq!(plan("type_text", ActionArgs::empty()), Err(input.into()));
    assert_eq!(plan("mouse_click", ActionArgs::empty()), Err(input.into()));
    assert_eq!(
        plan("close_app", ActionArgs::empty()),
        Err("close_app is not implemented yet; no arbitrary process killing is allowed".into())
    );
    assert_eq!(plan("rm -rf /", ActionArgs::empty()), Err("unknown action: rm -rf /".into()));
    assert!(matches!(plan_action(&config(), "x", &ActionArgs::empty()), Err(ActionError::UnknownAction(_))));
}

#[test]
fn plan_finish_reports_or_passes_output() {
    let p = plan_action(&config(), "lock", &ActionArgs::empty()).unwrap();
    assert_eq!(p.finish(Ok("ignored".into())), Ok("session locked".to_string()));
    assert_eq!(p.finish(Err("loginctl failed: no".into())), Err("loginctl failed: no".to_string()));
    let w = plan_action(&config(), "get_windows", &ActionArgs::empty()).unwrap();
    assert_eq!(w.finish(Ok("[]".into())), Ok("[]".to_string()));
}

#[test]
fn unsigned_action_is_denied_and_changes_nothing() {
    let mut j = Jimmy::new(config());
    let step = j.submit_action("nope", b"{}", request("shutdown", ActionArgs::empty()), "id-1".into(), T0);
    match step {
        ActionStep::Respond(r) => {
            assert_eq!((r.http_status, r.ok, r.status.as_str(), r.message.as_str()), (401, false, "denied", "invalid signature"));
            assert_eq!(r.request_id, "id-1");
            assert!(!r.confirmation_required);
        }
        _ => panic!("expected a denial"),
    }
    assert!(!j.is_pending("id-1"));
}

#[test]
fn sensitive_action_waits_for_confirmation() {
    let mut j = Jimmy::new(config());
    let payload = br#"{"action":"shutdown"}"#;
    let step = j.submit_action(&sign(SECRET, payload), payload, request("shutdown", ActionArgs::empty()), "id-2".into(), T0);
    match step {
        ActionStep::Respond(r) => {
            assert_eq!((r.http_status, r.ok, r.status.as_str()), (200, true, "pending_confirmation"));
            assert_eq!(r.message, "shutdown requires your confirmation");
            assert!(r.confirmation_required);
        }
        _ => panic!("a sensitive action must wait"),
    }
    let p = j.pending_action("id-2").unwrap();
    assert_eq!(p.action, "shutdown");
    assert_eq!(p.created_at, "2023-11-14T22:13:20.123+00:00");
    assert_eq!(p.reason.as_deref(), Some("because"));
    assert_eq!(p.source, "jonathan");
}

#[test]
fn ordinary_action_is_planned_or_refused_at_once() {
    let mut j = Jimmy::new(config());
    let payload = b"lock";
    match j.submit_action(&sign(SECRET, payload), payload, request("lock", ActionArgs::empty()), "id-3".into(), T0) {
        ActionStep::Execute { request_id, plan } => {
            assert_eq!(request_id, "id-3");
            assert_eq!(plan.command.program, "loginctl");
        }
        _ => panic!("lock runs at once"),
    }
    let payload = b"url";
    let bad = args(vec![("url", text("ftp://x"))]);
    match j.submit_action(&sign(SECRET, payload), payload, request("open_url", bad), "id-4".into(), T0) {
        ActionStep::Respond(r) => {
            assert_eq!((r.http_status, r.ok, r.status.as_str()), (400, false, "failed"));
            assert_eq!(r.message, "only http/https URLs are allowed");
        }
        _ => panic!("a refused action answers at once"),
    }
    assert!(!j.is_pending("id-3") && !j.is_pending("id-4"));
}

#[test]
fn action_completed_reports_outcome() {
    let ok = action_completed("r".into(), Ok("session locked".into()));
    assert_eq!((ok.http_status, ok.ok, ok.status.as_str(), ok.message.as_str()), (200, true, "completed", "session locked"));
    let err = action_completed("r".into(), Err("grim failed: x".into()));
    assert_eq!((err.http_status, err.ok, err.status.as_str(), err.message.as_str()), (400, false, "failed", "grim failed: x"));
}

fn queue_shutdown(j: &mut Jimmy, id: &str, at: UtcTime) {
    let payload = b"shutdown";
    let step = j.submit_action(&sign(SECRET, payload), payload, request("shutdown", ActionArgs::empty()), id.into(), at);
    assert!(matches!(step, ActionStep::Respond(ref r) if r.status == "pending_confirmation"));
}

#[test]
fn confirmation_within_ttl_runs_once() {
    let mut j = Jimmy::new(config());
    queue_shutdown(&mut j, "c1", T0);
    let sig = sign(SECRET, b"c1");
    let step = j.confirm(&sig, "c1", later(T0, 120 * 1_000_000_000));
    assert_eq!(step.http_status(), 200);
    match step {
        ConfirmStep::Execute(plan) => {
            assert_eq!(plan.command.program, "loginctl");
            assert_eq!(plan.command.args, vec!["poweroff".to_string()]);
        }
        other => panic!("expected execution, got {:?}", other),
    }
    let again = j.confirm(&sig, "c1", later(T0, 1));
    assert!(matches!(again, ConfirmStep::NotFound));
    assert_eq!(again.http_status(), 404);
    assert_eq!(again.error_message().unwrap(), "confirmation not found or expired");
}

#[test]
fn late_confirmation_expires_and_is_removed() {
    let mut j = Jimmy::new(config());
    queue_shutdown(&mut j, "c2", T0);
    let sig = sign(SECRET, b"c2");
    let step = j.confirm(&sig, "c2", later(T0, 120 * 1_000_000_000 + 1));
    assert!(matches!(step, ConfirmStep::Expired));
    assert_eq!(step.http_status(), 410);
    assert_eq!(step.error_message().unwrap(), "confirmation expired");
    assert!(!j.is_pending("c2"));
}

#[test]
fn unsigned_confirmation_is_denied_and_keeps_request() {
    let mut j = Jimmy::new(config());
    queue_shutdown(&mut j, "c3", T0);
    let step = j.confirm(&sign(SECRET, b"other"), "c3", T0);
    assert!(matches!(step, ConfirmStep::Denied(AuthError::InvalidSignature)));
    assert_eq!(step.http_status(), 401);
    assert!(j.is_pending("c3"));
}

#[test]
fn confirmed_action_can_still_be_refused() {
    let mut c = config();
    c.require_confirmation_for.push("open_url".into());
    let mut j = Jimmy::new(c);
    let payload = b"u";
    let a = args(vec![("url", text("gopher://x"))]);
    let _ = j.submit_action(&sign(SECRET, payload), payload, request("open_url", a), "c4".into(), T0);
    let step = j.confirm(&sign(SECRET, b"c4"), "c4", T0);
    assert_eq!(step.http_status(), 400);
    assert_eq!(step.error_message().unwrap(), "only http/https URLs are allowed");
}

#[test]
fn unrepresentable_ttl_is_reported_by_checked_confirmation() {
    let mut c = config();
    c.confirmation_ttl_seconds = i64::MAX;
    let mut j = Jimmy::new(c);
    queue_shutdown(&mut j, "c5", T0);
    assert!(j.confirm_checked(&sign(SECRET, b"wrong"), "c5", T0).map(|s| matches!(s, ConfirmStep::Denied(_))).unwrap());
    assert!(j.is_pending("c5"));
    assert!(j.confirm_checked(&sign(SECRET, b"c5"), "c5", T0).is_none());
    assert!(!j.is_pending("c5"));
    assert!(matches!(j.confirm_checked(&sign(SECRET, b"c6"), "c6", T0), Some(ConfirmStep::NotFound)));
}

#[test]
fn read_endpoints_sign_their_names() {
    let j = Jimmy::new(config());
    assert!(j.authorize(&sign(SECRET, b"status"), Endpoint::Status).is_ok());
    assert!(j.authorize(&sign(SECRET, b"voice-config"), Endpoint::VoiceConfig).is_ok());
    assert!(j.authorize(&sign(SECRET, b"voice-status"), Endpoint::VoiceStatus).is_ok());
    assert!(j.authorize(&sign(SECRET, b"status"), Endpoint::VoiceStatus).is_err());
}

#[test]
fn chat_prepends_system_prompt() {
    let mut c = config();
    c.ollama_url = "http://10.0.0.2:11434//".into();
    let j = Jimmy::new(c);
    let payload = b"chat";
    let msgs = vec![ChatMessage { role: "user".into(), content: "hi".into() }];
    match j.prepare_chat(&sign(SECRET, payload), payload, msgs) {
        ChatStep::Send(chat) => {
            assert_eq!(chat.url, "http://10.0.0.2:11434/api/chat");
            assert_eq!(chat.model, "llama3.2");
            assert_eq!(chat.messages.len(), 2);
            assert_eq!(chat.messages[0].role, "system");
            assert_eq!(chat.messages[0].content, default_system_prompt());
            assert_eq!(chat.messages[1].content, "hi");
        }
        other => panic!("expected a chat, got {:?}", other),
    }
    let empty = j.prepare_chat(&sign(SECRET, payload), payload, vec![]);
    assert_eq!(empty.refusal(), Some((400, "messages cannot be empty".to_string())));
    let denied = j.prepare_chat("bad", payload, vec![]);
    assert_eq!(denied.refusal(), Some((401, "invalid signature".to_string())));
}

#[test]
fn upstream_failures_are_described() {
    let e = UpstreamFailure::BadStatus { status: "500 Internal Server Error".into(), body: "boom".into() };
    assert_eq!(ollama_failure_message(&e), "Ollama returned 500 Internal Server Error: boom");
    assert_eq!(voice_failure_message(&e), "voice service returned 500 Internal Server Error");
    let u = UpstreamFailure::Unreachable("connection refused".into());
    assert_eq!(ollama_failure_message(&u), "cannot reach Ollama: connection refused");
    assert_eq!(voice_failure_message(&u), "cannot reach voice service: connection refused");
    let i = UpstreamFailure::InvalidResponse("eof".into());
    assert_eq!(ollama_failure_message(&i), "invalid Ollama response: eof");
    assert_eq!(voice_failure_message(&i), "invalid voice service response: eof");
}

#[test]
fn confirmed_action_answer() {
    let ok = confirm_completed("c9".into(), Ok("shutdown requested".into()));
    assert_eq!((ok.http_status, ok.ok, ok.status.as_str()), (200, true, "completed"));
    assert_eq!(ok.message.as_deref(), Some("shutdown requested"));
    assert_eq!(ok.request_id.as_deref(), Some("c9"));
    assert!(ok.error.is_none());
    let err = confirm_completed("c9".into(), Err("loginctl failed: denied".into()));
    assert_eq!((err.http_status, err.ok, err.status.as_str()), (400, false, "failed"));
    assert_eq!(err.error.as_deref(), Some("loginctl failed: denied"));
    assert!(err.message.is_none() && err.request_id.is_none());
}
