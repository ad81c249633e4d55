//! The desktop action policy: which requested actions run, as which
//! command, and what the caller is told.
//!
//! No action runs a shell. Each one maps to one fixed program with fixed
//! arguments, or to an allowlisted application; everything else is refused.

use crate::config::Config;
use crate::numbers::{parse_unsigned, IntErrorKind};
use crate::text::{
    climbs_to_parent, contains_text, has_parent_component, has_prefix, join, starts_with, text_eq,
};
use vstd::prelude::*;
use vstd::utf8::*;

verus! {

broadcast use vstd::string::group_string_axioms;

/// A JSON argument value, as far as the policy reads it.
#[derive(Debug, Clone)]
pub enum ArgValue {
    /// A JSON string.
    Text(String),
    /// A JSON number that fits in an `i64`.
    Integer(i64),
    /// Any other JSON value.
    Other,
}

/// The arguments of an action: the members of the request's `args` object
/// (empty where `args` is not an object).
#[derive(Debug, Clone)]
pub struct ActionArgs {
    pub entries: Vec<(String, ArgValue)>,
}

/// The value of the first member named `key`.
pub open spec fn lookup_arg(entries: Seq<(String, ArgValue)>, key: Seq<char>) -> Option<ArgValue>
    decreases entries.len(),
{
    if entries.len() == 0 {
        None
    } else if entries[0].0@ == key {
        Some(entries[0].1)
    } else {
        lookup_arg(entries.drop_first(), key)
    }
}

/// The value of a member is that of the first member with its name; a name
/// that no member has has no value.
pub proof fn lemma_lookup_arg_first(entries: Seq<(String, ArgValue)>, key: Seq<char>)
    ensures
        lookup_arg(entries, key) is None <==> forall|i: int| 0 <= i < entries.len() ==> #[trigger] entries[i].0@ != key,
        lookup_arg(entries, key) matches Some(v) ==> exists|i: int|
            0 <= i < entries.len() && #[trigger] entries[i].0@ == key && entries[i].1 == v && forall|j: int|
                0 <= j < i ==> #[trigger] entries[j].0@ != key,
    decreases entries.len(),
{
    if entries.len() > 0 {
        let rest = entries.drop_first();
        lemma_lookup_arg_first(rest, key);
        if entries[0].0@ == key {
            assert(entries[0].0@ == key && forall|j: int| 0 <= j < 0 ==> #[trigger] entries[j].0@ != key);
        } else {
            assert forall|i: int| 0 < i < entries.len() implies entries[i] == #[trigger] rest[i - 1] by {}
            if lookup_arg(rest, key) is None {
                assert forall|i: int| 0 <= i < entries.len() implies #[trigger] entries[i].0@ != key by {
                    if i > 0 {
                        assert(entries[i] == rest[i - 1]);
                    }
                }
            } else {
                let v = lookup_arg(rest, key)->Some_0;
                let k = choose|k: int|
                    0 <= k < rest.len() && #[trigger] rest[k].0@ == key && rest[k].1 == v && forall|j: int|
                        0 <= j < k ==> #[trigger] rest[j].0@ != key;
                assert(entries[k + 1] == rest[k]);
                assert forall|j: int| 0 <= j < k + 1 implies #[trigger] entries[j].0@ != key by {
                    if j > 0 {
                        assert(entries[j] == rest[j - 1]);
                    }
                }
                assert(entries[k + 1].0@ == key);
            }
        }
    }
}

impl ActionArgs {
    /// Arguments of a request that carries none.
    pub fn empty() -> (res: ActionArgs)
        ensures
            res.entries@.len() == 0,
    {
        ActionArgs { entries: Vec::new() }
    }

    /// The member `key` where it is a string.
    pub open spec fn text_arg(self, key: Seq<char>) -> Option<Seq<char>> {
        match lookup_arg(self.entries@, key) {
            Some(ArgValue::Text(s)) => Some(s@),
            _ => None,
        }
    }

    /// The member `key` where it is an integer that fits in an `i64`.
    pub open spec fn integer_arg(self, key: Seq<char>) -> Option<i64> {
        match lookup_arg(self.entries@, key) {
            Some(ArgValue::Integer(n)) => Some(n),
            _ => None,
        }
    }

    /// Index of the first member named `key`.
    fn position(&self, key: &str) -> (res: Option<usize>)
        ensures
            match res {
                Some(i) => i < self.entries@.len() && lookup_arg(self.entries@, key@) == Some(
                    self.entries@[i as int].1,
                ),
                None => lookup_arg(self.entries@, key@) is None,
            },
    {
        let mut i: usize = 0;
        assert(self.entries@.skip(0) =~= self.entries@);
        while i < self.entries.len()
            invariant
                0 <= i <= self.entries@.len(),
                lookup_arg(self.entries@, key@) == lookup_arg(self.entries@.skip(i as int), key@),
            decreases self.entries@.len() - i,
        {
            assert(self.entries@.skip(i as int)[0] == self.entries@[i as int]);
            if text_eq(self.entries[i].0.as_str(), key) {
                return Some(i);
            }
            assert(self.entries@.skip(i as int).drop_first() =~= self.entries@.skip(i + 1));
            i = i + 1;
        }
        None
    }

    /// The member `key` where it is a string.
    pub fn get_text(&self, key: &str) -> (res: Option<String>)
        ensures
            match res {
                Some(s) => self.text_arg(key@) == Some(s@),
                None => self.text_arg(key@) is None,
            },
    {
        match self.position(key) {
            Some(i) => match &self.entries[i].1 {
                ArgValue::Text(s) => Some(s.clone()),
                _ => None,
            },
            None => None,
        }
    }

    /// The member `key` where it is an integer that fits in an `i64`.
    pub fn get_integer(&self, key: &str) -> (res: Option<i64>)
        ensures
            res == self.integer_arg(key@),
    {
        match self.position(key) {
            Some(i) => match &self.entries[i].1 {
                ArgValue::Integer(n) => Some(*n),
                _ => None,
            },
            None => None,
        }
    }
}

/// A program to start and its arguments.
#[derive(Debug, Clone)]
pub struct Command {
    pub program: String,
    pub args: Vec<String>,
}

/// What the caller is told once the command has succeeded.
#[derive(Debug, Clone)]
pub enum Completion {
    /// This fixed report.
    Report(String),
    /// The command's trimmed standard output.
    Output,
}

/// An action the policy allows: the command to run and the report.
#[derive(Debug, Clone)]
pub struct ActionPlan {
    pub command: Command,
    pub completion: Completion,
}

/// The content of a plan: program, arguments, and the fixed report, or
/// `None` where the command's output is the report.
pub struct PlanView {
    pub program: Seq<char>,
    pub args: Seq<Seq<char>>,
    pub report: Option<Seq<char>>,
}

impl View for ActionPlan {
    type V = PlanView;

    open spec fn view(&self) -> PlanView {
        PlanView {
            program: self.command.program@,
            args: self.command.args.deep_view(),
            report: match self.completion {
                Completion::Report(s) => Some(s@),
                Completion::Output => None,
            },
        }
    }
}

/// Why the policy refuses an action, in the caller's words.
pub enum Refusal {
    UrlRequired,
    UrlSchemeNotAllowed,
    AppRequired,
    AppNotAllowlisted,
    CloseAppUnsupported,
    AddressRequired,
    InvalidAddress,
    WorkspaceRequired,
    WorkspaceOutOfRange,
    ScreenshotOutsideTmp,
    InputControlDisabled,
    UnknownAction(Seq<char>),
}

/// Why the policy refuses an action.
#[derive(Debug, Clone)]
pub enum ActionError {
    UrlRequired,
    UrlSchemeNotAllowed,
    AppRequired,
    AppNotAllowlisted,
    CloseAppUnsupported,
    AddressRequired,
    InvalidAddress,
    WorkspaceRequired,
    WorkspaceOutOfRange,
    ScreenshotOutsideTmp,
    InputControlDisabled,
    UnknownAction(String),
}

impl View for ActionError {
    type V = Refusal;

    open spec fn view(&self) -> Refusal {
        match self {
            ActionError::UrlRequired => Refusal::UrlRequired,
            ActionError::UrlSchemeNotAllowed => Refusal::UrlSchemeNotAllowed,
            ActionError::AppRequired => Refusal::AppRequired,
            ActionError::AppNotAllowlisted => Refusal::AppNotAllowlisted,
            ActionError::CloseAppUnsupported => Refusal::CloseAppUnsupported,
            ActionError::AddressRequired => Refusal::AddressRequired,
            ActionError::InvalidAddress => Refusal::InvalidAddress,
            ActionError::WorkspaceRequired => Refusal::WorkspaceRequired,
            ActionError::WorkspaceOutOfRange => Refusal::WorkspaceOutOfRange,
            ActionError::ScreenshotOutsideTmp => Refusal::ScreenshotOutsideTmp,
            ActionError::InputControlDisabled => Refusal::InputControlDisabled,
            ActionError::UnknownAction(a) => Refusal::UnknownAction(a@),
        }
    }
}

impl Refusal {
    /// The text of the refusal.
    pub open spec fn message_text(self) -> Seq<char> {
        match self {
            Refusal::UrlRequired => "url required"@,
            Refusal::UrlSchemeNotAllowed => "only http/https URLs are allowed"@,
            Refusal::AppRequired => "app required"@,
            Refusal::AppNotAllowlisted => "application is not allowlisted"@,
            Refusal::CloseAppUnsupported => "close_app is not implemented yet; no arbitrary process killing is allowed"@,
            Refusal::AddressRequired => "Hyprland window address required"@,
            Refusal::InvalidAddress => "invalid Hyprland address"@,
            Refusal::WorkspaceRequired => "workspace required"@,
            Refusal::WorkspaceOutOfRange => "workspace must be 1..99"@,
            Refusal::ScreenshotOutsideTmp => "screenshots are restricted to /tmp"@,
            Refusal::InputControlDisabled => "input control is intentionally disabled until ydotool/uinput permissions are explicitly configured"@,
            Refusal::UnknownAction(a) => "unknown action: "@ + a,
        }
    }
}

impl ActionError {
    /// The text of the refusal, as sent back to the caller.
    pub fn message(&self) -> (res: String)
        ensures
            res@ == self@.message_text(),
    {
        match self {
            ActionError::UrlRequired => String::from_str("url required"),
            ActionError::UrlSchemeNotAllowed => String::from_str("only http/https URLs are allowed"),
            ActionError::AppRequired => String::from_str("app required"),
            ActionError::AppNotAllowlisted => String::from_str("application is not allowlisted"),
            ActionError::CloseAppUnsupported => String::from_str(
                "close_app is not implemented yet; no arbitrary process killing is allowed",
            ),
            ActionError::AddressRequired => String::from_str("Hyprland window address required"),
            ActionError::InvalidAddress => String::from_str("invalid Hyprland address"),
            ActionError::WorkspaceRequired => String::from_str("workspace required"),
            ActionError::WorkspaceOutOfRange => String::from_str("workspace must be 1..99"),
            ActionError::ScreenshotOutsideTmp => String::from_str("screenshots are restricted to /tmp"),
            ActionError::InputControlDisabled => String::from_str(
                "input control is intentionally disabled until ydotool/uinput permissions are explicitly configured",
            ),
            ActionError::UnknownAction(a) => join("unknown action: ", a.as_str()),
        }
    }
}

/// The text of one decimal digit.
pub open spec fn digit_text(d: int) -> Seq<char> {
    if d == 0 {
        "0"@
    } else if d == 1 {
        "1"@
    } else if d == 2 {
        "2"@
    } else if d == 3 {
        "3"@
    } else if d == 4 {
        "4"@
    } else if d == 5 {
        "5"@
    } else if d == 6 {
        "6"@
    } else if d == 7 {
        "7"@
    } else if d == 8 {
        "8"@
    } else {
        "9"@
    }
}

/// The decimal text of a natural number, without leading zeros.
pub open spec fn decimal_text(n: nat) -> Seq<char>
    decreases n,
{
    if n < 10 {
        digit_text(n as int)
    } else {
        decimal_text(n / 10) + digit_text((n % 10) as int)
    }
}

fn digit(d: i64) -> (res: &'static str)
    requires
        0 <= d <= 9,
    ensures
        res@ == digit_text(d as int),
{
    if d == 0 {
        "0"
    } else if d == 1 {
        "1"
    } else if d == 2 {
        "2"
    } else if d == 3 {
        "3"
    } else if d == 4 {
        "4"
    } else if d == 5 {
        "5"
    } else if d == 6 {
        "6"
    } else if d == 7 {
        "7"
    } else if d == 8 {
        "8"
    } else {
        "9"
    }
}

/// Decimal text of a number below one hundred.
fn small_decimal(n: i64) -> (res: String)
    requires
        0 <= n <= 99,
    ensures
        res@ == decimal_text(n as nat),
{
    if n < 10 {
        String::from_str(digit(n))
    } else {
        assert(decimal_text((n / 10) as nat) == digit_text(n / 10));
        join(digit(n / 10), digit(n % 10))
    }
}

/// The screenshot path used where the request names none. A requested
/// path must start with `/tmp/` and have no `..` component, so that the
/// screenshot is written under `/tmp`.
pub open spec fn default_screenshot_path() -> Seq<char> {
    "/tmp/jimmy-screenshot.png"@
}

/// The plan that runs `program` with `args` and reports `report`.
pub open spec fn plan_of(program: Seq<char>, args: Seq<Seq<char>>, report: Option<Seq<char>>) -> PlanView {
    PlanView { program, args, report }
}

/// The action policy: the plan for `action` with `args`, or why it is
/// refused. `allowed_apps` are the applications that `open_app` may start.
pub open spec fn action_policy(allowed_apps: Seq<Seq<char>>, action: Seq<char>, args: ActionArgs) -> Result<PlanView, Refusal> {
    if action == "lock"@ {
        Ok(plan_of("loginctl"@, seq!["lock-session"@], Some("session locked"@)))
    } else if action == "open_url"@ {
        match args.text_arg("url"@) {
            None => Err(Refusal::UrlRequired),
            Some(url) => if has_prefix(url, "https://"@) || has_prefix(url, "http://"@) {
                Ok(plan_of("xdg-open"@, seq![url], Some("opened "@ + url)))
            } else {
                Err(Refusal::UrlSchemeNotAllowed)
            },
        }
    } else if action == "open_app"@ {
        match args.text_arg("app"@) {
            None => Err(Refusal::AppRequired),
            Some(app) => if allowed_apps.contains(app) {
                Ok(plan_of(app, Seq::empty(), Some("started "@ + app)))
            } else {
                Err(Refusal::AppNotAllowlisted)
            },
        }
    } else if action == "close_app"@ {
        Err(Refusal::CloseAppUnsupported)
    } else if action == "get_windows"@ {
        Ok(plan_of("hyprctl"@, seq!["clients"@, "-j"@], None))
    } else if action == "focus_window"@ {
        match args.text_arg("address"@) {
            None => Err(Refusal::AddressRequired),
            Some(address) => if !has_prefix(address, "0x"@) || encode_utf8(address).len() > 32 {
                Err(Refusal::InvalidAddress)
            } else {
                Ok(
                    plan_of(
                        "hyprctl"@,
                        seq!["dispatch"@, "focuswindow"@, "address:"@ + address],
                        Some("window focused"@),
                    ),
                )
            },
        }
    } else if action == "workspace"@ {
        match args.integer_arg("workspace"@) {
            None => Err(Refusal::WorkspaceRequired),
            Some(n) => if !(1 <= n <= 99) {
                Err(Refusal::WorkspaceOutOfRange)
            } else {
                Ok(
                    plan_of(
                        "hyprctl"@,
                        seq!["dispatch"@, "workspace"@, decimal_text(n as nat)],
                        Some("moved to workspace "@ + decimal_text(n as nat)),
                    ),
                )
            },
        }
    } else if action == "screenshot"@ {
        let path = match args.text_arg("path"@) {
            Some(p) => p,
            None => default_screenshot_path(),
        };
        if !has_prefix(path, "/tmp/"@) || has_parent_component(path) {
            Err(Refusal::ScreenshotOutsideTmp)
        } else {
            Ok(plan_of("grim"@, seq![path], Some(path)))
        }
    } else if action == "shutdown"@ {
        Ok(plan_of("loginctl"@, seq!["poweroff"@], Some("shutdown requested"@)))
    } else if action == "reboot"@ {
        Ok(plan_of("loginctl"@, seq!["reboot"@], Some("reboot requested"@)))
    } else if action == "type_text"@ || action == "mouse_click"@ {
        Err(Refusal::InputControlDisabled)
    } else {
        Err(Refusal::UnknownAction(action))
    }
}

/// The view of a plan-or-refusal.
pub open spec fn decision_view(r: Result<ActionPlan, ActionError>) -> Result<PlanView, Refusal> {
    match r {
        Ok(p) => Ok(p@),
        Err(e) => Err(e@),
    }
}

fn command(program: &str, args: Vec<String>, completion: Completion) -> (res: ActionPlan)
    ensures
        res.command.program@ == program@,
        res.command.args == args,
        res.completion == completion,
{
    ActionPlan { command: Command { program: String::from_str(program), args }, completion }
}

fn report(text: &str) -> (res: Completion)
    ensures
        res == Completion::Report(res->Report_0),
        res->Report_0@ == text@,
{
    Completion::Report(String::from_str(text))
}

fn words1(a: &str) -> (res: Vec<String>)
    ensures
        res.deep_view() == seq![a@],
{
    let mut v: Vec<String> = Vec::new();
    v.push(String::from_str(a));
    assert(v.deep_view() =~= seq![a@]);
    v
}

fn words2(a: &str, b: &str) -> (res: Vec<String>)
    ensures
        res.deep_view() == seq![a@, b@],
{
    let mut v: Vec<String> = Vec::new();
    v.push(String::from_str(a));
    v.push(String::from_str(b));
    assert(v.deep_view() =~= seq![a@, b@]);
    v
}

fn words3(a: &str, b: &str, c: String) -> (res: Vec<String>)
    ensures
        res.deep_view() == seq![a@, b@, c@],
{
    let mut v: Vec<String> = Vec::new();
    v.push(String::from_str(a));
    v.push(String::from_str(b));
    v.push(c);
    assert(v.deep_view() =~= seq![a@, b@, c@]);
    v
}

/// Decides what a requested action does under the configuration: the
/// command to run and the report, or why the action is refused.
pub fn plan_action(cfg: &Config, action: &str, args: &ActionArgs) -> (res: Result<ActionPlan, ActionError>)
    ensures
        decision_view(res) == action_policy(cfg.allowed_apps.deep_view(), action@, *args),
{
    if text_eq(action, "lock") {
        Ok(command("loginctl", words1("lock-session"), report("session locked")))
    } else if text_eq(action, "open_url") {
        match args.get_text("url") {
            None => Err(ActionError::UrlRequired),
            Some(url) => {
                if starts_with(url.as_str(), "https://") || starts_with(url.as_str(), "http://") {
                    let msg = join("opened ", url.as_str());
                    let mut v: Vec<String> = Vec::new();
                    v.push(url);
                    assert(v.deep_view() =~= seq![v[0]@]);
                    Ok(command("xdg-open", v, Completion::Report(msg)))
                } else {
                    Err(ActionError::UrlSchemeNotAllowed)
                }
            },
        }
    } else if text_eq(action, "open_app") {
        match args.get_text("app") {
            None => Err(ActionError::AppRequired),
            Some(app) => {
                if !contains_text(&cfg.allowed_apps, app.as_str()) {
                    Err(ActionError::AppNotAllowlisted)
                } else {
                    let msg = join("started ", app.as_str());
                    let v: Vec<String> = Vec::new();
                    assert(v.deep_view() =~= Seq::<Seq<char>>::empty());
                    Ok(ActionPlan { command: Command { program: app, args: v }, completion: Completion::Report(msg) })
                }
            },
        }
    } else if text_eq(action, "close_app") {
        Err(ActionError::CloseAppUnsupported)
    } else if text_eq(action, "get_windows") {
        Ok(command("hyprctl", words2("clients", "-j"), Completion::Output))
    } else if text_eq(action, "focus_window") {
        match args.get_text("address") {
            None => Err(ActionError::AddressRequired),
            Some(address) => {
                if !starts_with(address.as_str(), "0x") || address.as_str().as_bytes().len() > 32 {
                    Err(ActionError::InvalidAddress)
                } else {
                    let target = join("address:", address.as_str());
                    Ok(command("hyprctl", words3("dispatch", "focuswindow", target), report("window focused")))
                }
            },
        }
    } else if text_eq(action, "workspace") {
        match args.get_integer("workspace") {
            None => Err(ActionError::WorkspaceRequired),
            Some(n) => {
                if !(1 <= n && n <= 99) {
                    Err(ActionError::WorkspaceOutOfRange)
                } else {
                    let number = small_decimal(n);
                    let msg = join("moved to workspace ", number.as_str());
                    Ok(command("hyprctl", words3("dispatch", "workspace", number), Completion::Report(msg)))
                }
            },
        }
    } else if text_eq(action, "screenshot") {
        let path = match args.get_text("path") {
            Some(p) => p,
            None => String::from_str("/tmp/jimmy-screenshot.png"),
        };
        if !starts_with(path.as_str(), "/tmp/") || climbs_to_parent(path.as_str()) {
            Err(ActionError::ScreenshotOutsideTmp)
        } else {
            let shown = path.clone();
            let mut v: Vec<String> = Vec::new();
            v.push(path);
            assert(v.deep_view() =~= seq![v[0]@]);
            Ok(command("grim", v, Completion::Report(shown)))
        }
    } else if text_eq(action, "shutdown") {
        Ok(command("loginctl", words1("poweroff"), report("shutdown requested")))
    } else if text_eq(action, "reboot") {
        Ok(command("loginctl", words1("reboot"), report("reboot requested")))
    } else if text_eq(action, "type_text") || text_eq(action, "mouse_click") {
        Err(ActionError::InputControlDisabled)
    } else {
        Err(ActionError::UnknownAction(String::from_str(action)))
    }
}

impl ActionPlan {
    /// The report once the command has run: the fixed report or the
    /// command's output on success, the command's failure otherwise.
    pub fn finish(&self, outcome: Result<String, String>) -> (res: Result<String, String>)
        ensures
            match outcome {
                Ok(out) => res is Ok && res->Ok_0@ == (match self@.report {
                    Some(r) => r,
                    None => out@,
                }),
                Err(e) => res == Err::<String, String>(e),
            },
    {
        match outcome {
            Ok(out) => match &self.completion {
                Completion::Report(r) => Ok(r.clone()),
                Completion::Output => Ok(out),
            },
            Err(e) => Err(e),
        }
    }
}

/// The programs that the policy starts besides allowlisted applications.
pub open spec fn fixed_program(program: Seq<char>) -> bool {
    program == "loginctl"@ || program == "xdg-open"@ || program == "hyprctl"@ || program == "grim"@
}

/// The policy never hands out a shell: every allowed action starts one of
/// four fixed programs or an allowlisted application, URLs are opened only
/// over HTTP(S), screenshots go only under `/tmp/` without `..` components, workspaces are 1 to 99,
/// and input injection and process killing are always refused.
pub proof fn lemma_policy_is_bounded(allowed_apps: Seq<Seq<char>>, action: Seq<char>, args: ActionArgs)
    ensures
        action_policy(allowed_apps, action, args) matches Ok(plan) ==> (fixed_program(plan.program) || (
        action == "open_app"@ && allowed_apps.contains(plan.program))),
        action == "open_url"@ ==> (action_policy(allowed_apps, action, args) matches Ok(plan) ==> (
        has_prefix(plan.args[0], "https://"@) || has_prefix(plan.args[0], "http://"@))),
        action == "screenshot"@ ==> (action_policy(allowed_apps, action, args) matches Ok(plan) ==> (
        has_prefix(plan.args[0], "/tmp/"@) && !has_parent_component(plan.args[0]))),
        action == "workspace"@ ==> (action_policy(allowed_apps, action, args) is Ok <==> (
        args.integer_arg("workspace"@) matches Some(n) && 1 <= n <= 99)),
        action == "type_text"@ || action == "mouse_click"@ || action == "close_app"@ ==> action_policy(
            allowed_apps,
            action,
            args,
        ) is Err,
{
    reveal_strlit("lock");
    reveal_strlit("open_url");
    reveal_strlit("open_app");
    reveal_strlit("close_app");
    reveal_strlit("get_windows");
    reveal_strlit("focus_window");
    reveal_strlit("workspace");
    reveal_strlit("screenshot");
    reveal_strlit("type_text");
    reveal_strlit("mouse_click");
    assert("lock"@.len() == 4);
    assert("open_url"@.len() == 8 && "open_url"@[5] == 'u');
    assert("open_app"@.len() == 8 && "open_app"@[5] == 'a');
    assert("close_app"@.len() == 9 && "close_app"@[0] == 'c');
    assert("get_windows"@.len() == 11 && "get_windows"@[0] == 'g');
    assert("focus_window"@.len() == 12);
    assert("workspace"@.len() == 9 && "workspace"@[0] == 'w');
    assert("screenshot"@.len() == 10);
    assert("type_text"@.len() == 9 && "type_text"@[0] == 't');
    assert("mouse_click"@.len() == 11 && "mouse_click"@[0] == 'm');
    reveal_strlit("shutdown");
    reveal_strlit("reboot");
    assert("shutdown"@.len() == 8);
    assert("reboot"@.len() == 6);
}

/// The character of decimal digit `d`.
pub open spec fn numeral_char(d: int) -> char {
    (('0' as int) + d) as char
}

proof fn lemma_digit_text(d: int)
    requires
        0 <= d <= 9,
    ensures
        digit_text(d) == seq![numeral_char(d)],
{
    reveal_strlit("0");
    reveal_strlit("1");
    reveal_strlit("2");
    reveal_strlit("3");
    reveal_strlit("4");
    reveal_strlit("5");
    reveal_strlit("6");
    reveal_strlit("7");
    reveal_strlit("8");
    reveal_strlit("9");
    assert(digit_text(d) =~= seq![numeral_char(d)]);
}

/// The workspace numeral is the ordinary decimal numeral, most significant
/// digit first, and reads back as the number.
pub proof fn lemma_decimal_numeral(n: int)
    requires
        1 <= n <= 99,
    ensures
        decimal_text(n as nat) == (if n < 10 {
            seq![numeral_char(n)]
        } else {
            seq![numeral_char(n / 10), numeral_char(n % 10)]
        }),
        parse_unsigned(decimal_text(n as nat), u64::MAX as int) == Ok::<int, IntErrorKind>(n),
{
    if n < 10 {
        lemma_digit_text(n);
    } else {
        lemma_digit_text(n / 10);
        lemma_digit_text(n % 10);
        assert(decimal_text((n / 10) as nat) == digit_text(n / 10));
        assert(seq![numeral_char(n / 10)] + seq![numeral_char(n % 10)] =~= seq![
            numeral_char(n / 10),
            numeral_char(n % 10),
        ]);
    }
    let t = decimal_text(n as nat);
    reveal_with_fuel(crate::numbers::scan_up, 3);
    assert(t[0] != '+');
}

/// Facts on the action names that tell them apart.
proof fn lemma_action_names()
    ensures
        "lock"@.len() == 4,
        "open_url"@.len() == 8 && "open_url"@[5] == 'u' && "open_url"@[0] == 'o',
        "open_app"@.len() == 8 && "open_app"@[5] == 'a' && "open_app"@[0] == 'o',
        "close_app"@.len() == 9 && "close_app"@[0] == 'c',
        "get_windows"@.len() == 11 && "get_windows"@[0] == 'g',
        "focus_window"@.len() == 12,
        "workspace"@.len() == 9 && "workspace"@[0] == 'w',
        "screenshot"@.len() == 10,
        "shutdown"@.len() == 8 && "shutdown"@[0] == 's',
        "reboot"@.len() == 6,
        "type_text"@.len() == 9 && "type_text"@[0] == 't',
        "mouse_click"@.len() == 11 && "mouse_click"@[0] == 'm',
{
    reveal_strlit("lock");
    reveal_strlit("open_url");
    reveal_strlit("open_app");
    reveal_strlit("close_app");
    reveal_strlit("get_windows");
    reveal_strlit("focus_window");
    reveal_strlit("workspace");
    reveal_strlit("screenshot");
    reveal_strlit("shutdown");
    reveal_strlit("reboot");
    reveal_strlit("type_text");
    reveal_strlit("mouse_click");
}

/// What each allowed action does with its arguments: every allowlisted
/// application can be started, as itself and with no arguments; a URL is
/// opened as given; a window is focused by the given address; a workspace
/// is switched to by its decimal numeral; a screenshot is written to the
/// requested path (or the default one) and that path is reported.
pub proof fn lemma_policy_uses_its_arguments(allowed_apps: Seq<Seq<char>>, args: ActionArgs)
    ensures
        args.text_arg("app"@) matches Some(app) ==> (allowed_apps.contains(app) <==> action_policy(
            allowed_apps,
            "open_app"@,
            args,
        ) is Ok),
        args.text_arg("app"@) matches Some(app) ==> (action_policy(allowed_apps, "open_app"@, args) matches Ok(
            plan,
        ) ==> plan.program == app && plan.args.len() == 0 && plan.report == Some("started "@ + app)),
        args.text_arg("url"@) matches Some(url) ==> (action_policy(allowed_apps, "open_url"@, args) is Ok <==> (
        has_prefix(url, "https://"@) || has_prefix(url, "http://"@))),
        args.text_arg("url"@) is None ==> action_policy(allowed_apps, "open_url"@, args) == Err::<
            PlanView,
            Refusal,
        >(Refusal::UrlRequired),
        args.text_arg("address"@) matches Some(address) ==> (action_policy(allowed_apps, "focus_window"@, args) is Ok
            <==> (has_prefix(address, "0x"@) && encode_utf8(address).len() <= 32)),
        ({
            let path = match args.text_arg("path"@) {
                Some(p) => p,
                None => default_screenshot_path(),
            };
            action_policy(allowed_apps, "screenshot"@, args) is Ok <==> (has_prefix(path, "/tmp/"@)
                && !has_parent_component(path))
        }),
        action_policy(allowed_apps, "open_url"@, args) matches Ok(plan) ==> (args.text_arg("url"@) matches Some(
            url,
        ) && plan.program == "xdg-open"@ && plan.args == seq![url] && plan.report == Some("opened "@ + url)),
        action_policy(allowed_apps, "focus_window"@, args) matches Ok(plan) ==> (args.text_arg(
            "address"@,
        ) matches Some(address) && plan.program == "hyprctl"@ && plan.args.len() == 3 && plan.args[2]
            == "address:"@ + address),
        ({
            let w = args.integer_arg("workspace"@);
            let n = w->Some_0;
            w is Some && 1 <= n <= 99 ==> (action_policy(allowed_apps, "workspace"@, args) matches Ok(plan)
                && plan.program == "hyprctl"@ && plan.args.len() == 3 && parse_unsigned(
                plan.args[2],
                u64::MAX as int,
            ) == Ok::<int, IntErrorKind>(n as int) && plan.args[2] == (if n < 10 {
                seq![numeral_char(n as int)]
            } else {
                seq![numeral_char(n / 10), numeral_char((n % 10) as int)]
            }) && plan.report == Some("moved to workspace "@ + plan.args[2]))
        }),
        action_policy(allowed_apps, "screenshot"@, args) matches Ok(plan) ==> (plan.program == "grim"@
            && plan.args.len() == 1 && plan.report == Some(plan.args[0]) && plan.args[0] == (
        match args.text_arg("path"@) {
            Some(p) => p,
            None => default_screenshot_path(),
        })),
{
    lemma_action_names();
    if let Some(n) = args.integer_arg("workspace"@) {
        if 1 <= n <= 99 {
            lemma_decimal_numeral(n as int);
        }
    }
}

/// An action outside the twelve known ones is refused as unknown, and the
/// refusal names it.
pub proof fn lemma_unknown_actions_refused(allowed_apps: Seq<Seq<char>>, action: Seq<char>, args: ActionArgs)
    requires
        action != "lock"@,
        action != "open_url"@,
        action != "open_app"@,
        action != "close_app"@,
        action != "get_windows"@,
        action != "focus_window"@,
        action != "workspace"@,
        action != "screenshot"@,
        action != "shutdown"@,
        action != "reboot"@,
        action != "type_text"@,
        action != "mouse_click"@,
    ensures
        action_policy(allowed_apps, action, args) matches Err(r) && r == Refusal::UnknownAction(action),
        ({
            let m = Refusal::UnknownAction(action).message_text();
            action.len() < m.len() && m.subrange(m.len() - action.len(), m.len() as int) == action
        }),
{
    reveal_strlit("unknown action: ");
    let m = "unknown action: "@ + action;
    assert(m.subrange(m.len() - action.len(), m.len() as int) =~= action);
}

} // verus!
