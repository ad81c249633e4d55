//! The Jimmy service: authenticated action requests, the confirmation queue
//! for sensitive actions, and the read-only endpoints.
//!
//! Each handler is a step from the service state and the request to the new
//! state and what to do next; the program around it performs the HTTP
//! exchange, runs the planned command and reads the clock.

use crate::actions::{action_policy, plan_action, ActionArgs, ActionPlan, PlanView, Refusal};
use crate::auth::{authenticate, signature_for, AuthError};
use crate::clock::{
    chrono_outlived, format_rfc3339, outlived, parse_rfc3339, rfc3339_instant, rfc3339_text,
    ttl_in_range, UtcTime,
};
use crate::config::Config;
use crate::text::{contains_text, join, strip_trailing, text_eq, trim_trailing_slashes};
use crate::upstream::{ChatMessage, OllamaChat};
use vstd::prelude::*;
use vstd::utf8::*;

verus! {

broadcast use vstd::string::group_string_axioms;

/// A request to perform a desktop action.
#[derive(Debug)]
pub struct ActionRequest {
    pub action: String,
    pub args: ActionArgs,
    pub reason: Option<String>,
    pub source: String,
}

/// An action that waits for the user's confirmation.
#[derive(Debug)]
pub struct PendingAction {
    pub id: String,
    pub action: String,
    pub args: ActionArgs,
    pub created_at: String,
    pub reason: Option<String>,
    pub source: String,
}

/// The content of a pending action.
pub struct PendingView {
    pub id: Seq<char>,
    pub action: Seq<char>,
    pub args: ActionArgs,
    pub created_at: Seq<char>,
    pub reason: Option<Seq<char>>,
    pub source: Seq<char>,
}

pub open spec fn opt_text(o: Option<String>) -> Option<Seq<char>> {
    match o {
        Some(s) => Some(s@),
        None => None,
    }
}

impl View for PendingAction {
    type V = PendingView;

    open spec fn view(&self) -> PendingView {
        PendingView {
            id: self.id@,
            action: self.action@,
            args: self.args,
            created_at: self.created_at@,
            reason: opt_text(self.reason),
            source: self.source@,
        }
    }
}

/// A text that `chrono` reads as an instant of a four-digit year outside a
/// leap second.
pub open spec fn created_valid(text: Seq<char>) -> bool {
    rfc3339_instant(text) matches Some((s, n)) && (UtcTime { secs: s, nanos: n }).supported()
}

/// The answer to an action request.
#[derive(Debug)]
pub struct ActionResponse {
    pub http_status: u16,
    pub ok: bool,
    pub status: String,
    pub message: String,
    pub request_id: String,
    pub confirmation_required: bool,
}

/// The content of an answer to an action request.
pub struct ResponseView {
    pub http_status: u16,
    pub ok: bool,
    pub status: Seq<char>,
    pub message: Seq<char>,
    pub request_id: Seq<char>,
    pub confirmation_required: bool,
}

impl View for ActionResponse {
    type V = ResponseView;

    open spec fn view(&self) -> ResponseView {
        ResponseView {
            http_status: self.http_status,
            ok: self.ok,
            status: self.status@,
            message: self.message@,
            request_id: self.request_id@,
            confirmation_required: self.confirmation_required,
        }
    }
}

/// What follows an action request.
#[derive(Debug)]
pub enum ActionStep {
    /// Answer at once.
    Respond(ActionResponse),
    /// Run the plan, then answer with `action_completed`.
    Execute { request_id: String, plan: ActionPlan },
}

/// The decision on an action request that passed authentication.
pub enum SubmitView {
    Denied,
    AwaitingConfirmation,
    Refused(Refusal),
    Execute(PlanView),
}

/// The decision on a confirmation that passed authentication.
pub enum ConfirmView {
    Denied,
    NotFound,
    Expired,
    Refused(Refusal),
    Execute(PlanView),
}

/// What follows a confirmation.
#[derive(Debug)]
pub enum ConfirmStep {
    /// The signature does not match the request ID (401).
    Denied(AuthError),
    /// No such request is waiting (404).
    NotFound,
    /// The request waited longer than the time-to-live (410).
    Expired,
    /// The policy refuses the confirmed action (400).
    Refused(crate::actions::ActionError),
    /// Run the plan, then answer with its outcome.
    Execute(ActionPlan),
}

impl View for ConfirmStep {
    type V = ConfirmView;

    open spec fn view(&self) -> ConfirmView {
        match self {
            ConfirmStep::Denied(_) => ConfirmView::Denied,
            ConfirmStep::NotFound => ConfirmView::NotFound,
            ConfirmStep::Expired => ConfirmView::Expired,
            ConfirmStep::Refused(e) => ConfirmView::Refused(e@),
            ConfirmStep::Execute(p) => ConfirmView::Execute(p@),
        }
    }
}

impl ConfirmStep {
    /// The HTTP status of the answer, where the step is an answer.
    pub fn http_status(&self) -> (res: u16)
        ensures
            res == match self@ {
                ConfirmView::Denied => 401u16,
                ConfirmView::NotFound => 404u16,
                ConfirmView::Expired => 410u16,
                ConfirmView::Refused(_) => 400u16,
                ConfirmView::Execute(_) => 200u16,
            },
    {
        match self {
            ConfirmStep::Denied(_) => 401,
            ConfirmStep::NotFound => 404,
            ConfirmStep::Expired => 410,
            ConfirmStep::Refused(_) => 400,
            ConfirmStep::Execute(_) => 200,
        }
    }

    /// The error text of the answer, where the step refuses.
    pub fn error_message(&self) -> (res: Option<String>)
        ensures
            match self@ {
                ConfirmView::Denied => res matches Some(m) && m@ == "invalid signature"@,
                ConfirmView::NotFound => res matches Some(m) && m@ == "confirmation not found or expired"@,
                ConfirmView::Expired => res matches Some(m) && m@ == "confirmation expired"@,
                ConfirmView::Refused(r) => res matches Some(m) && m@ == r.message_text(),
                ConfirmView::Execute(_) => res is None,
            },
    {
        match self {
            ConfirmStep::Denied(_) => Some(String::from_str("invalid signature")),
            ConfirmStep::NotFound => Some(String::from_str("confirmation not found or expired")),
            ConfirmStep::Expired => Some(String::from_str("confirmation expired")),
            ConfirmStep::Refused(e) => Some(e.message()),
            ConfirmStep::Execute(_) => None,
        }
    }
}

/// The effect of an authenticated action request on the pending
/// confirmations: an action named in `confirm_list` waits under
/// `request_id`; any other goes to the policy at once.
pub open spec fn submit_effect(
    pending: Map<Seq<char>, PendingView>,
    confirm_list: Seq<Seq<char>>,
    allowed_apps: Seq<Seq<char>>,
    request: ActionRequest,
    request_id: Seq<char>,
    created_at: Seq<char>,
) -> (Map<Seq<char>, PendingView>, SubmitView) {
    if confirm_list.contains(request.action@) {
        (
            pending.insert(
                request_id,
                PendingView {
                    id: request_id,
                    action: request.action@,
                    args: request.args,
                    created_at,
                    reason: opt_text(request.reason),
                    source: request.source@,
                },
            ),
            SubmitView::AwaitingConfirmation,
        )
    } else {
        match action_policy(allowed_apps, request.action@, request.args) {
            Ok(plan) => (pending, SubmitView::Execute(plan)),
            Err(r) => (pending, SubmitView::Refused(r)),
        }
    }
}

/// The effect of an authenticated confirmation of `id` at `now`: the
/// request leaves the queue whatever follows; it runs only where it was
/// waiting, its creation time reads back, and no more than `ttl_secs` have
/// passed since.
pub open spec fn confirm_effect(
    pending: Map<Seq<char>, PendingView>,
    allowed_apps: Seq<Seq<char>>,
    ttl_secs: i64,
    id: Seq<char>,
    now: UtcTime,
) -> (Map<Seq<char>, PendingView>, ConfirmView) {
    if !pending.contains_key(id) {
        (pending, ConfirmView::NotFound)
    } else {
        let p = pending[id];
        let rest = pending.remove(id);
        match rfc3339_instant(p.created_at) {
            None => (rest, ConfirmView::Expired),
            Some((s, n)) => if outlived(now, UtcTime { secs: s, nanos: n }, ttl_secs) {
                (rest, ConfirmView::Expired)
            } else {
                match action_policy(allowed_apps, p.action, p.args) {
                    Ok(plan) => (rest, ConfirmView::Execute(plan)),
                    Err(r) => (rest, ConfirmView::Refused(r)),
                }
            },
        }
    }
}

/// The service state: its configuration and the actions that wait for
/// confirmation, by request ID.
pub struct Jimmy {
    config: Config,
    queue: Vec<PendingAction>,
    queued: Ghost<Map<Seq<char>, PendingView>>,
}

impl Jimmy {
    /// The configuration the service runs with.
    pub closed spec fn spec_config(&self) -> Config {
        self.config
    }

    /// The actions that wait for confirmation, by request ID.
    pub closed spec fn pending(&self) -> Map<Seq<char>, PendingView> {
        self.queued@
    }

    /// The queue holds each request ID once, and every creation time in it
    /// reads back as an ordinary instant.
    pub closed spec fn wf(&self) -> bool {
        &&& forall|i: int, j: int|
            0 <= i < j < self.queue@.len() ==> #[trigger] self.queue@[i].id@ != #[trigger] self.queue@[j].id@
        &&& forall|i: int|
            #![trigger self.queue@[i]]
            0 <= i < self.queue@.len() ==> self.queued@.contains_key(self.queue@[i].id@)
                && self.queued@[self.queue@[i].id@] == self.queue@[i]@
        &&& forall|k: Seq<char>|
            #[trigger] self.queued@.contains_key(k) ==> exists|i: int|
                0 <= i < self.queue@.len() && #[trigger] self.queue@[i].id@ == k
        &&& forall|k: Seq<char>|
            #[trigger] self.queued@.contains_key(k) ==> created_valid(self.queued@[k].created_at)
    }

    /// A service with the given configuration and nothing pending.
    pub fn new(config: Config) -> (res: Jimmy)
        ensures
            res.wf(),
            res.spec_config() == config,
            res.pending() == Map::<Seq<char>, PendingView>::empty(),
    {
        Jimmy { config, queue: Vec::new(), queued: Ghost(Map::empty()) }
    }

    /// The configuration the service runs with.
    pub fn config(&self) -> (res: &Config)
        ensures
            *res == self.spec_config(),
    {
        &self.config
    }

    /// Index of the pending action with request ID `id`.
    fn find(&self, id: &str) -> (res: Option<usize>)
        requires
            self.wf(),
        ensures
            match res {
                Some(i) => i < self.queue@.len() && self.queue@[i as int].id@ == id@
                    && self.pending().contains_key(id@),
                None => !self.pending().contains_key(id@),
            },
    {
        let mut i: usize = 0;
        while i < self.queue.len()
            invariant
                self.wf(),
                0 <= i <= self.queue@.len(),
                forall|j: int| 0 <= j < i ==> self.queue@[j].id@ != id@,
            decreases self.queue@.len() - i,
        {
            if text_eq(self.queue[i].id.as_str(), id) {
                assert(self.queue@[i as int].id@ == id@);
                return Some(i);
            }
            i = i + 1;
        }
        proof {
            if self.queued@.contains_key(id@) {
                let k = choose|k: int| 0 <= k < self.queue@.len() && #[trigger] self.queue@[k].id@ == id@;
                assert(self.queue@[k].id@ != id@);
            }
        }
        None
    }

    /// Whether an action waits under request ID `id`.
    pub fn is_pending(&self, id: &str) -> (res: bool)
        requires
            self.wf(),
        ensures
            res == self.pending().contains_key(id@),
    {
        self.find(id).is_some()
    }

    /// The action that waits under request ID `id`.
    pub fn pending_action(&self, id: &str) -> (res: Option<&PendingAction>)
        requires
            self.wf(),
        ensures
            match res {
                Some(p) => self.pending().contains_key(id@) && self.pending()[id@] == p@,
                None => !self.pending().contains_key(id@),
            },
    {
        match self.find(id) {
            Some(i) => Some(&self.queue[i]),
            None => None,
        }
    }

    /// Removes the pending action at index `i` from the queue.
    fn take(&mut self, i: usize) -> (res: PendingAction)
        requires
            old(self).wf(),
            i < old(self).queue@.len(),
        ensures
            final(self).wf(),
            final(self).config == old(self).config,
            res == old(self).queue@[i as int],
            old(self).pending().contains_key(res.id@),
            old(self).pending()[res.id@] == res@,
            final(self).pending() == old(self).pending().remove(res.id@),
    {
        let ghost old_queue = self.queue@;
        let ghost old_map = self.queued@;
        let p = self.queue.remove(i);
        let ghost key = p.id@;
        self.queued = Ghost(old_map.remove(key));
        proof {
            assert(old_queue[i as int] == p);
            assert forall|a: int, b: int| 0 <= a < b < self.queue@.len() implies #[trigger] self.queue@[a].id@
                != #[trigger] self.queue@[b].id@ by {
                let oa = if a < i { a } else { a + 1 };
                let ob = if b < i { b } else { b + 1 };
                assert(self.queue@[a] == old_queue[oa]);
                assert(self.queue@[b] == old_queue[ob]);
                assert(old_queue[oa].id@ != old_queue[ob].id@);
            }
            assert forall|a: int| 0 <= a < self.queue@.len() implies self.queued@.contains_key(
                #[trigger] self.queue@[a].id@,
            ) && self.queued@[self.queue@[a].id@] == self.queue@[a]@ by {
                let oa = if a < i { a } else { a + 1 };
                assert(self.queue@[a] == old_queue[oa]);
                assert(old_queue[oa].id@ != old_queue[i as int].id@);
            }
            assert forall|k: Seq<char>| #[trigger] self.queued@.contains_key(k) implies exists|a: int|
                0 <= a < self.queue@.len() && #[trigger] self.queue@[a].id@ == k by {
                let oa = choose|oa: int| 0 <= oa < old_queue.len() && #[trigger] old_queue[oa].id@ == k;
                assert(oa != i);
                let a = if oa < i { oa } else { oa - 1 };
                assert(self.queue@[a] == old_queue[oa]);
            }
        }
        p
    }

    /// Adds `p` to the queue, replacing an action with the same request ID.
    fn put(&mut self, p: PendingAction)
        requires
            old(self).wf(),
            created_valid(p.created_at@),
        ensures
            final(self).wf(),
            final(self).config == old(self).config,
            final(self).pending() == old(self).pending().insert(p.id@, p@),
    {
        match self.find(p.id.as_str()) {
            Some(i) => {
                let _ = self.take(i);
            },
            None => {},
        }
        let ghost before = self.queue@;
        let ghost map_before = self.queued@;
        assert(!map_before.contains_key(p.id@));
        let ghost key = p.id@;
        let ghost val = p@;
        self.queue.push(p);
        self.queued = Ghost(map_before.insert(key, val));
        proof {
            assert forall|a: int, b: int| 0 <= a < b < self.queue@.len() implies #[trigger] self.queue@[a].id@
                != #[trigger] self.queue@[b].id@ by {
                if b == before.len() {
                    assert(self.queue@[a] == before[a]);
                    assert(map_before.contains_key(before[a].id@));
                } else {
                    assert(self.queue@[a] == before[a]);
                    assert(self.queue@[b] == before[b]);
                }
            }
            assert forall|a: int| 0 <= a < self.queue@.len() implies self.queued@.contains_key(
                #[trigger] self.queue@[a].id@,
            ) && self.queued@[self.queue@[a].id@] == self.queue@[a]@ by {
                if a < before.len() {
                    assert(self.queue@[a] == before[a]);
                    assert(map_before.contains_key(before[a].id@));
                }
            }
            assert forall|k: Seq<char>| #[trigger] self.queued@.contains_key(k) implies exists|a: int|
                0 <= a < self.queue@.len() && #[trigger] self.queue@[a].id@ == k by {
                if k == key {
                    assert(self.queue@[before.len() as int].id@ == k);
                } else {
                    let oa = choose|oa: int| 0 <= oa < before.len() && #[trigger] before[oa].id@ == k;
                    assert(self.queue@[oa] == before[oa]);
                }
            }
        }
    }

    /// Handles an action request signed over `payload`.
    ///
    /// An unauthenticated request is denied and changes nothing. An action
    /// that the configuration lists for confirmation waits under
    /// `request_id`, stamped with the RFC 3339 text of `now`; any other
    /// action goes through the policy and is either refused or planned.
    pub fn submit_action(
        &mut self,
        signature: &str,
        payload: &[u8],
        request: ActionRequest,
        request_id: String,
        now: UtcTime,
    ) -> (res: ActionStep)
        requires
            old(self).wf(),
            now.supported(),
        ensures
            final(self).wf(),
            final(self).spec_config() == old(self).spec_config(),
            ({
                let cfg = old(self).spec_config();
                let authorized = signature@ == signature_for(cfg.shared_secret@, payload@);
                let effect = submit_effect(
                    old(self).pending(),
                    cfg.require_confirmation_for.deep_view(),
                    cfg.allowed_apps.deep_view(),
                    request,
                    request_id@,
                    rfc3339_text(now.secs, now.nanos),
                );
                if authorized {
                    &&& final(self).pending() == effect.0
                    &&& step_matches(res, effect.1, request.action@, request_id@)
                } else {
                    &&& final(self).pending() == old(self).pending()
                    &&& step_matches(res, SubmitView::Denied, request.action@, request_id@)
                }
            }),
            rfc3339_instant(rfc3339_text(now.secs, now.nanos)) == Some((now.secs, now.nanos)),
            signature@ == signature_for(old(self).spec_config().shared_secret@, payload@) ==> signature@.len()
                == 64,
            res matches ActionStep::Respond(r) ==> r.request_id@ == request_id@,
            res matches ActionStep::Execute { request_id: id, .. } ==> id@ == request_id@,
            res matches ActionStep::Respond(r) && r.confirmation_required ==> final(self).pending().contains_key(
                request_id@,
            ) && final(self).pending()[request_id@].action == request.action@,
    {
        let text = format_rfc3339(now);
        let created_at = match text {
            Some(t) => t,
            None => String::new(),
        };
        if authenticate(self.config.shared_secret.as_str(), signature, payload).is_err() {
            return ActionStep::Respond(
                response(401, false, "denied", String::from_str("invalid signature"), request_id, false),
            );
        }
        if contains_text(&self.config.require_confirmation_for, request.action.as_str()) {
            let message = join(request.action.as_str(), " requires your confirmation");
            let pending = PendingAction {
                id: request_id.clone(),
                action: request.action,
                args: request.args,
                created_at,
                reason: request.reason,
                source: request.source,
            };
            self.put(pending);
            return ActionStep::Respond(
                response(200, true, "pending_confirmation", message, request_id, true),
            );
        }
        match plan_action(&self.config, request.action.as_str(), &request.args) {
            Ok(plan) => ActionStep::Execute { request_id, plan },
            Err(e) => ActionStep::Respond(response(400, false, "failed", e.message(), request_id, false)),
        }
    }

    /// Handles the confirmation of request `id`, signed over the ID's bytes.
    ///
    /// `requires` leaves out the one input on which the service would fail:
    /// an authenticated confirmation of a waiting request under a
    /// time-to-live that `chrono` cannot represent (see `confirm_checked`).
    pub fn confirm(&mut self, signature: &str, id: &str, now: UtcTime) -> (res: ConfirmStep)
        requires
            old(self).wf(),
            now.supported(),
            signature@ == signature_for(old(self).spec_config().shared_secret@, encode_utf8(id@))
                && old(self).pending().contains_key(id@) ==> ttl_in_range(
                old(self).spec_config().confirmation_ttl_seconds,
            ),
        ensures
            final(self).wf(),
            final(self).spec_config() == old(self).spec_config(),
            signature@ == signature_for(old(self).spec_config().shared_secret@, encode_utf8(id@))
                ==> signature@.len() == 64,
            ({
                let cfg = old(self).spec_config();
                let authorized = signature@ == signature_for(cfg.shared_secret@, encode_utf8(id@));
                if authorized {
                    (final(self).pending(), res@) == confirm_effect(
                        old(self).pending(),
                        cfg.allowed_apps.deep_view(),
                        cfg.confirmation_ttl_seconds,
                        id@,
                        now,
                    )
                } else {
                    &&& final(self).pending() == old(self).pending()
                    &&& res@ == ConfirmView::Denied
                }
            }),
    {
        if let Err(e) = authenticate(self.config.shared_secret.as_str(), signature, id.as_bytes()) {
            return ConfirmStep::Denied(e);
        }
        let i = match self.find(id) {
            None => {
                return ConfirmStep::NotFound;
            },
            Some(i) => i,
        };
        let ghost before = self.pending();
        let p = self.take(i);
        assert(before.contains_key(id@));
        assert(created_valid(before[id@].created_at));
        let created = match parse_rfc3339(p.created_at.as_str()) {
            None => {
                return ConfirmStep::Expired;
            },
            Some(t) => t,
        };
        match chrono_outlived(now, created, self.config.confirmation_ttl_seconds) {
            Some(false) => {},
            _ => {
                return ConfirmStep::Expired;
            },
        }
        match plan_action(&self.config, p.action.as_str(), &p.args) {
            Ok(plan) => ConfirmStep::Execute(plan),
            Err(e) => ConfirmStep::Refused(e),
        }
    }

    /// Handles a confirmation like `confirm`, and returns `None` exactly
    /// where the service cannot represent its time-to-live as a duration:
    /// the request then leaves the queue and is neither run nor refused.
    pub fn confirm_checked(&mut self, signature: &str, id: &str, now: UtcTime) -> (res: Option<ConfirmStep>)
        requires
            old(self).wf(),
            now.supported(),
        ensures
            final(self).wf(),
            final(self).spec_config() == old(self).spec_config(),
            signature@ == signature_for(old(self).spec_config().shared_secret@, encode_utf8(id@))
                ==> signature@.len() == 64,
            ({
                let cfg = old(self).spec_config();
                let authorized = signature@ == signature_for(cfg.shared_secret@, encode_utf8(id@));
                if authorized && old(self).pending().contains_key(id@) && !ttl_in_range(
                    cfg.confirmation_ttl_seconds,
                ) {
                    &&& res is None
                    &&& final(self).pending() == old(self).pending().remove(id@)
                } else if authorized {
                    &&& res is Some
                    &&& (final(self).pending(), res->Some_0@) == confirm_effect(
                        old(self).pending(),
                        cfg.allowed_apps.deep_view(),
                        cfg.confirmation_ttl_seconds,
                        id@,
                        now,
                    )
                } else {
                    &&& res is Some
                    &&& final(self).pending() == old(self).pending()
                    &&& res->Some_0@ == ConfirmView::Denied
                }
            }),
    {
        let ttl = self.config.confirmation_ttl_seconds;
        let representable = -crate::clock::MAX_TTL_SECS <= ttl && ttl <= crate::clock::MAX_TTL_SECS;
        if !representable && authenticate(self.config.shared_secret.as_str(), signature, id.as_bytes()).is_ok() {
            match self.find(id) {
                Some(i) => {
                    let _ = self.take(i);
                    return None;
                },
                None => {},
            }
        }
        Some(self.confirm(signature, id, now))
    }
}

/// The read-only endpoints, each authenticated by a signature over its
/// fixed name.
#[derive(Debug, Clone, Copy, PartialEq, Eq)]
pub enum Endpoint {
    Status,
    VoiceConfig,
    VoiceStatus,
}

impl Endpoint {
    /// The text whose bytes a caller signs for the endpoint.
    pub open spec fn payload_text(self) -> Seq<char> {
        match self {
            Endpoint::Status => "status"@,
            Endpoint::VoiceConfig => "voice-config"@,
            Endpoint::VoiceStatus => "voice-status"@,
        }
    }

    fn payload(&self) -> (res: &'static str)
        ensures
            res@ == self.payload_text(),
    {
        match self {
            Endpoint::Status => "status",
            Endpoint::VoiceConfig => "voice-config",
            Endpoint::VoiceStatus => "voice-status",
        }
    }
}

/// What follows a chat request.
#[derive(Debug)]
pub enum ChatStep {
    /// The signature does not match the payload (401).
    Denied(AuthError),
    /// The request holds no message (400).
    NoMessages,
    /// Send this chat to Ollama.
    Send(OllamaChat),
}

impl ChatStep {
    /// The HTTP status and error text of the answer, where the step refuses.
    pub fn refusal(&self) -> (res: Option<(u16, String)>)
        ensures
            match self {
                ChatStep::Denied(_) => res matches Some((c, m)) && c == 401 && m@ == "invalid signature"@,
                ChatStep::NoMessages => res matches Some((c, m)) && c == 400 && m@ == "messages cannot be empty"@,
                ChatStep::Send(_) => res is None,
            },
    {
        match self {
            ChatStep::Denied(_) => Some((401, String::from_str("invalid signature"))),
            ChatStep::NoMessages => Some((400, String::from_str("messages cannot be empty"))),
            ChatStep::Send(_) => None,
        }
    }
}

impl Jimmy {
    /// Authenticates a request to a read-only endpoint.
    pub fn authorize(&self, signature: &str, endpoint: Endpoint) -> (res: Result<(), AuthError>)
        ensures
            res is Ok <==> signature@ == signature_for(
                self.spec_config().shared_secret@,
                encode_utf8(endpoint.payload_text()),
            ),
            res is Err ==> res == Err::<(), AuthError>(AuthError::InvalidSignature),
            res is Ok ==> signature@.len() == 64,
    {
        authenticate(self.config.shared_secret.as_str(), signature, endpoint.payload().as_bytes())
    }

    /// Handles a chat request signed over `payload`: the chat for Ollama
    /// is the configured system prompt followed by the caller's messages,
    /// posted to `/api/chat` under the configured URL.
    pub fn prepare_chat(&self, signature: &str, payload: &[u8], messages: Vec<ChatMessage>) -> (res: ChatStep)
        ensures
            signature@ == signature_for(self.spec_config().shared_secret@, payload@) ==> signature@.len() == 64,
            ({
                let cfg = self.spec_config();
                if signature@ != signature_for(cfg.shared_secret@, payload@) {
                    res is Denied
                } else if messages@.len() == 0 {
                    res is NoMessages
                } else {
                    res matches ChatStep::Send(chat) && {
                        &&& chat.url@ == strip_trailing(cfg.ollama_url@, '/') + "/api/chat"@
                        &&& chat.model@ == cfg.ollama_model@
                        &&& chat.messages@.len() == messages@.len() + 1
                        &&& chat.messages@[0].role@ == "system"@
                        &&& chat.messages@[0].content@ == cfg.ollama_system_prompt@
                        &&& chat.messages@.subrange(1, chat.messages@.len() as int) == messages@
                    }
                }
            }),
    {
        if let Err(e) = authenticate(self.config.shared_secret.as_str(), signature, payload) {
            return ChatStep::Denied(e);
        }
        if messages.len() == 0 {
            return ChatStep::NoMessages;
        }
        let mut rest = messages;
        let mut all: Vec<ChatMessage> = Vec::new();
        all.push(
            ChatMessage {
                role: String::from_str("system"),
                content: self.config.ollama_system_prompt.clone(),
            },
        );
        let ghost first = all@;
        all.append(&mut rest);
        assert(all@.subrange(1, all@.len() as int) =~= messages@);
        let base = trim_trailing_slashes(self.config.ollama_url.as_str());
        let url = join(base.as_str(), "/api/chat");
        ChatStep::Send(OllamaChat { url, model: self.config.ollama_model.clone(), messages: all })
    }
}

/// An answer to an action request.
fn response(
    http_status: u16,
    ok: bool,
    status: &str,
    message: String,
    request_id: String,
    confirmation_required: bool,
) -> (res: ActionResponse)
    ensures
        res@ == (ResponseView {
            http_status,
            ok,
            status: status@,
            message: message@,
            request_id: request_id@,
            confirmation_required,
        }),
{
    ActionResponse {
        http_status,
        ok,
        status: String::from_str(status),
        message,
        request_id,
        confirmation_required,
    }
}

/// The answer to a confirmation whose action has run.
#[derive(Debug)]
pub struct ConfirmAnswer {
    pub http_status: u16,
    pub ok: bool,
    pub status: String,
    /// The action's report, on success.
    pub message: Option<String>,
    /// The failure, otherwise.
    pub error: Option<String>,
    /// The confirmed request's ID, on success.
    pub request_id: Option<String>,
}

/// The answer once a confirmed action has run: 200 "completed" with its
/// report and the request ID, or 400 "failed" with its failure.
pub fn confirm_completed(request_id: String, outcome: Result<String, String>) -> (res: ConfirmAnswer)
    ensures
        match outcome {
            Ok(m) => {
                &&& res.http_status == 200
                &&& res.ok
                &&& res.status@ == "completed"@
                &&& res.message matches Some(x) && x@ == m@
                &&& res.error is None
                &&& res.request_id matches Some(id) && id@ == request_id@
            },
            Err(e) => {
                &&& res.http_status == 400
                &&& !res.ok
                &&& res.status@ == "failed"@
                &&& res.message is None
                &&& res.error matches Some(x) && x@ == e@
                &&& res.request_id is None
            },
        },
{
    match outcome {
        Ok(m) => ConfirmAnswer {
            http_status: 200,
            ok: true,
            status: String::from_str("completed"),
            message: Some(m),
            error: None,
            request_id: Some(request_id),
        },
        Err(e) => ConfirmAnswer {
            http_status: 400,
            ok: false,
            status: String::from_str("failed"),
            message: None,
            error: Some(e),
            request_id: None,
        },
    }
}

/// Whether `step` is what the service does on `decision` for an action
/// request for `action` under `request_id`.
pub open spec fn step_matches(step: ActionStep, decision: SubmitView, action: Seq<char>, request_id: Seq<char>) -> bool {
    match decision {
        SubmitView::Denied => step matches ActionStep::Respond(r) && r@ == (ResponseView {
            http_status: 401,
            ok: false,
            status: "denied"@,
            message: "invalid signature"@,
            request_id,
            confirmation_required: false,
        }),
        SubmitView::AwaitingConfirmation => step matches ActionStep::Respond(r) && r@ == (ResponseView {
            http_status: 200,
            ok: true,
            status: "pending_confirmation"@,
            message: action + " requires your confirmation"@,
            request_id,
            confirmation_required: true,
        }),
        SubmitView::Refused(refusal) => step matches ActionStep::Respond(r) && r@ == (ResponseView {
            http_status: 400,
            ok: false,
            status: "failed"@,
            message: refusal.message_text(),
            request_id,
            confirmation_required: false,
        }),
        SubmitView::Execute(plan) => step matches ActionStep::Execute { request_id: id, plan: p } && id@
            == request_id && p@ == plan,
    }
}

/// The answer once a planned action has run: its report, or its failure.
pub fn action_completed(request_id: String, outcome: Result<String, String>) -> (res: ActionResponse)
    ensures
        match outcome {
            Ok(m) => res@ == (ResponseView {
                http_status: 200,
                ok: true,
                status: "completed"@,
                message: m@,
                request_id: request_id@,
                confirmation_required: false,
            }),
            Err(e) => res@ == (ResponseView {
                http_status: 400,
                ok: false,
                status: "failed"@,
                message: e@,
                request_id: request_id@,
                confirmation_required: false,
            }),
        },
{
    match outcome {
        Ok(m) => response(200, true, "completed", m, request_id, false),
        Err(e) => response(400, false, "failed", e, request_id, false),
    }
}


/// A confirmation is single-use: once an authenticated confirmation of a
/// waiting request has been handled, whatever its outcome, the request is
/// gone, and a second confirmation of it finds nothing.
pub proof fn lemma_confirmation_is_single_use(
    pending: Map<Seq<char>, PendingView>,
    allowed_apps: Seq<Seq<char>>,
    ttl_secs: i64,
    id: Seq<char>,
    now: UtcTime,
    later: UtcTime,
)
    requires
        pending.contains_key(id),
    ensures
        !confirm_effect(pending, allowed_apps, ttl_secs, id, now).0.contains_key(id),
        confirm_effect(pending, allowed_apps, ttl_secs, id, now).0 == pending.remove(id),
        confirm_effect(confirm_effect(pending, allowed_apps, ttl_secs, id, now).0, allowed_apps, ttl_secs, id, later).1
            == ConfirmView::NotFound,
{
}

/// A confirmation runs only an action that was waiting under its ID, whose
/// creation time reads back, whose time-to-live has not passed, and that
/// the policy allows; the plan is the one the policy gives that action.
pub proof fn lemma_confirmation_runs_only_fresh_waiting_actions(
    pending: Map<Seq<char>, PendingView>,
    allowed_apps: Seq<Seq<char>>,
    ttl_secs: i64,
    id: Seq<char>,
    now: UtcTime,
    plan: PlanView,
)
    requires
        confirm_effect(pending, allowed_apps, ttl_secs, id, now).1 == ConfirmView::Execute(plan),
    ensures
        pending.contains_key(id),
        rfc3339_instant(pending[id].created_at) is Some,
        !outlived(
            now,
            UtcTime {
                secs: rfc3339_instant(pending[id].created_at)->Some_0.0,
                nanos: rfc3339_instant(pending[id].created_at)->Some_0.1,
            },
            ttl_secs,
        ),
        action_policy(allowed_apps, pending[id].action, pending[id].args) == Ok::<PlanView, Refusal>(plan),
{
}

/// A sensitive action never runs on request: an action on the confirmation
/// list only waits, under the request ID, exactly as requested; any other
/// action leaves the waiting actions as they are.
pub proof fn lemma_sensitive_actions_wait(
    pending: Map<Seq<char>, PendingView>,
    confirm_list: Seq<Seq<char>>,
    allowed_apps: Seq<Seq<char>>,
    request: ActionRequest,
    request_id: Seq<char>,
    created_at: Seq<char>,
)
    ensures
        ({
            let (after, decision) = submit_effect(
                pending,
                confirm_list,
                allowed_apps,
                request,
                request_id,
                created_at,
            );
            if confirm_list.contains(request.action@) {
                &&& decision == SubmitView::AwaitingConfirmation
                &&& after.contains_key(request_id)
                &&& after[request_id].action == request.action@
                &&& after[request_id].args == request.args
                &&& after[request_id].created_at == created_at
                &&& forall|k: Seq<char>| k != request_id ==> #[trigger] after.contains_key(k) == pending.contains_key(k)
            } else {
                &&& after == pending
                &&& decision != SubmitView::AwaitingConfirmation
                &&& action_policy(allowed_apps, request.action@, request.args) matches Ok(plan) ==> decision
                    == SubmitView::Execute(plan)
                &&& action_policy(allowed_apps, request.action@, request.args) matches Err(r) ==> decision
                    == SubmitView::Refused(r)
            }
        }),
{
}

/// A sensitive action requested at `created` and confirmed at `now` runs
/// exactly as requested when no more than the time-to-live has passed, and
/// expires otherwise; either way the request leaves the queue.
pub proof fn lemma_request_then_confirm(
    pending: Map<Seq<char>, PendingView>,
    confirm_list: Seq<Seq<char>>,
    allowed_apps: Seq<Seq<char>>,
    ttl_secs: i64,
    request: ActionRequest,
    request_id: Seq<char>,
    created_at: Seq<char>,
    created: UtcTime,
    now: UtcTime,
)
    requires
        confirm_list.contains(request.action@),
        rfc3339_instant(created_at) == Some((created.secs, created.nanos)),
    ensures
        ({
            let queued = submit_effect(pending, confirm_list, allowed_apps, request, request_id, created_at).0;
            let (after, decision) = confirm_effect(queued, allowed_apps, ttl_secs, request_id, now);
            &&& after == pending.remove(request_id)
            &&& if outlived(now, created, ttl_secs) {
                decision == ConfirmView::Expired
            } else {
                match action_policy(allowed_apps, request.action@, request.args) {
                    Ok(plan) => decision == ConfirmView::Execute(plan),
                    Err(r) => decision == ConfirmView::Refused(r),
                }
            }
        }),
{
    let queued = submit_effect(pending, confirm_list, allowed_apps, request, request_id, created_at).0;
    assert(queued.remove(request_id) =~= pending.remove(request_id));
}

/// Every answer to an action request carries the ID it was made under,
/// whatever the decision; only an answer that asks for confirmation says so.
pub proof fn lemma_answers_carry_request_id(
    step: ActionStep,
    decision: SubmitView,
    action: Seq<char>,
    request_id: Seq<char>,
)
    requires
        step_matches(step, decision, action, request_id),
    ensures
        step matches ActionStep::Respond(r) ==> r.request_id@ == request_id && (r.confirmation_required
            <==> decision == SubmitView::AwaitingConfirmation),
        step matches ActionStep::Execute { request_id: id, .. } ==> id@ == request_id,
{
}

} // verus!
