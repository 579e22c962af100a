//! From a request to a session.

use std::sync::Arc;

use tokio::sync::{OwnedSemaphorePermit, Semaphore};
use vstd::prelude::*;

use crate::config::{DaemonConfig, DaemonConfigView};
use crate::error::{Error, ErrorView};
use crate::service::{AuthService, AuthStep, AuthStepView, ServiceView};
use crate::text::strip_prefix;

verus! {

/// A byte that may stand in the text of a header: visible ASCII, a space or a tab.
pub open spec fn is_header_byte(b: u8) -> bool {
    32 <= b < 127 || b == 9
}

/// Whether `bytes` are the text of a header.
pub open spec fn is_header_text(bytes: Seq<u8>) -> bool {
    forall|i: int| 0 <= i < bytes.len() ==> is_header_byte(#[trigger] bytes[i])
}

/// The characters of the text of a header.
pub open spec fn header_chars(bytes: Seq<u8>) -> Seq<char> {
    bytes.map_values(|b: u8| b as char)
}

/// The text of a header, if it is one.
///
/// Calls `HeaderValue::from_bytes` and `HeaderValue::to_str` of `axum::http`. Trusted: that
/// they take visible ASCII, spaces and tabs and nothing else, and keep every character.
#[verifier::external_body]
fn header_text(value: &[u8]) -> (r: Option<String>)
    ensures
        match r {
            Some(text) => is_header_text(value@) && text@ == header_chars(value@),
            None => !is_header_text(value@),
        },
{
    let value = axum::http::HeaderValue::from_bytes(value).ok()?;
    value.to_str().ok().map(|text| text.to_string())
}

/// The token in an `Authorization` header: what follows `Bearer ` in its text.
pub open spec fn bearer(authorization: Option<Seq<u8>>) -> Result<Seq<char>, ErrorView> {
    match authorization {
        None => Err(ErrorView::MissingAuth),
        Some(value) => if is_header_text(value) && "Bearer "@.is_prefix_of(header_chars(value)) {
            Ok(header_chars(value).skip("Bearer "@.len() as int))
        } else {
            Err(ErrorView::InvalidAuthFormat)
        },
    }
}

/// The bytes of a header, if there is one.
pub open spec fn opt_bytes(value: Option<&[u8]>) -> Option<Seq<u8>> {
    match value {
        Some(value) => Some(value@),
        None => None,
    }
}

/// The token in the `Authorization` header of a request.
pub fn bearer_token(authorization: Option<&[u8]>) -> (r: Result<String, Error>)
    ensures
        match r {
            Ok(token) => bearer(opt_bytes(authorization)) == Ok::<Seq<char>, ErrorView>(token@),
            Err(e) => bearer(opt_bytes(authorization)) == Err::<Seq<char>, ErrorView>(e@),
        },
{
    let value = match authorization {
        Some(value) => value,
        None => return Err(Error::MissingAuth),
    };
    let text = match header_text(value) {
        Some(text) => text,
        None => return Err(Error::InvalidAuthFormat),
    };
    match strip_prefix(text.as_str(), "Bearer ") {
        Some(token) => {
            assert(text@.skip("Bearer "@.len() as int) == token@);
            assert("Bearer "@.is_prefix_of(text@)) by {
                assert("Bearer "@ == text@.subrange(0, "Bearer "@.len() as int));
            }
            Ok(token.to_string())
        },
        None => Err(Error::InvalidAuthFormat),
    }
}

/// What every request is handled with.
pub struct RelayState {
    pub auth: AuthService,
    pub daemon_config: DaemonConfig,
    /// A permit for every connection that there can be at once.
    pub connection_semaphore: Arc<Semaphore>,
}

/// What to do next with a request.
#[derive(Debug)]
pub enum RelayStep {
    /// Answer it with this failure.
    Reject(Error),
    /// Fetch the issuer's keys and resume.
    FetchKeys { token: String, kid: String },
    /// Take a connection slot for this client.
    TakeSlot { client: String },
}

/// The mathematical value of a [`RelayStep`].
pub enum RelayStepView {
    Reject(ErrorView),
    FetchKeys { token: Seq<char>, kid: Seq<char> },
    TakeSlot { client: Seq<char> },
}

impl View for RelayStep {
    type V = RelayStepView;

    open spec fn view(&self) -> RelayStepView {
        match self {
            RelayStep::Reject(e) => RelayStepView::Reject(e@),
            RelayStep::FetchKeys { token, kid } => RelayStepView::FetchKeys {
                token: token@,
                kid: kid@,
            },
            RelayStep::TakeSlot { client } => RelayStepView::TakeSlot { client: client@ },
        }
    }
}

/// What to do with a request whose token comes to `step`.
pub open spec fn after_auth(token: Seq<char>, step: AuthStepView) -> RelayStepView {
    match step {
        AuthStepView::Accepted(client) => RelayStepView::TakeSlot { client },
        AuthStepView::Rejected(e) => RelayStepView::Reject(e),
        AuthStepView::NeedsKeys(kid) => RelayStepView::FetchKeys { token, kid },
    }
}

/// Whether `step` can be the first step of a request with the header `authorization` at `now`:
/// nothing is done for a request before its token is taken.
pub open spec fn can_start(
    auth: ServiceView,
    authorization: Option<Seq<u8>>,
    now: u64,
    step: RelayStepView,
) -> bool {
    match bearer(authorization) {
        Err(e) => step == RelayStepView::Reject(e),
        Ok(token) => exists|said: AuthStepView| #[trigger]
            auth.can_step(token, now, said) && step == after_auth(token, said),
    }
}

/// What to do with a request whose token the service says `said` of.
pub fn follow_auth(token: String, said: AuthStep) -> (r: RelayStep)
    ensures
        r@ == after_auth(token@, said@),
{
    match said {
        AuthStep::Accepted(info) => RelayStep::TakeSlot { client: info.client_identity },
        AuthStep::Rejected(e) => RelayStep::Reject(e),
        AuthStep::NeedsKeys { kid } => RelayStep::FetchKeys { token, kid },
    }
}

/// The first step of a request with the header `authorization`, which arrives at `now`.
pub fn relay_handler(state: &RelayState, authorization: Option<&[u8]>, now: u64) -> (r: RelayStep)
    ensures
        can_start(state.auth@, opt_bytes(authorization), now, r@),
{
    let token = match bearer_token(authorization) {
        Ok(token) => token,
        Err(e) => return RelayStep::Reject(e),
    };
    let said = state.auth.validate_token(token.as_str(), now);
    assert(state.auth@.can_step(token@, now, said@));
    follow_auth(token, said)
}

/// Who a request with `token` comes from, once fetching keys for `kid` came to `refreshed`.
pub fn relay_resume(state: &RelayState, token: &str, kid: &str, refreshed: Result<(), Error>) -> (r:
    Result<String, Error>)
    ensures
        match refreshed {
            Err(e) => r matches Err(err) && err@ == match state.auth@.oidc {
                Some(_) => e@,
                None => crate::service::not_accepted(),
            },
            Ok(_) => state.auth@.can_resume(
                token@,
                kid@,
                match r {
                    Ok(client) => Ok(client@),
                    Err(err) => Err(err@),
                },
            ),
        },
{
    match state.auth.resume_token(token, kid, refreshed) {
        Ok(info) => Ok(info.client_identity),
        Err(e) => Err(e),
    }
}

/// How a session is set up.
#[derive(Debug)]
pub struct SessionPlan {
    /// Who it is for.
    pub client: String,
    /// The WebSocket subprotocol.
    pub protocol: String,
    /// The daemon, and how long it may run.
    pub daemon: DaemonConfig,
}

/// Whether `plan` sets up a session of `client` with the daemon `daemon`.
pub open spec fn is_session_of(
    plan: SessionPlan,
    client: Seq<char>,
    daemon: DaemonConfigView,
) -> bool {
    &&& plan.client@ == client
    &&& plan.protocol@ == "binary"@
    &&& plan.daemon@ == daemon
}

fn plan_session(state: &RelayState, client: String) -> (r: SessionPlan)
    ensures
        is_session_of(r, client@, state.daemon_config@),
{
    SessionPlan {
        client,
        protocol: "binary".to_string(),
        daemon: state.daemon_config.clone(),
    }
}

/// `tokio::sync::Semaphore`, as an opaque value.
#[verifier::external_type_specification]
#[verifier::external_body]
pub struct ExSemaphore(tokio::sync::Semaphore);

/// `tokio::sync::OwnedSemaphorePermit`, as an opaque value.
#[verifier::external_type_specification]
#[verifier::external_body]
pub struct ExOwnedSemaphorePermit(tokio::sync::OwnedSemaphorePermit);

/// Takes a connection slot, if there is one. It is free again when the permit is dropped.
///
/// Calls `Semaphore::try_acquire_owned`. Nothing is claimed of the result, which depends on
/// the other connections.
#[verifier::external_body]
fn take_slot(slots: &Arc<Semaphore>) -> (r: Option<OwnedSemaphorePermit>) {
    slots.clone().try_acquire_owned().ok()
}

/// How the session of `client` is set up, with the connection slot `slot` that it keeps.
/// Without a slot there is none.
pub fn admit_with(
    state: &RelayState,
    client: String,
    slot: Option<OwnedSemaphorePermit>,
) -> (r: Result<(SessionPlan, OwnedSemaphorePermit), Error>)
    ensures
        match slot {
            Some(permit) => r matches Ok((plan, kept)) && kept == permit && is_session_of(
                plan,
                client@,
                state.daemon_config@,
            ),
            None => r matches Err(e) && e@ == ErrorView::TooManyConnections,
        },
        slot_event(r) == if slot is Some {
            SlotEvent::Admitted
        } else {
            SlotEvent::Refused
        },
{
    match slot {
        Some(permit) => Ok((plan_session(state, client), permit)),
        None => Err(Error::TooManyConnections),
    }
}

/// How the session of `client` is set up, with the connection slot that it keeps. Without a
/// free slot there is none.
pub fn relay_admit(state: &RelayState, client: String) -> (r: Result<
    (SessionPlan, OwnedSemaphorePermit),
    Error,
>)
    ensures
        match r {
            Ok((plan, _)) => is_session_of(plan, client@, state.daemon_config@),
            Err(e) => e@ == ErrorView::TooManyConnections,
        },
{
    admit_with(state, client, take_slot(&state.connection_semaphore))
}

/// What happens to the connection slots of a server.
pub enum SlotEvent {
    /// A session is admitted and keeps a slot.
    Admitted,
    /// A request is refused for want of a slot, and keeps none.
    Refused,
    /// A session ends, whatever the reason, and gives its slot back.
    Ended,
}

/// The connection slots that are free, and the sessions that run.
pub struct SlotCount {
    pub free: nat,
    pub running: nat,
}

impl SlotCount {
    /// Whether `event` can happen: a slot is given out while one is free, a request is refused
    /// while none is, and a session ends while one runs.
    pub open spec fn allows(self, event: SlotEvent) -> bool {
        match event {
            SlotEvent::Admitted => self.free > 0,
            SlotEvent::Refused => self.free == 0,
            SlotEvent::Ended => self.running > 0,
        }
    }

    /// The slots and sessions after `event`.
    pub open spec fn after(self, event: SlotEvent) -> SlotCount {
        match event {
            SlotEvent::Admitted => SlotCount {
                free: (self.free - 1) as nat,
                running: self.running + 1,
            },
            SlotEvent::Refused => self,
            SlotEvent::Ended => SlotCount {
                free: self.free + 1,
                running: (self.running - 1) as nat,
            },
        }
    }
}

/// The slots and sessions of a server with `slots` slots after `events`.
pub open spec fn slots_after(slots: nat, events: Seq<SlotEvent>) -> SlotCount
    decreases events.len(),
{
    if events.len() == 0 {
        SlotCount { free: slots, running: 0 }
    } else {
        slots_after(slots, events.drop_last()).after(events.last())
    }
}

/// Whether `events` can happen in this order on a server with `slots` slots.
pub open spec fn can_happen(slots: nat, events: Seq<SlotEvent>) -> bool {
    forall|i: int|
        0 <= i < events.len() ==> slots_after(slots, events.take(i)).allows(#[trigger] events[i])
}

/// What an admission that comes to `r` means for the slots.
pub open spec fn slot_event(r: Result<(SessionPlan, OwnedSemaphorePermit), Error>) -> SlotEvent {
    match r {
        Ok(_) => SlotEvent::Admitted,
        Err(_) => SlotEvent::Refused,
    }
}

/// A session is admitted only while a slot is free, and takes one; a refusal takes none; the
/// end of a session gives one back.
pub proof fn law_slots_move_one_by_one(count: SlotCount, event: SlotEvent)
    requires
        count.allows(event),
    ensures
        match event {
            SlotEvent::Admitted => count.free > 0 && count.after(event).free == count.free - 1
                && count.after(event).running == count.running + 1,
            SlotEvent::Refused => count.after(event) == count,
            SlotEvent::Ended => count.after(event).free == count.free + 1 && count.after(
                event,
            ).running == count.running - 1,
        },
{
}

/// At every moment the free slots and the running sessions add up to the slots that there are:
/// no more sessions run than that, and with none running all slots are free.
pub proof fn law_slots_add_up(slots: nat, events: Seq<SlotEvent>)
    requires
        can_happen(slots, events),
    ensures
        forall|i: int|
            0 <= i <= events.len() ==> {
                let count = #[trigger] slots_after(slots, events.take(i));
                count.free + count.running == slots
            },
    decreases events.len(),
{
    if events.len() > 0 {
        let before = events.drop_last();
        let last = events.len() - 1;
        assert(events.take(last) == before);
        assert(slots_after(slots, events.take(last)).allows(events[last]));
        assert forall|i: int| 0 <= i < before.len() implies slots_after(
            slots,
            before.take(i),
        ).allows(#[trigger] before[i]) by {
            assert(before[i] == events[i]);
            assert(before.take(i) == events.take(i));
        }
        law_slots_add_up(slots, before);
        assert(before.take(last) == before);
        assert(events.take(events.len() as int) == events);
        assert forall|i: int| 0 <= i <= events.len() implies {
            let count = #[trigger] slots_after(slots, events.take(i));
            count.free + count.running == slots
        } by {
            if i < events.len() {
                assert(before.take(i) == events.take(i));
            } else {
                assert(slots_after(slots, before.take(last)).free + slots_after(
                    slots,
                    before.take(last),
                ).running == slots);
            }
        }
    }
}

/// A request whose header is missing or is no bearer token is answered 401, whatever tokens
/// are taken.
pub proof fn law_requests_without_a_bearer_token_are_unauthorized(
    auth: ServiceView,
    authorization: Option<Seq<u8>>,
    now: u64,
    step: RelayStepView,
)
    requires
        can_start(auth, authorization, now, step),
        bearer(authorization) is Err,
    ensures
        step matches RelayStepView::Reject(e) && e.status() == 401,
{
}

/// A connection slot is taken only for a request whose token was verified.
pub proof fn law_slots_are_for_verified_tokens(
    auth: ServiceView,
    authorization: Option<Seq<u8>>,
    now: u64,
    step: RelayStepView,
)
    requires
        can_start(auth, authorization, now, step),
        step is TakeSlot,
    ensures
        bearer(authorization) matches Ok(token) && auth.verifies(token),
{
    let token = bearer(authorization)->Ok_0;
    let said = choose|said: AuthStepView| #[trigger]
        auth.can_step(token, now, said) && step == after_auth(token, said);
    crate::service::law_taken_tokens_were_verified(auth, token, now, said);
}

/// A header that reads `Bearer ` and then a token has that token, whole. Any other header has
/// none, and neither has a request without one.
pub proof fn law_bearer_tokens_follow_the_word(
    value: Seq<u8>,
    text: Seq<char>,
    token: Seq<char>,
)
    requires
        text.len() == value.len(),
        forall|i: int| 0 <= i < value.len() ==> #[trigger] text[i] == value[i] as char,
    ensures
        bearer(None) == Err::<Seq<char>, ErrorView>(ErrorView::MissingAuth),
        bearer(Some(value)) == Ok::<Seq<char>, ErrorView>(token) <==> text == "Bearer "@ + token
            && forall|i: int|
            0 <= i < value.len() ==> 32 <= #[trigger] value[i] < 127 || value[i] == 9,
        bearer(Some(value)) is Ok || bearer(Some(value)) == Err::<Seq<char>, ErrorView>(
            ErrorView::InvalidAuthFormat,
        ),
{
    assert(header_chars(value) =~= text);
    let word = "Bearer "@;
    assert(is_header_text(value) <==> forall|i: int|
        0 <= i < value.len() ==> 32 <= #[trigger] value[i] < 127 || value[i] == 9) by {
        if is_header_text(value) {
            assert forall|i: int| 0 <= i < value.len() implies 32 <= #[trigger] value[i] < 127
                || value[i] == 9 by {
                assert(is_header_byte(value[i]));
            }
        }
    }
    if text == word + token {
        assert(text.subrange(0, word.len() as int) == word);
        assert(text.skip(word.len() as int) == token);
    }
    if word.is_prefix_of(text) && text.skip(word.len() as int) == token {
        assert(text.subrange(0, word.len() as int) == word);
        assert(text == word + token);
    }
}

/// A request whose token is taken goes on to take a slot for whom the token belongs to, one
/// whose token is refused is answered so, and one whose key is unknown waits for the keys with
/// its own token.
pub proof fn law_requests_follow_their_token(
    token: Seq<char>,
    client: Seq<char>,
    e: ErrorView,
    kid: Seq<char>,
)
    ensures
        after_auth(token, AuthStepView::Accepted(client)) == (RelayStepView::TakeSlot { client }),
        after_auth(token, AuthStepView::Rejected(e)) == RelayStepView::Reject(e),
        after_auth(token, AuthStepView::NeedsKeys(kid)) == (RelayStepView::FetchKeys {
            token,
            kid,
        }),
{
}

/// A request goes by the token in its header and by nothing else: without one it is refused
/// with what is wrong with the header, and with one its first step is what becomes of that
/// token.
pub proof fn law_requests_go_by_their_header(
    auth: ServiceView,
    authorization: Option<Seq<u8>>,
    now: u64,
    step: RelayStepView,
)
    requires
        can_start(auth, authorization, now, step),
    ensures
        match bearer(authorization) {
            Err(e) => step == RelayStepView::Reject(e),
            Ok(token) => match step {
                RelayStepView::TakeSlot { client } => auth.can_step(
                    token,
                    now,
                    AuthStepView::Accepted(client),
                ),
                RelayStepView::Reject(e) => auth.can_step(token, now, AuthStepView::Rejected(e)),
                RelayStepView::FetchKeys { token: kept, kid } => kept == token && auth.can_step(
                    token,
                    now,
                    AuthStepView::NeedsKeys(kid),
                ),
            },
        },
{
}

/// A session is for its client, over the subprotocol `binary`, with the configured daemon, its
/// arguments and its time.
pub proof fn law_sessions_are_for_their_client(
    plan: SessionPlan,
    client: Seq<char>,
    daemon: DaemonConfigView,
)
    requires
        is_session_of(plan, client, daemon),
    ensures
        plan.client@ == client,
        plan.protocol@ == "binary"@,
        plan.daemon.nix_daemon_path@ == daemon.nix_daemon_path,
        plan.daemon.extra_args@.len() == daemon.extra_args.len(),
        forall|i: int|
            0 <= i < daemon.extra_args.len() ==> (#[trigger] plan.daemon.extra_args@[i])@
                == daemon.extra_args[i],
        plan.daemon.timeout_secs == daemon.timeout_secs,
        plan.daemon.max_connections == daemon.max_connections,
{
    assert forall|i: int| 0 <= i < daemon.extra_args.len() implies (
    #[trigger] plan.daemon.extra_args@[i])@ == daemon.extra_args[i] by {
        assert(plan.daemon@.extra_args[i] == plan.daemon.extra_args@[i]@);
    }
}

/// The steps of a request, and its header, are what they hold.
pub proof fn law_request_steps_are_what_they_hold(
    error: Error,
    token: String,
    kid: String,
    value: &[u8],
)
    ensures
        RelayStep::Reject(error)@ == RelayStepView::Reject(error@),
        (RelayStep::FetchKeys { token, kid })@ == (RelayStepView::FetchKeys {
            token: token@,
            kid: kid@,
        }),
        (RelayStep::TakeSlot { client: kid })@ == (RelayStepView::TakeSlot { client: kid@ }),
        opt_bytes(Some(value)) == Some(value@),
        opt_bytes(None) is None,
{
}

} // verus!
