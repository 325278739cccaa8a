//! The redirect handler: it tells the two kinds of callback apart and takes
//! each through its flow, one step at a time. The handler decides; whoever
//! runs it reads the store, sends the requests and hands back what came of it.

use vstd::prelude::*;
use vstd::string::*;
use crate::errors::{ErrorKind, TError};
use crate::exchange::{
    grant_entries, grant_writes, read_grant, reply_outcome, token_request, token_request_view,
    verifier_key, AccessToken, ProviderReply, ProviderReplyView, SettingsVars, SettingsView,
};
use crate::keyval::{has_key, lemma_put_fresh, lookup, string_pairs, Entries, KeyVal};
use crate::method::ApiCallMethod;
use crate::query::{parse_query, query_params};
use crate::request_builder::{HttpRequest, HttpRequestView, RequestBuilder};
use crate::response::{ApiReply, ResponseBuilder};

verus! {

/// What came of the last action.
#[derive(Debug)]
pub enum Event {
    /// The callback has arrived, with these query parameters.
    Callback(KeyVal),
    /// The store held this value.
    StoreValue(String),
    /// The store took what it was given.
    StoreWritten,
    /// The provider answered.
    Response(ProviderReply),
    /// The store or the network failed.
    Failed(TError),
}

/// An event as plain text.
pub enum EventView {
    Callback(Entries),
    StoreValue(Seq<char>),
    StoreWritten,
    Response(ProviderReplyView),
    Failed(ErrorKind),
}

impl View for Event {
    type V = EventView;

    open spec fn view(&self) -> EventView {
        match self {
            Event::Callback(params) => EventView::Callback(params@),
            Event::StoreValue(value) => EventView::StoreValue(value@),
            Event::StoreWritten => EventView::StoreWritten,
            Event::Response(reply) => EventView::Response(reply@),
            Event::Failed(err) => EventView::Failed(err@),
        }
    }
}

/// What is to be done next.
#[derive(Debug)]
pub enum Action {
    /// Read the entry of this name from the store.
    StoreGet(String),
    /// Write these entries to the store, in this order.
    StoreSet(Vec<(String, String)>),
    /// Send this request to the provider.
    Send(HttpRequest),
    /// Answer the callback; the flow is over.
    Reply(ApiReply<String>),
    /// Hand the error to the caller; the flow is over.
    Fail(TError),
    /// Nothing: the flow was over before.
    Halt,
}

/// An action as plain text.
pub enum ActionView {
    StoreGet(Seq<char>),
    StoreSet(Entries),
    Send(HttpRequestView),
    Reply { status: u16, message: Seq<char> },
    Fail(ErrorKind),
    Halt,
}

impl View for Action {
    type V = ActionView;

    open spec fn view(&self) -> ActionView {
        match self {
            Action::StoreGet(key) => ActionView::StoreGet(key@),
            Action::StoreSet(writes) => ActionView::StoreSet(string_pairs(writes@)),
            Action::Send(request) => ActionView::Send(request@),
            Action::Reply(reply) => ActionView::Reply {
                status: reply.status,
                message: reply.content.message@,
            },
            Action::Fail(err) => ActionView::Fail(err@),
            Action::Halt => ActionView::Halt,
        }
    }
}

/// Where a callback stands.
#[derive(Debug)]
pub enum Flow {
    AwaitingCallback,
    /// An OAuth 1.0a callback; the stored token is being read.
    TokenLookup { token: String, verifier: String, params: KeyVal },
    /// The token matched; the verifier is being stored.
    VerifierWrite { token: String, verifier: String },
    /// The access-token request is on its way.
    AccessTokenPending,
    /// An OAuth 2.0 callback with the right state; the code verifier is being read.
    StateValidated { code: String },
    /// The token request is on its way.
    CodeExchangePending,
    /// The grant is being stored.
    Persisting,
    /// The grant is stored: the OAuth 2.0 flow has succeeded.
    GrantPersisted,
    /// The access token was asked for: the OAuth 1.0a flow has succeeded.
    AccessRequested,
    /// The callback was turned down, or a step failed.
    Rejected,
}

/// A state as plain text.
pub enum FlowView {
    AwaitingCallback,
    TokenLookup { token: Seq<char>, verifier: Seq<char>, params: Entries },
    VerifierWrite { token: Seq<char>, verifier: Seq<char> },
    AccessTokenPending,
    StateValidated { code: Seq<char> },
    CodeExchangePending,
    Persisting,
    GrantPersisted,
    AccessRequested,
    Rejected,
}

impl View for Flow {
    type V = FlowView;

    open spec fn view(&self) -> FlowView {
        match self {
            Flow::AwaitingCallback => FlowView::AwaitingCallback,
            Flow::TokenLookup { token, verifier, params } => FlowView::TokenLookup {
                token: token@,
                verifier: verifier@,
                params: params@,
            },
            Flow::VerifierWrite { token, verifier } => FlowView::VerifierWrite {
                token: token@,
                verifier: verifier@,
            },
            Flow::AccessTokenPending => FlowView::AccessTokenPending,
            Flow::StateValidated { code } => FlowView::StateValidated { code: code@ },
            Flow::CodeExchangePending => FlowView::CodeExchangePending,
            Flow::Persisting => FlowView::Persisting,
            Flow::GrantPersisted => FlowView::GrantPersisted,
            Flow::AccessRequested => FlowView::AccessRequested,
            Flow::Rejected => FlowView::Rejected,
        }
    }
}

/// The callback has the shape of OAuth 1.0a.
pub open spec fn callback_is_v1(params: Entries) -> bool {
    has_key(params, "oauth_token"@) && has_key(params, "oauth_verifier"@)
}

/// The callback has the shape of OAuth 2.0.
pub open spec fn callback_is_v2(params: Entries) -> bool {
    has_key(params, "code"@) && has_key(params, "state"@)
}

/// The answer to a callback that is taken for neither flow.
pub open spec fn bad_request() -> (FlowView, ActionView) {
    (FlowView::Rejected, ActionView::Reply { status: 400, message: "Bad request"@ })
}

/// The answer that ends a flow well.
pub open spec fn access_granted() -> ActionView {
    ActionView::Reply { status: 200, message: "Access Granted"@ }
}

/// The answer to an event that the state was not waiting for.
pub open spec fn out_of_turn() -> (FlowView, ActionView) {
    (FlowView::Rejected, ActionView::Fail(ErrorKind::UnexpectedEvent))
}

/// The second look at a callback, as one of OAuth 2.0: it passes where it
/// carries a code and the state that this process sent out.
pub open spec fn second_look(config: SettingsView, params: Entries) -> (FlowView, ActionView) {
    if callback_is_v2(params) && lookup(params, "state"@) == Some(config.state) {
        (
            FlowView::StateValidated { code: lookup(params, "code"@)->0 },
            ActionView::StoreGet("tolumide_test_pkce"@),
        )
    } else {
        bad_request()
    }
}

/// The request that asks for the access token of the OAuth 1.0a flow.
pub open spec fn access_token_request_view(
    config: SettingsView,
    token: Seq<char>,
    verifier: Seq<char>,
) -> HttpRequestView {
    HttpRequestView {
        method: ApiCallMethod::POST,
        uri: "https://api.twitter.com/oauth/access_token?"@,
        headers: seq![
            ("oauth_consumer_key"@, config.api_key),
            ("oauth_token"@, token),
            ("oauth_verifier"@, verifier),
        ],
        body: Seq::empty(),
    }
}

/// One step of the handler: the state that follows and what is to be done.
pub open spec fn next(config: SettingsView, state: FlowView, event: EventView) -> (
    FlowView,
    ActionView,
) {
    match state {
        FlowView::AwaitingCallback => match event {
            EventView::Callback(params) => if callback_is_v1(params) {
                (
                    FlowView::TokenLookup {
                        token: lookup(params, "oauth_token"@)->0,
                        verifier: lookup(params, "oauth_verifier"@)->0,
                        params,
                    },
                    ActionView::StoreGet("oauth_token"@),
                )
            } else {
                second_look(config, params)
            },
            _ => out_of_turn(),
        },
        FlowView::TokenLookup { token, verifier, params } => match event {
            EventView::StoreValue(stored) => if token == stored {
                (
                    FlowView::VerifierWrite { token, verifier },
                    ActionView::StoreSet(seq![("oauth_verifier"@, verifier)]),
                )
            } else {
                second_look(config, params)
            },
            EventView::Failed(kind) => (FlowView::Rejected, ActionView::Fail(kind)),
            _ => out_of_turn(),
        },
        FlowView::VerifierWrite { token, verifier } => match event {
            EventView::StoreWritten => (
                FlowView::AccessTokenPending,
                ActionView::Send(access_token_request_view(config, token, verifier)),
            ),
            EventView::Failed(kind) => (FlowView::Rejected, ActionView::Fail(kind)),
            _ => out_of_turn(),
        },
        FlowView::AccessTokenPending => match event {
            EventView::Response(_) => (FlowView::AccessRequested, access_granted()),
            EventView::Failed(_) => (FlowView::AccessRequested, access_granted()),
            _ => out_of_turn(),
        },
        FlowView::StateValidated { code } => match event {
            EventView::StoreValue(verifier) => (
                FlowView::CodeExchangePending,
                ActionView::Send(token_request_view(config, code, verifier)),
            ),
            EventView::Failed(kind) => (FlowView::Rejected, ActionView::Fail(kind)),
            _ => out_of_turn(),
        },
        FlowView::CodeExchangePending => match event {
            EventView::Response(reply) => match reply_outcome(reply) {
                Ok(grant) => (FlowView::Persisting, ActionView::StoreSet(grant_writes(grant))),
                Err(kind) => (FlowView::Rejected, ActionView::Fail(kind)),
            },
            EventView::Failed(kind) => (FlowView::Rejected, ActionView::Fail(kind)),
            _ => out_of_turn(),
        },
        FlowView::Persisting => match event {
            EventView::StoreWritten => (FlowView::GrantPersisted, access_granted()),
            EventView::Failed(kind) => (FlowView::Rejected, ActionView::Fail(kind)),
            _ => out_of_turn(),
        },
        FlowView::GrantPersisted => (FlowView::GrantPersisted, ActionView::Halt),
        FlowView::AccessRequested => (FlowView::AccessRequested, ActionView::Halt),
        FlowView::Rejected => (FlowView::Rejected, ActionView::Halt),
    }
}

/// The actions that a run of events draws from the handler, one for each.
pub open spec fn run(config: SettingsView, state: FlowView, events: Seq<EventView>) -> Seq<
    ActionView,
>
    decreases events.len(),
{
    if events.len() == 0 {
        Seq::empty()
    } else {
        let step = next(config, state, events[0]);
        seq![step.1] + run(config, step.0, events.drop_first())
    }
}

/// The action asks the token endpoint for a grant.
pub open spec fn is_token_request(action: ActionView) -> bool {
    action matches ActionView::Send(request) && request.uri
        == "https://api.twitter.com/2/oauth2/token?"@
}

/// The action writes to the store.
pub open spec fn is_store_write(action: ActionView) -> bool {
    action is StoreSet
}

/// The action writes an access token to the store.
pub open spec fn is_grant_write(action: ActionView) -> bool {
    action matches ActionView::StoreSet(writes) && has_key(writes, "tolumide_test_access"@)
}

/// The states that a callback can reach whose state is not the one sent out.
pub open spec fn outside_exchange(config: SettingsView, state: FlowView) -> bool {
    match state {
        FlowView::TokenLookup { token, verifier, params } => lookup(params, "state"@) != Some(
            config.state,
        ),
        FlowView::VerifierWrite { token, verifier } => true,
        FlowView::AccessTokenPending => true,
        FlowView::AccessRequested => true,
        FlowView::Rejected => true,
        _ => false,
    }
}

proof fn lemma_endpoints_differ()
    ensures
        "https://api.twitter.com/oauth/access_token?"@ != "https://api.twitter.com/2/oauth2/token?"@,
        "oauth_verifier"@ != "tolumide_test_access"@,
{
    reveal_strlit("https://api.twitter.com/oauth/access_token?");
    reveal_strlit("https://api.twitter.com/2/oauth2/token?");
    reveal_strlit("oauth_verifier");
    reveal_strlit("tolumide_test_access");
    assert("https://api.twitter.com/oauth/access_token?"@.len() == 43);
    assert("https://api.twitter.com/2/oauth2/token?"@.len() == 39);
    assert("oauth_verifier"@.len() == 14);
    assert("tolumide_test_access"@.len() == 20);
}

/// From a state outside the exchange one step leads to another such state,
/// and it neither asks the token endpoint nor writes a grant.
pub proof fn lemma_step_outside_exchange(config: SettingsView, state: FlowView, event: EventView)
    requires
        outside_exchange(config, state),
    ensures
        outside_exchange(config, next(config, state, event).0),
        !is_token_request(next(config, state, event).1),
        !is_grant_write(next(config, state, event).1),
{
    lemma_endpoints_differ();
    let action = next(config, state, event).1;
    if let ActionView::StoreSet(writes) = action {
        assert(writes.len() == 1);
        assert(writes[0].0 == "oauth_verifier"@);
        crate::keyval::lemma_position_is(writes, "tolumide_test_access"@, 1);
    }
}

/// Once a flow is rejected, nothing is done any more.
pub proof fn lemma_rejected_is_final(config: SettingsView, events: Seq<EventView>)
    ensures
        run(config, FlowView::Rejected, events).len() == events.len(),
        forall|i: int|
            0 <= i < events.len() ==> #[trigger] run(config, FlowView::Rejected, events)[i]
                == ActionView::Halt,
    decreases events.len(),
{
    if events.len() > 0 {
        lemma_rejected_is_final(config, events.drop_first());
        let rest = run(config, FlowView::Rejected, events.drop_first());
        let all = run(config, FlowView::Rejected, events);
        assert forall|i: int| 0 <= i < events.len() implies #[trigger] all[i]
            == ActionView::Halt by {
            if i > 0 {
                assert(all[i] == rest[i - 1]);
            }
        }
    }
}

/// From a state outside the exchange no run of events asks the token
/// endpoint or writes a grant.
pub proof fn lemma_run_outside_exchange(
    config: SettingsView,
    state: FlowView,
    events: Seq<EventView>,
)
    requires
        outside_exchange(config, state),
    ensures
        run(config, state, events).len() == events.len(),
        forall|i: int|
            0 <= i < events.len() ==> {
                let action = #[trigger] run(config, state, events)[i];
                !is_token_request(action) && !is_grant_write(action)
            },
    decreases events.len(),
{
    if events.len() > 0 {
        let step = next(config, state, events[0]);
        lemma_step_outside_exchange(config, state, events[0]);
        lemma_run_outside_exchange(config, step.0, events.drop_first());
        let rest = run(config, step.0, events.drop_first());
        let all = run(config, state, events);
        assert forall|i: int| 0 <= i < events.len() implies {
            let action = #[trigger] all[i];
            !is_token_request(action) && !is_grant_write(action)
        } by {
            if i > 0 {
                assert(all[i] == rest[i - 1]);
            }
        }
    }
}

/// A callback whose state is not the one this process sent out never
/// reaches the token endpoint and never has a grant stored, whatever
/// follows. Where it is no OAuth 1.0a callback either, it is rejected at
/// once with a bad-request reply.
pub proof fn lemma_state_mismatch_is_rejected(
    config: SettingsView,
    params: Entries,
    later: Seq<EventView>,
)
    requires
        lookup(params, "state"@) != Some(config.state),
    ensures
        !callback_is_v1(params) ==> next(
            config,
            FlowView::AwaitingCallback,
            EventView::Callback(params),
        ) == bad_request(),
        forall|i: int|
            0 <= i < 1 + later.len() ==> {
                let action = #[trigger] run(
                    config,
                    FlowView::AwaitingCallback,
                    seq![EventView::Callback(params)] + later,
                )[i];
                !is_token_request(action) && !is_grant_write(action)
            },
{
    let events = seq![EventView::Callback(params)] + later;
    let step = next(config, FlowView::AwaitingCallback, EventView::Callback(params));
    assert(events[0] == EventView::Callback(params));
    assert(events.drop_first() =~= later);
    assert(outside_exchange(config, step.0));
    lemma_run_outside_exchange(config, step.0, later);
    let rest = run(config, step.0, later);
    let all = run(config, FlowView::AwaitingCallback, events);
    assert forall|i: int| 0 <= i < 1 + later.len() implies {
        let action = #[trigger] all[i];
        !is_token_request(action) && !is_grant_write(action)
    } by {
        if i > 0 {
            assert(all[i] == rest[i - 1]);
        }
    }
}

/// A callback of neither shape is answered with a bad request, and the
/// store is not written to, whatever follows.
pub proof fn lemma_unrecognised_callback_writes_nothing(
    config: SettingsView,
    params: Entries,
    later: Seq<EventView>,
)
    requires
        !callback_is_v1(params),
        !callback_is_v2(params),
    ensures
        next(config, FlowView::AwaitingCallback, EventView::Callback(params)) == bad_request(),
        forall|i: int|
            0 <= i < 1 + later.len() ==> !is_store_write(
                #[trigger] run(
                    config,
                    FlowView::AwaitingCallback,
                    seq![EventView::Callback(params)] + later,
                )[i],
            ),
{
    let events = seq![EventView::Callback(params)] + later;
    assert(events[0] == EventView::Callback(params));
    assert(events.drop_first() =~= later);
    lemma_rejected_is_final(config, later);
    let rest = run(config, FlowView::Rejected, later);
    let all = run(config, FlowView::AwaitingCallback, events);
    assert forall|i: int| 0 <= i < 1 + later.len() implies !is_store_write(#[trigger] all[i]) by {
        if i > 0 {
            assert(all[i] == rest[i - 1]);
        }
    }
}

/// Nothing is written to the store before the check that it depends on has
/// passed: the verifier only once the callback's token is the stored one,
/// the grant only once the token endpoint has answered with one.
pub proof fn lemma_writes_follow_validation(
    config: SettingsView,
    state: FlowView,
    event: EventView,
)
    requires
        next(config, state, event).1 is StoreSet,
    ensures
        ({
            let writes = next(config, state, event).1->StoreSet_0;
            ||| {
                &&& state matches FlowView::TokenLookup { token, verifier, params }
                &&& event == EventView::StoreValue(token)
                &&& writes == seq![("oauth_verifier"@, verifier)]
            }
            ||| {
                &&& state is CodeExchangePending
                &&& event matches EventView::Response(reply)
                &&& reply_outcome(reply) matches Ok(grant)
                &&& writes == grant_writes(grant)
            }
        }),
{
}

/// The token endpoint is asked only from the state that a callback with the
/// right state leads to, and that state is entered only by such a callback.
pub proof fn lemma_exchange_follows_state_check(
    config: SettingsView,
    state: FlowView,
    event: EventView,
)
    ensures
        is_token_request(next(config, state, event).1) ==> state is StateValidated,
        next(config, state, event).0 is StateValidated ==> {
            let params = match state {
                FlowView::TokenLookup { token, verifier, params } => params,
                _ => event->Callback_0,
            };
            &&& state is AwaitingCallback || state is TokenLookup
            &&& callback_is_v2(params)
            &&& lookup(params, "state"@) == Some(config.state)
        },
{
    lemma_endpoints_differ();
}

/// A reply whose body is empty and whose code is its status.
pub open spec fn is_plain_reply(action: Action) -> bool {
    match action {
        Action::Reply(reply) => reply.content.code == reply.status && match reply.content.body {
            Some(body) => body@ == Seq::<char>::empty(),
            None => false,
        },
        _ => false,
    }
}

/// The event of a callback with this query. A query that cannot be read
/// counts as one without parameters.
pub fn callback(query: &str) -> (event: Event)
    ensures
        event@ == EventView::Callback(
            match query_params(query@) {
                Some(params) => params,
                None => Seq::empty(),
            },
        ),
{
    match parse_query(query) {
        Some(params) => Event::Callback(params),
        None => Event::Callback(KeyVal::new()),
    }
}

fn respond(message: &str, code: u16) -> (action: Action)
    requires
        100 <= code < 1000,
    ensures
        action@ == (ActionView::Reply { status: code, message: message@ }),
        is_plain_reply(action),
{
    match ResponseBuilder::new(String::from_str(message), Some(String::new()), code).reply() {
        Ok(reply) => Action::Reply(reply),
        Err(err) => Action::Fail(err),
    }
}

fn take_second_look(config: &SettingsVars, params: KeyVal) -> (r: (Flow, Action))
    ensures
        (r.0@, r.1@) == second_look(config@, params@),
        r.1 is Reply ==> is_plain_reply(r.1),
{
    let mut keys: Vec<&str> = Vec::new();
    keys.push("code");
    keys.push("state");
    if params.verify_present(&keys) {
        assert(has_key(params@, keys@[0]@) && has_key(params@, keys@[1]@));
        match (params.get("state"), params.get("code")) {
            (Some(state), Some(code)) => {
                let token = AccessToken { state: state.clone(), code: code.clone() };
                match token.validate_state(config.state.clone()) {
                    Ok(valid) => {
                        return (
                            Flow::StateValidated { code: valid.code },
                            Action::StoreGet(String::from_str(verifier_key())),
                        );
                    },
                    Err(_) => {},
                }
            },
            _ => {},
        }
    }
    (Flow::Rejected, respond("Bad request", 400))
}

/// Builds the request that asks for the access token of the OAuth 1.0a flow.
pub fn access_token_request(config: &SettingsVars, token: String, verifier: String) -> (r:
    HttpRequest)
    ensures
        r@ == access_token_request_view(config@, token@, verifier@),
{
    proof {
        reveal_strlit("oauth_consumer_key");
        reveal_strlit("oauth_token");
        reveal_strlit("oauth_verifier");
        assert("oauth_consumer_key"@.len() == 18);
        assert("oauth_token"@.len() == 11);
        assert("oauth_verifier"@.len() == 14);
    }
    let ghost want = access_token_request_view(config@, token@, verifier@);
    let h1 = KeyVal::new().add_param("oauth_consumer_key", config.api_key.clone());
    proof {
        lemma_put_fresh(Seq::empty(), "oauth_consumer_key"@, config.api_key@);
        assert(h1@ =~= want.headers.take(1));
    }
    let h2 = h1.add_param("oauth_token", token);
    proof {
        lemma_put_fresh(want.headers.take(1), "oauth_token"@, token@);
        assert(h2@ =~= want.headers.take(2));
    }
    let header = h2.add_param("oauth_verifier", verifier);
    proof {
        lemma_put_fresh(want.headers.take(2), "oauth_verifier"@, verifier@);
        assert(header@ =~= want.headers);
    }
    let request = RequestBuilder::new(
        ApiCallMethod::POST,
        "https://api.twitter.com/oauth/access_token",
    ).with_header(Some(header)).build_request(None);
    proof {
        reveal_strlit("https://api.twitter.com/oauth/access_token");
        reveal_strlit("https://api.twitter.com/oauth/access_token?");
        assert(request@.uri =~= want.uri);
        assert(request@.headers =~= want.headers);
        assert(request@.body =~= want.body);
    }
    request
}

/// Takes the handler one step on: from the state and what came of the last
/// action to the next state and the next action.
pub fn step(config: &SettingsVars, state: Flow, event: Event) -> (r: (Flow, Action))
    ensures
        (r.0@, r.1@) == next(config@, state@, event@),
        r.1 is Reply ==> is_plain_reply(r.1),
        (event is Failed && !(state is AwaitingCallback) && r.1 is Fail) ==> r.1 == Action::Fail(
            event->Failed_0,
        ),
{
    match state {
        Flow::AwaitingCallback => match event {
            Event::Callback(params) => {
                let mut keys: Vec<&str> = Vec::new();
                keys.push("oauth_token");
                keys.push("oauth_verifier");
                if params.verify_present(&keys) {
                    assert(has_key(params@, keys@[0]@) && has_key(params@, keys@[1]@));
                    match (params.get("oauth_token"), params.get("oauth_verifier")) {
                        (Some(token), Some(verifier)) => {
                            let token = token.clone();
                            let verifier = verifier.clone();
                            return (
                                Flow::TokenLookup { token, verifier, params },
                                Action::StoreGet(String::from_str("oauth_token")),
                            );
                        },
                        _ => {},
                    }
                }
                take_second_look(config, params)
            },
            _ => (Flow::Rejected, Action::Fail(TError::UnexpectedEvent)),
        },
        Flow::TokenLookup { token, verifier, params } => match event {
            Event::StoreValue(stored) => {
                if token == stored {
                    let mut writes: Vec<(String, String)> = Vec::new();
                    writes.push((String::from_str("oauth_verifier"), verifier.clone()));
                    assert(string_pairs(writes@) =~= seq![("oauth_verifier"@, verifier@)]);
                    (Flow::VerifierWrite { token, verifier }, Action::StoreSet(writes))
                } else {
                    take_second_look(config, params)
                }
            },
            Event::Failed(err) => (Flow::Rejected, Action::Fail(err)),
            _ => (Flow::Rejected, Action::Fail(TError::UnexpectedEvent)),
        },
        Flow::VerifierWrite { token, verifier } => match event {
            Event::StoreWritten => (
                Flow::AccessTokenPending,
                Action::Send(access_token_request(config, token, verifier)),
            ),
            Event::Failed(err) => (Flow::Rejected, Action::Fail(err)),
            _ => (Flow::Rejected, Action::Fail(TError::UnexpectedEvent)),
        },
        Flow::AccessTokenPending => match event {
            Event::Response(_) => (Flow::AccessRequested, respond("Access Granted", 200)),
            Event::Failed(_) => (Flow::AccessRequested, respond("Access Granted", 200)),
            _ => (Flow::Rejected, Action::Fail(TError::UnexpectedEvent)),
        },
        Flow::StateValidated { code } => match event {
            Event::StoreValue(verifier) => (
                Flow::CodeExchangePending,
                Action::Send(token_request(config, code, verifier)),
            ),
            Event::Failed(err) => (Flow::Rejected, Action::Fail(err)),
            _ => (Flow::Rejected, Action::Fail(TError::UnexpectedEvent)),
        },
        Flow::CodeExchangePending => match event {
            Event::Response(reply) => match read_grant(reply) {
                Ok(grant) => (Flow::Persisting, Action::StoreSet(grant_entries(grant))),
                Err(err) => (Flow::Rejected, Action::Fail(err)),
            },
            Event::Failed(err) => (Flow::Rejected, Action::Fail(err)),
            _ => (Flow::Rejected, Action::Fail(TError::UnexpectedEvent)),
        },
        Flow::Persisting => match event {
            Event::StoreWritten => (Flow::GrantPersisted, respond("Access Granted", 200)),
            Event::Failed(err) => (Flow::Rejected, Action::Fail(err)),
            _ => (Flow::Rejected, Action::Fail(TError::UnexpectedEvent)),
        },
        Flow::GrantPersisted => (Flow::GrantPersisted, Action::Halt),
        Flow::AccessRequested => (Flow::AccessRequested, Action::Halt),
        Flow::Rejected => (Flow::Rejected, Action::Halt),
    }
}

} // verus!
