//! The callback flow: after the state token is accepted, exchange the
//! authorization code for an access token, look up the caller's viewer id,
//! and store the token against that id — answering the caller with the
//! first error if any step fails.
//!
//! The flow is a step function from state and event to next state and
//! action. The surrounding process carries each action out (one HTTP post,
//! one database update, one answer to the caller) and hands the outcome
//! back as the next event; every decision in between is verified here.

use vstd::prelude::*;

use crate::consts::SAVE_TOKEN_SQL;
use crate::functions::spec_valid_state_token;
use crate::functions::spec_viewer_request;
use crate::functions::viewer_request;
use crate::functions::ViewerRequest;
use crate::structs::MyState;
use crate::structs::SessionJar;
use crate::structs::StateToken;
use crate::structs::StateTokenError;
use crate::structs::TokenResponse;

verus! {

/// One token exchange, ready to be posted to the provider's token endpoint
/// as a JSON object of these five members.
pub struct TokenRequest {
    pub grant_type: String,
    pub client_id: String,
    pub client_secret: String,
    pub redirect_uri: String,
    pub code: String,
}

/// What a well-formed token exchange for a given code holds: the
/// authorization-code grant, the configured client credentials and callback
/// address, and the code itself.
pub open spec fn spec_token_request(state: MyState, code: Seq<char>, t: TokenRequest) -> bool {
    &&& t.grant_type@ == "authorization_code"@
    &&& t.client_id@ == state.client_id@
    &&& t.client_secret@ == state.client_secret@
    &&& t.redirect_uri@ == state.redirect_uri@
    &&& t.code@ == code
}

/// One database update, ready to be executed: the statement, the token to
/// bind first, and the viewer id to bind second.
pub struct SaveCommand {
    pub statement: String,
    pub access_token: String,
    pub anilist_id: i64,
}

/// Which step of the callback failed, with the error's text.
pub enum CallbackError {
    /// The token exchange failed: the transport or decode error's text.
    Exchange(String),
    /// The viewer lookup failed.
    ViewerLookup(String),
    /// The database update failed.
    Save(String),
}

impl CallbackError {
    /// The text of each callback error as the caller sees it.
    pub open spec fn spec_message(&self) -> Seq<char> {
        match self {
            CallbackError::Exchange(e) => e@,
            CallbackError::ViewerLookup(e) => "Failed to fetch viewer ID: "@ + e@,
            CallbackError::Save(e) => "Failed to save access token: "@ + e@,
        }
    }

    /// The message answered to the caller when the callback failed.
    pub fn message(&self) -> (r: String)
        ensures
            r@ == self.spec_message(),
    {
        match self {
            CallbackError::Exchange(e) => e.clone(),
            CallbackError::ViewerLookup(e) => "Failed to fetch viewer ID: ".to_owned().concat(
                e.as_str(),
            ),
            CallbackError::Save(e) => "Failed to save access token: ".to_owned().concat(
                e.as_str(),
            ),
        }
    }
}

/// Where the callback flow stands.
pub enum FlowState {
    /// The authorization code was accepted and sent for exchange.
    ExchangingCode,
    /// The access token arrived and the viewer lookup was issued.
    FetchingViewer { access_token: String },
    /// The database update was issued.
    SavingToken,
    /// The update went through and the caller was told so.
    Done,
    /// A step failed and the caller was answered with the error.
    Failed,
}

/// What the outside work handed back for the step the flow is waiting on.
pub enum FlowEvent {
    /// The token exchange's outcome: the decoded response, or the transport
    /// or decode error's text.
    TokenExchanged(Result<TokenResponse, String>),
    /// The viewer lookup's outcome: the id read out of the reply, or an
    /// error text.
    ViewerFetched(Result<i64, String>),
    /// The database update's outcome: how many rows changed, or the error's
    /// text.
    TokenSaved(Result<u64, String>),
}

/// What the flow asks the surrounding process to do next.
pub enum FlowAction {
    /// Post this token exchange to the provider's token endpoint.
    ExchangeCode(TokenRequest),
    /// Post this viewer lookup to the provider's GraphQL endpoint.
    FetchViewer(ViewerRequest),
    /// Execute this database update.
    SaveToken(SaveCommand),
    /// Answer the caller and stop.
    Respond(Result<String, CallbackError>),
}

/// Which event a state is waiting on. `Done` and `Failed` wait on nothing:
/// the flow is over.
pub open spec fn expects(s: FlowState, e: FlowEvent) -> bool {
    match (s, e) {
        (FlowState::ExchangingCode, FlowEvent::TokenExchanged(_)) => true,
        (FlowState::FetchingViewer { .. }, FlowEvent::ViewerFetched(_)) => true,
        (FlowState::SavingToken, FlowEvent::TokenSaved(_)) => true,
        _ => false,
    }
}

/// Exactly what one step of the flow does: which state follows each event,
/// and which action is issued. A failure at any step moves to `Failed` and
/// answers the caller with that step's error; nothing else is issued for
/// it. The update is issued only for a fetched viewer id, keyed by that id
/// and carrying the exchanged access token.
pub open spec fn step_rel(s: FlowState, e: FlowEvent, s2: FlowState, a: FlowAction) -> bool {
    match (s, e) {
        (FlowState::ExchangingCode, FlowEvent::TokenExchanged(res)) => match res {
            Ok(tr) => {
                &&& s2 matches FlowState::FetchingViewer { access_token } && access_token@
                    == tr.access_token@
                &&& a matches FlowAction::FetchViewer(r) && spec_viewer_request(
                    tr.access_token@,
                    r,
                )
            },
            Err(err) => {
                &&& s2 is Failed
                &&& a matches FlowAction::Respond(resp) && resp matches Err(ce) && ce matches
                    CallbackError::Exchange(t) && t@ == err@
            },
        },
        (FlowState::FetchingViewer { access_token }, FlowEvent::ViewerFetched(res)) => match res {
            Ok(id) => {
                &&& s2 is SavingToken
                &&& a matches FlowAction::SaveToken(c) && c.statement@ == SAVE_TOKEN_SQL@
                    && c.access_token@ == access_token@ && c.anilist_id == id
            },
            Err(err) => {
                &&& s2 is Failed
                &&& a matches FlowAction::Respond(resp) && resp matches Err(ce) && ce matches
                    CallbackError::ViewerLookup(t) && t@ == err@
            },
        },
        (FlowState::SavingToken, FlowEvent::TokenSaved(res)) => match res {
            Ok(_) => {
                &&& s2 is Done
                &&& a matches FlowAction::Respond(resp) && resp matches Ok(m) && m@ == "Success"@
            },
            Err(err) => {
                &&& s2 is Failed
                &&& a matches FlowAction::Respond(resp) && resp matches Err(ce) && ce matches
                    CallbackError::Save(t) && t@ == err@
            },
        },
        _ => false,
    }
}

/// One step of the callback flow: takes the outcome the state was waiting
/// on and decides the next state and action.
pub fn step(state: FlowState, event: FlowEvent) -> (r: (FlowState, FlowAction))
    requires
        expects(state, event),
    ensures
        step_rel(state, event, r.0, r.1),
{
    match (state, event) {
        (FlowState::ExchangingCode, FlowEvent::TokenExchanged(Ok(tr))) => {
            let request = viewer_request(tr.access_token.as_str());
            (
                FlowState::FetchingViewer { access_token: tr.access_token },
                FlowAction::FetchViewer(request),
            )
        },
        (FlowState::ExchangingCode, FlowEvent::TokenExchanged(Err(e))) => (
            FlowState::Failed,
            FlowAction::Respond(Err(CallbackError::Exchange(e))),
        ),
        (FlowState::FetchingViewer { access_token }, FlowEvent::ViewerFetched(Ok(id))) => (
            FlowState::SavingToken,
            FlowAction::SaveToken(
                SaveCommand { statement: SAVE_TOKEN_SQL.to_owned(), access_token, anilist_id: id },
            ),
        ),
        (FlowState::FetchingViewer { .. }, FlowEvent::ViewerFetched(Err(e))) => (
            FlowState::Failed,
            FlowAction::Respond(Err(CallbackError::ViewerLookup(e))),
        ),
        (FlowState::SavingToken, FlowEvent::TokenSaved(Ok(_))) => (
            FlowState::Done,
            FlowAction::Respond(Ok("Success".to_owned())),
        ),
        (FlowState::SavingToken, FlowEvent::TokenSaved(Err(e))) => (
            FlowState::Failed,
            FlowAction::Respond(Err(CallbackError::Save(e))),
        ),
        _ => unreached(),
    }
}

/// Begins the flow for an accepted authorization code: the first action is
/// the token exchange, carrying the configured credentials and the code.
pub fn start_exchange(state: &MyState, code: &str) -> (r: (FlowState, FlowAction))
    ensures
        r.0 is ExchangingCode,
        r.1 matches FlowAction::ExchangeCode(t) && spec_token_request(*state, code@, t),
{
    (
        FlowState::ExchangingCode,
        FlowAction::ExchangeCode(
            TokenRequest {
                grant_type: "authorization_code".to_owned(),
                client_id: state.client_id.clone(),
                client_secret: state.client_secret.clone(),
                redirect_uri: state.redirect_uri.clone(),
                code: code.to_owned(),
            },
        ),
    )
}

/// The callback endpoint's decision: a request whose state token is missing
/// or wrong is rejected, and no exchange is begun for it; an accepted one
/// begins the flow, whose first action is the token exchange.
pub fn authorized<'r>(
    state: &MyState,
    code: &str,
    query_state: Option<Result<&'r str, ()>>,
    jar: &SessionJar,
) -> (r: Result<(FlowState, FlowAction), StateTokenError>)
    ensures
        match query_state {
            None => r matches Err(e) && e == StateTokenError::Missing,
            Some(Err(_)) => r matches Err(e) && e == StateTokenError::Invalid,
            Some(Ok(s)) => if spec_valid_state_token(*jar, s@) {
                r matches Ok(p) && p.0 is ExchangingCode && (p.1 matches FlowAction::ExchangeCode(
                    t,
                ) && spec_token_request(*state, code@, t))
            } else {
                r matches Err(e) && e == StateTokenError::Invalid
            },
        },
{
    match StateToken::from_request(query_state, jar) {
        Ok(_token) => Ok(start_exchange(state, code)),
        Err(e) => Err(e),
    }
}

/// A run of the flow from `init`: each entry holds the event taken, the
/// state it led to, and the action issued, every step as `step_rel` allows
/// and each event one its state was waiting on.
pub open spec fn valid_trace(
    init: FlowState,
    steps: Seq<(FlowEvent, FlowState, FlowAction)>,
) -> bool
    decreases steps.len(),
{
    steps.len() == 0 || {
        &&& expects(init, steps[0].0)
        &&& step_rel(init, steps[0].0, steps[0].1, steps[0].2)
        &&& valid_trace(steps[0].1, steps.drop_first())
    }
}

/// How many database updates a run issues.
pub open spec fn count_saves(steps: Seq<(FlowEvent, FlowState, FlowAction)>) -> int
    decreases steps.len(),
{
    if steps.len() == 0 {
        0
    } else {
        (if steps[0].2 is SaveToken {
            1int
        } else {
            0int
        }) + count_saves(steps.drop_first())
    }
}

/// How many database updates a flow standing at `s` may still issue: one
/// before the update was issued, none from then on.
pub open spec fn saves_allowed(s: FlowState) -> int {
    match s {
        FlowState::ExchangingCode => 1,
        FlowState::FetchingViewer { .. } => 1,
        FlowState::SavingToken => 0,
        FlowState::Done => 0,
        FlowState::Failed => 0,
    }
}

/// The state a run stands in just before its step `i`.
pub open spec fn state_before(
    init: FlowState,
    steps: Seq<(FlowEvent, FlowState, FlowAction)>,
    i: int,
) -> FlowState {
    if i == 0 {
        init
    } else {
        steps[i - 1].1
    }
}

/// Every step of a run obeys `step_rel` from the state the step before led
/// to, and takes an event that state was waiting on.
pub proof fn lemma_trace_step(
    init: FlowState,
    steps: Seq<(FlowEvent, FlowState, FlowAction)>,
    i: int,
)
    requires
        valid_trace(init, steps),
        0 <= i < steps.len(),
    ensures
        expects(state_before(init, steps, i), steps[i].0),
        step_rel(state_before(init, steps, i), steps[i].0, steps[i].1, steps[i].2),
    decreases i,
{
    if i > 0 {
        lemma_trace_step(steps[0].1, steps.drop_first(), i - 1);
        assert(steps.drop_first()[i - 1] == steps[i]);
        if i > 1 {
            assert(steps.drop_first()[i - 2] == steps[i - 1]);
        }
    }
}

/// Law: a run of the callback flow never issues more than one database
/// update — at most one when it starts before the update was issued, and
/// none once it was.
pub proof fn lemma_at_most_one_save(
    init: FlowState,
    steps: Seq<(FlowEvent, FlowState, FlowAction)>,
)
    requires
        valid_trace(init, steps),
    ensures
        count_saves(steps) <= saves_allowed(init),
    decreases steps.len(),
{
    if steps.len() > 0 {
        lemma_at_most_one_save(steps[0].1, steps.drop_first());
    }
}

/// Law: a run that ends with the caller told of success issued exactly one
/// database update when it started at the beginning of the callback, and
/// exactly none when it started after the update was issued.
pub proof fn lemma_done_saved_once(
    init: FlowState,
    steps: Seq<(FlowEvent, FlowState, FlowAction)>,
)
    requires
        valid_trace(init, steps),
        steps.len() > 0,
        steps.last().1 is Done,
    ensures
        count_saves(steps) == saves_allowed(init),
    decreases steps.len(),
{
    if steps.len() == 1 {
        assert(steps.last() == steps[0]);
        assert(step_rel(init, steps[0].0, steps[0].1, steps[0].2));
        assert(init is SavingToken);
        assert(!(steps[0].2 is SaveToken));
        assert(count_saves(steps.drop_first()) == 0);
    } else {
        lemma_trace_step(init, steps, 1);
        assert(steps.drop_first().last() == steps.last());
        lemma_done_saved_once(steps[0].1, steps.drop_first());
    }
}

/// A run never issues a negative number of database updates.
pub proof fn lemma_count_saves_nonneg(steps: Seq<(FlowEvent, FlowState, FlowAction)>)
    ensures
        count_saves(steps) >= 0,
    decreases steps.len(),
{
    if steps.len() > 0 {
        lemma_count_saves_nonneg(steps.drop_first());
    }
}

/// A run with a database update among its steps issues at least one.
pub proof fn lemma_save_at_index(steps: Seq<(FlowEvent, FlowState, FlowAction)>, i: int)
    requires
        0 <= i < steps.len(),
        steps[i].2 is SaveToken,
    ensures
        count_saves(steps) >= 1,
    decreases steps.len(),
{
    if i == 0 {
        lemma_count_saves_nonneg(steps.drop_first());
    } else {
        assert(steps.drop_first()[i - 1] == steps[i]);
        lemma_save_at_index(steps.drop_first(), i - 1);
    }
}

/// Law: in a run of the callback from its start, a successful code
/// exchange followed by a successful viewer lookup issues exactly one
/// database update — the one the lookup's step itself issues, keyed by the
/// fetched id as `lemma_save_keyed` states.
pub proof fn lemma_lookup_success_saves_once(
    init: FlowState,
    steps: Seq<(FlowEvent, FlowState, FlowAction)>,
    i: int,
)
    requires
        valid_trace(init, steps),
        init is ExchangingCode,
        0 <= i < steps.len(),
        steps[i].0 matches FlowEvent::ViewerFetched(res) && res is Ok,
    ensures
        count_saves(steps) == 1,
        steps[i].2 is SaveToken,
{
    lemma_trace_step(init, steps, i);
    lemma_save_at_index(steps, i);
    lemma_at_most_one_save(init, steps);
}

/// Law: a step that ends the flow answers the caller — with an error when
/// it failed, with success when the update went through — and is the run's
/// last step, so nothing further, in particular no database update, follows
/// a failure or the final answer.
pub proof fn lemma_answer_is_last(
    init: FlowState,
    steps: Seq<(FlowEvent, FlowState, FlowAction)>,
    i: int,
)
    requires
        valid_trace(init, steps),
        0 <= i < steps.len(),
        steps[i].1 is Failed || steps[i].1 is Done,
    ensures
        i == steps.len() - 1,
        steps[i].1 is Failed ==> (steps[i].2 matches FlowAction::Respond(resp) && resp is Err),
        steps[i].1 is Done ==> (steps[i].2 matches FlowAction::Respond(resp) && resp is Ok),
{
    lemma_trace_step(init, steps, i);
    if i < steps.len() - 1 {
        lemma_trace_step(init, steps, i + 1);
    }
}

/// Law: every database update a run issues is keyed by the viewer id that
/// the lookup fetched at that very step, and carries the access token the
/// flow took from the exchange the step before.
pub proof fn lemma_save_keyed(
    init: FlowState,
    steps: Seq<(FlowEvent, FlowState, FlowAction)>,
    i: int,
)
    requires
        valid_trace(init, steps),
        0 <= i < steps.len(),
        steps[i].2 is SaveToken,
    ensures
        steps[i].2 matches FlowAction::SaveToken(c) ==> {
            &&& steps[i].0 matches FlowEvent::ViewerFetched(res) && res matches Ok(id)
                && c.anilist_id == id
            &&& state_before(init, steps, i) matches FlowState::FetchingViewer { access_token }
                && c.access_token@ == access_token@
            &&& i > 0 ==> (steps[i - 1].0 matches FlowEvent::TokenExchanged(exch) && exch matches
                Ok(tr) && c.access_token@ == tr.access_token@)
        },
{
    lemma_trace_step(init, steps, i);
    if i > 0 {
        lemma_trace_step(init, steps, i - 1);
    }
}

} // verus!
