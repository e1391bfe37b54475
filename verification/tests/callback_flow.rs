use anilist_oauth::authorized::{
    authorized, step, CallbackError, FlowAction, FlowEvent, FlowState,
};
use anilist_oauth::consts::{ANILIST_USER_BASE, SAVE_TOKEN_SQL};
use anilist_oauth::functions::{extract_viewer_id, viewer_request, ViewerIdError};
use anilist_oauth::structs::{MyState, SessionJar, StateTokenError, TokenResponse};

fn state() -> MyState {
    MyState {
        client_id: "abc123".to_owned(),
        client_secret: "client-secret-value".to_owned(),
        redirect_uri: "http://127.0.0.1:8000/authorized".to_owned(),
    }
}

fn jar() -> SessionJar {
    SessionJar { private_state: Some("tok".to_owned()), pending_state: None }
}

fn token_response() -> TokenResponse {
    TokenResponse {
        token_type: "Bearer".to_owned(),
        expires_in: 3600,
        access_token: "the-access-token".to_owned(),
        refresh_token: "the-refresh-token".to_owned(),
    }
}

#[test]
fn callback_without_state_is_rejected_before_any_exchange() {
    let r = authorized(&state(), "code1", None, &jar());
    assert!(matches!(r, Err(StateTokenError::Missing)));
}

#[test]
fn callback_with_wrong_state_is_rejected_before_any_exchange() {
    let r = authorized(&state(), "code1", Some(Ok("wrong")), &jar());
    assert!(matches!(r, Err(StateTokenError::Invalid)));
    let r = authorized(&state(), "code1", Some(Err(())), &jar());
    assert!(matches!(r, Err(StateTokenError::Invalid)));
}

#[test]
fn accepted_callback_begins_with_the_token_exchange() {
    let (s, a) = authorized(&state(), "code1", Some(Ok("tok")), &jar())
        .expect("a matching state token is accepted");
    assert!(matches!(s, FlowState::ExchangingCode));
    match a {
        FlowAction::ExchangeCode(t) => {
            assert_eq!(t.grant_type, "authorization_code");
            assert_eq!(t.client_id, "abc123");
            assert_eq!(t.client_secret, "client-secret-value");
            assert_eq!(t.redirect_uri, "http://127.0.0.1:8000/authorized");
            assert_eq!(t.code, "code1");
        },
        _ => panic!("the first action must be the token exchange"),
    }
}

#[test]
fn successful_run_saves_once_keyed_by_the_viewer_id() {
    let (s1, a1) = step(
        FlowState::ExchangingCode,
        FlowEvent::TokenExchanged(Ok(token_response())),
    );
    match &a1 {
        FlowAction::FetchViewer(r) => {
            assert_eq!(r.url, ANILIST_USER_BASE);
            assert_eq!(r.authorization, "Bearer the-access-token");
            assert_eq!(r.content_type, "application/json");
            assert_eq!(r.accept, "application/json");
        },
        _ => panic!("the exchange's success must issue the viewer lookup"),
    }

    let (s2, a2) = step(s1, FlowEvent::ViewerFetched(Ok(4242)));
    match &a2 {
        FlowAction::SaveToken(c) => {
            assert_eq!(c.statement, SAVE_TOKEN_SQL);
            assert_eq!(c.statement, "UPDATE users SET access_token=$1 WHERE anilist_id=$2");
            assert_eq!(c.access_token, "the-access-token");
            assert_eq!(c.anilist_id, 4242);
        },
        _ => panic!("a fetched viewer id must issue the database update"),
    }

    let (s3, a3) = step(s2, FlowEvent::TokenSaved(Ok(1)));
    assert!(matches!(s3, FlowState::Done));
    match a3 {
        FlowAction::Respond(Ok(m)) => assert_eq!(m, "Success"),
        _ => panic!("a saved token must answer the caller with success"),
    }
}

#[test]
fn failed_exchange_answers_with_the_error() {
    let (s, a) = step(
        FlowState::ExchangingCode,
        FlowEvent::TokenExchanged(Err("connection refused".to_owned())),
    );
    assert!(matches!(s, FlowState::Failed));
    match a {
        FlowAction::Respond(Err(e)) => {
            assert!(matches!(e, CallbackError::Exchange(_)));
            assert_eq!(e.message(), "connection refused");
        },
        _ => panic!("a failed exchange must answer the caller with the error"),
    }
}

#[test]
fn failed_viewer_lookup_answers_with_the_error() {
    let (s, a) = step(
        FlowState::FetchingViewer { access_token: "at".to_owned() },
        FlowEvent::ViewerFetched(Err("Failed to parse viewer id".to_owned())),
    );
    assert!(matches!(s, FlowState::Failed));
    match a {
        FlowAction::Respond(Err(e)) => {
            assert_eq!(e.message(), "Failed to fetch viewer ID: Failed to parse viewer id");
        },
        _ => panic!("a failed lookup must answer the caller with the error"),
    }
}

#[test]
fn failed_save_answers_with_the_error() {
    let (s, a) = step(
        FlowState::SavingToken,
        FlowEvent::TokenSaved(Err("no such table".to_owned())),
    );
    assert!(matches!(s, FlowState::Failed));
    match a {
        FlowAction::Respond(Err(e)) => {
            assert_eq!(e.message(), "Failed to save access token: no such table");
        },
        _ => panic!("a failed update must answer the caller with the error"),
    }
}

#[test]
fn viewer_request_body_is_the_serialized_query() {
    let r = viewer_request("at");
    assert_eq!(
        r.body,
        "{\"query\":\"\\n    query {\\n        Viewer {\\n            id\\n        }\\n    }\\n    \"}"
    );
    assert_eq!(r.authorization, "Bearer at");
}

#[test]
fn viewer_id_is_read_from_the_reply() {
    assert_eq!(extract_viewer_id("{\"data\":{\"Viewer\":{\"id\":4242}}}"), Ok(4242));
    assert_eq!(
        extract_viewer_id("{\"data\":{\"Viewer\":{\"id\":-7,\"name\":\"x\"}}}"),
        Ok(-7)
    );
}

#[test]
fn unusable_replies_are_reported() {
    assert_eq!(extract_viewer_id("not json"), Err(ViewerIdError::InvalidJson));
    assert_eq!(extract_viewer_id(""), Err(ViewerIdError::InvalidJson));
    assert_eq!(extract_viewer_id("{}"), Err(ViewerIdError::MissingId));
    assert_eq!(
        extract_viewer_id("{\"data\":{\"Viewer\":{}}}"),
        Err(ViewerIdError::MissingId)
    );
    assert_eq!(
        extract_viewer_id("{\"data\":{\"Viewer\":{\"id\":\"4242\"}}}"),
        Err(ViewerIdError::MissingId)
    );
    assert_eq!(
        extract_viewer_id("{\"data\":{\"Viewer\":{\"id\":12.5}}}"),
        Err(ViewerIdError::MissingId)
    );
    assert_eq!(extract_viewer_id("{\"data\":null}"), Err(ViewerIdError::MissingId));
    assert_eq!(
        extract_viewer_id("{\"data\":{\"Viewer\":{\"id\":18446744073709551615}}}"),
        Err(ViewerIdError::MissingId)
    );
    assert_eq!(ViewerIdError::MissingId.message(), "Failed to parse viewer id");
    assert_eq!(ViewerIdError::InvalidJson.message(), "Failed to parse viewer response");
}
