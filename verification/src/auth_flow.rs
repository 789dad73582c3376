//! The authorization state flow and the backend response shapes.
//!
//! The client polls the backend for its authorization state and walks a
//! small state machine: loading, phone entry, code entry, the main screen.
//! The decisions — which screen comes next, when the chat list is (re)loaded,
//! when stale data is cleared — are pure functions of the polled status; the
//! HTTP itself is the embedding program's.

use vstd::prelude::*;
use crate::player::sat_sub;

verus! {

/// The screens the client can be on.
#[derive(Clone, Copy, PartialEq, Eq, Structural, Debug)]
pub enum AppState {
    Loading,
    PhoneInput,
    CodeInput,
    Main,
    MessageInput,
    Error,
    ImagePreview,
    VideoPreview,
}

/// The backend's authorization status.
#[derive(Debug, Clone)]
pub struct AuthStatus {
    pub authorized: bool,
    pub phone_number: Option<String>,
    pub needs_code: bool,
}

/// The backend's answer to submitting a phone number.
#[derive(Debug)]
pub struct PhoneResponse {
    pub success: bool,
    pub message: String,
    pub needs_code: bool,
}

/// The backend's answer to submitting a confirmation code.
#[derive(Debug)]
pub struct CodeResponse {
    pub success: bool,
    pub message: String,
    pub authorized: bool,
}

/// The backend's answer to sending a chat message.
#[derive(Debug)]
pub struct SendMessageResponse {
    pub success: bool,
    pub message: String,
    pub message_id: Option<i32>,
}

/// The next screen after a status poll. Only the authorization screens move;
/// input, error and preview screens are left alone.
pub open spec fn spec_next_auth_state(state: AppState, authorized: bool, needs_code: bool) -> AppState {
    match state {
        AppState::Loading => if authorized {
            AppState::Main
        } else if needs_code {
            AppState::CodeInput
        } else {
            AppState::PhoneInput
        },
        AppState::PhoneInput => if authorized {
            AppState::Main
        } else if needs_code {
            AppState::CodeInput
        } else {
            AppState::PhoneInput
        },
        AppState::CodeInput => if authorized {
            AppState::Main
        } else if !needs_code {
            AppState::PhoneInput
        } else {
            AppState::CodeInput
        },
        AppState::Main => if !authorized {
            AppState::PhoneInput
        } else {
            AppState::Main
        },
        _ => state,
    }
}

/// Whether the chat list is (re)loaded after this poll: on entering the main
/// screen from an authorization screen, and on any fresh authorization.
pub open spec fn spec_should_load_chats(
    state: AppState,
    previously_authorized: bool,
    authorized: bool,
) -> bool {
    (authorized && (state == AppState::Loading || state == AppState::PhoneInput || state
        == AppState::CodeInput)) || (!previously_authorized && authorized)
}

/// Whether cached chats and messages are dropped: exactly when authorization
/// is lost on the main screen.
pub open spec fn spec_should_clear_data(state: AppState, authorized: bool) -> bool {
    state == AppState::Main && !authorized
}

/// What a status poll leads to.
pub struct AuthUpdate {
    pub next_state: AppState,
    pub load_chats: bool,
    pub clear_data: bool,
}

/// Digest one authorization status poll into the next screen, whether to
/// (re)load the chat list, and whether to drop cached data.
pub fn auth_status_update(state: AppState, previously_authorized: bool, status: &AuthStatus) -> (r:
    AuthUpdate)
    ensures
        r.next_state == spec_next_auth_state(state, status.authorized, status.needs_code),
        r.load_chats == spec_should_load_chats(state, previously_authorized, status.authorized),
        r.clear_data == spec_should_clear_data(state, status.authorized),
{
    let next_state = match state {
        AppState::Loading => if status.authorized {
            AppState::Main
        } else if status.needs_code {
            AppState::CodeInput
        } else {
            AppState::PhoneInput
        },
        AppState::PhoneInput => if status.authorized {
            AppState::Main
        } else if status.needs_code {
            AppState::CodeInput
        } else {
            AppState::PhoneInput
        },
        AppState::CodeInput => if status.authorized {
            AppState::Main
        } else if !status.needs_code {
            AppState::PhoneInput
        } else {
            AppState::CodeInput
        },
        AppState::Main => if !status.authorized {
            AppState::PhoneInput
        } else {
            AppState::Main
        },
        other => other,
    };
    let load_chats = (status.authorized && (matches!(state, AppState::Loading) || matches!(
        state,
        AppState::PhoneInput,
    ) || matches!(state, AppState::CodeInput))) || (!previously_authorized && status.authorized);
    let clear_data = matches!(state, AppState::Main) && !status.authorized;
    AuthUpdate { next_state, load_chats, clear_data }
}

/// Whether it is time for the next authorization poll: more than two seconds
/// since the last one.
pub fn should_check_auth(now_ms: u64, last_check_ms: u64) -> (r: bool)
    ensures
        r == (sat_sub(now_ms, last_check_ms) > 2000),
{
    let elapsed = if now_ms >= last_check_ms {
        now_ms - last_check_ms
    } else {
        0
    };
    elapsed > 2000
}

/// What submitting a phone number leads to.
pub enum PhoneOutcome {
    /// Accepted; a confirmation code is expected next.
    CodeRequested,
    /// Accepted and already authorized: straight to the main screen.
    Authorized,
    /// Refused, with the backend's message.
    Rejected { message: String },
}

/// Digest the backend's answer to a phone number.
pub fn phone_response_transition(resp: &PhoneResponse) -> (r: PhoneOutcome)
    ensures
        resp.success && resp.needs_code ==> r is CodeRequested,
        resp.success && !resp.needs_code ==> r is Authorized,
        !resp.success ==> (r matches PhoneOutcome::Rejected { message } && message@
            == resp.message@),
{
    if resp.success {
        if resp.needs_code {
            PhoneOutcome::CodeRequested
        } else {
            PhoneOutcome::Authorized
        }
    } else {
        PhoneOutcome::Rejected { message: resp.message.clone() }
    }
}

/// What submitting a confirmation code leads to.
pub enum CodeOutcome {
    /// Authorized: on to the main screen.
    Authorized,
    /// The backend took the request but did not authorize: the code was
    /// wrong, ask again.
    WrongCode,
    /// Refused, with the backend's message.
    Rejected { message: String },
}

/// Digest the backend's answer to a confirmation code.
pub fn code_response_transition(resp: &CodeResponse) -> (r: CodeOutcome)
    ensures
        resp.success && resp.authorized ==> r is Authorized,
        resp.success && !resp.authorized ==> r is WrongCode,
        !resp.success ==> (r matches CodeOutcome::Rejected { message } && message@
            == resp.message@),
{
    if resp.success {
        if resp.authorized {
            CodeOutcome::Authorized
        } else {
            CodeOutcome::WrongCode
        }
    } else {
        CodeOutcome::Rejected { message: resp.message.clone() }
    }
}

/// What sending a chat message leads to.
pub enum SendOutcome {
    /// Sent; the message list is to be reloaded.
    Sent,
    /// Refused, with the backend's message.
    Rejected { message: String },
}

/// Digest the backend's answer to a sent message.
pub fn send_response_transition(resp: &SendMessageResponse) -> (r: SendOutcome)
    ensures
        resp.success ==> r is Sent,
        !resp.success ==> (r matches SendOutcome::Rejected { message } && message@
            == resp.message@),
{
    if resp.success {
        SendOutcome::Sent
    } else {
        SendOutcome::Rejected { message: resp.message.clone() }
    }
}

} // verus!
