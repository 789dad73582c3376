use vi_tg::auth_flow::{
    auth_status_update, code_response_transition, phone_response_transition,
    send_response_transition, should_check_auth, AppState, AuthStatus, CodeOutcome, CodeResponse,
    PhoneOutcome, PhoneResponse, SendMessageResponse, SendOutcome,
};
use vi_tg::config::Config;
use vi_tg::selection::{
    clamp_selected_index, next_chat_index, next_message_selection, preserve_selection,
};

fn status(authorized: bool, needs_code: bool) -> AuthStatus {
    AuthStatus { authorized, phone_number: None, needs_code }
}

#[test]
fn loading_moves_to_the_right_screen() {
    let up = auth_status_update(AppState::Loading, false, &status(true, false));
    assert_eq!(up.next_state, AppState::Main);
    assert!(up.load_chats);
    assert!(!up.clear_data);
    let up = auth_status_update(AppState::Loading, false, &status(false, true));
    assert_eq!(up.next_state, AppState::CodeInput);
    assert!(!up.load_chats);
    let up = auth_status_update(AppState::Loading, false, &status(false, false));
    assert_eq!(up.next_state, AppState::PhoneInput);
}

#[test]
fn phone_and_code_screens_follow_the_status() {
    let up = auth_status_update(AppState::PhoneInput, false, &status(true, false));
    assert_eq!(up.next_state, AppState::Main);
    assert!(up.load_chats);
    let up = auth_status_update(AppState::PhoneInput, false, &status(false, true));
    assert_eq!(up.next_state, AppState::CodeInput);
    let up = auth_status_update(AppState::CodeInput, false, &status(false, false));
    assert_eq!(up.next_state, AppState::PhoneInput);
    let up = auth_status_update(AppState::CodeInput, false, &status(false, true));
    assert_eq!(up.next_state, AppState::CodeInput);
}

#[test]
fn losing_authorization_clears_the_main_screen() {
    let up = auth_status_update(AppState::Main, true, &status(false, false));
    assert_eq!(up.next_state, AppState::PhoneInput);
    assert!(up.clear_data);
    assert!(!up.load_chats);
}

#[test]
fn fresh_authorization_reloads_chats_even_on_main() {
    let up = auth_status_update(AppState::Main, false, &status(true, false));
    assert_eq!(up.next_state, AppState::Main);
    assert!(up.load_chats);
}

#[test]
fn preview_and_error_screens_are_left_alone() {
    for state in [AppState::MessageInput, AppState::Error, AppState::ImagePreview, AppState::VideoPreview] {
        let up = auth_status_update(state, true, &status(true, false));
        assert_eq!(up.next_state, state);
    }
}

#[test]
fn auth_poll_interval_is_two_seconds() {
    assert!(!should_check_auth(10_000, 8_000));
    assert!(should_check_auth(10_001, 8_000));
    assert!(!should_check_auth(8_000, 10_000));
}

#[test]
fn phone_responses_map_to_their_outcomes() {
    let ok_code = PhoneResponse { success: true, message: String::new(), needs_code: true };
    assert!(matches!(phone_response_transition(&ok_code), PhoneOutcome::CodeRequested));
    let ok_auth = PhoneResponse { success: true, message: String::new(), needs_code: false };
    assert!(matches!(phone_response_transition(&ok_auth), PhoneOutcome::Authorized));
    let bad = PhoneResponse { success: false, message: String::from("bad number"), needs_code: false };
    match phone_response_transition(&bad) {
        PhoneOutcome::Rejected { message } => assert_eq!(message, "bad number"),
        _ => panic!("expected the rejection"),
    }
}

#[test]
fn code_responses_map_to_their_outcomes() {
    let ok = CodeResponse { success: true, message: String::new(), authorized: true };
    assert!(matches!(code_response_transition(&ok), CodeOutcome::Authorized));
    let wrong = CodeResponse { success: true, message: String::new(), authorized: false };
    assert!(matches!(code_response_transition(&wrong), CodeOutcome::WrongCode));
    let bad = CodeResponse { success: false, message: String::from("expired"), authorized: false };
    match code_response_transition(&bad) {
        CodeOutcome::Rejected { message } => assert_eq!(message, "expired"),
        _ => panic!("expected the rejection"),
    }
}

#[test]
fn send_responses_map_to_their_outcomes() {
    let ok = SendMessageResponse { success: true, message: String::new(), message_id: Some(5) };
    assert!(matches!(send_response_transition(&ok), SendOutcome::Sent));
    let bad = SendMessageResponse { success: false, message: String::from("muted"), message_id: None };
    match send_response_transition(&bad) {
        SendOutcome::Rejected { message } => assert_eq!(message, "muted"),
        _ => panic!("expected the rejection"),
    }
}

#[test]
fn chat_selection_moves_and_clamps() {
    assert_eq!(next_chat_index(0, 0, 1), 0);
    assert_eq!(next_chat_index(0, 3, 1), 1);
    assert_eq!(next_chat_index(2, 3, 1), 2);
    assert_eq!(next_chat_index(2, 3, -1), 1);
    assert_eq!(next_chat_index(0, 3, -1), 0);
}

#[test]
fn message_selection_scrolls_to_stay_visible() {
    // window of 3 rows at offset 0, selection moving down past the edge
    assert_eq!(next_message_selection(2, 0, 10, 1, 3), (3, 1));
    // moving inside the window leaves the offset alone
    assert_eq!(next_message_selection(1, 0, 10, 1, 3), (2, 0));
    // moving up above the window pulls the offset up
    assert_eq!(next_message_selection(5, 5, 10, -1, 3), (4, 4));
    // the ends do not move
    assert_eq!(next_message_selection(9, 7, 10, 1, 3), (9, 7));
    assert_eq!(next_message_selection(0, 0, 10, -1, 3), (0, 0));
    // an empty list changes nothing
    assert_eq!(next_message_selection(0, 0, 0, 1, 3), (0, 0));
}

#[test]
fn reloaded_messages_keep_the_selection_when_possible() {
    let ids = vec![10, 20, 30, 20];
    assert_eq!(preserve_selection(&ids, Some(20)), 1);
    assert_eq!(preserve_selection(&ids, Some(99)), 3);
    assert_eq!(preserve_selection(&ids, None), 3);
    assert_eq!(preserve_selection(&Vec::new(), Some(1)), 0);
}

#[test]
fn chat_index_resets_when_out_of_range() {
    assert_eq!(clamp_selected_index(5, 3), 0);
    assert_eq!(clamp_selected_index(2, 3), 2);
    assert_eq!(clamp_selected_index(0, 0), 0);
}

#[test]
fn config_defaults_are_empty_credentials_with_tdlib_on() {
    let c = Config::default();
    assert_eq!(c.api_id, 0);
    assert_eq!(c.api_hash, "");
    assert_eq!(c.phone_number, None);
    assert!(c.use_tdlib);
    assert_eq!(c.theme, "default");
    assert!(c.auto_save);
}
