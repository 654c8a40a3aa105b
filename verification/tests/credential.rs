use temple_schedule::client::{CacheCheck, Client, ClientError, ProbeOutcome, STATUS_OK};
use temple_schedule::login::{
    carries_credential, Element, LoginAction, LoginEvent, LoginState, Page, ENDOWMENT_ITEM_INDEX,
    SESSION_INFO_URL,
};

fn client(cookie: &str) -> Client {
    Client { cookie: cookie.to_string() }
}

#[test]
fn cache_record_is_length_then_bytes() {
    assert_eq!(client("ab").to_cache_bytes(), vec![2, 0, 0, 0, 0, 0, 0, 0, 97, 98]);
    assert_eq!(client("").to_cache_bytes(), vec![0, 0, 0, 0, 0, 0, 0, 0]);
    assert_eq!(client("é").to_cache_bytes(), vec![2, 0, 0, 0, 0, 0, 0, 0, 0xc3, 0xa9]);
}

#[test]
fn cache_record_round_trips() {
    for cookie in ["a", "session=abc123; Path=/; HttpOnly", "JSESSIONID=Zm9v; TOKEN=\u{00e9}\u{4e2d}\u{1f600}", "x y\tz\n"] {
        let bytes = client(cookie).to_cache_bytes();
        let back = Client::from_cache_bytes(&bytes).expect("a record that was just written");
        assert_eq!(back.cookie, cookie);
    }
}

#[test]
fn cache_record_round_trips_a_long_cookie() {
    let cookie: String = "k=v; ".repeat(1000);
    let bytes = client(&cookie).to_cache_bytes();
    assert_eq!(bytes.len(), 8 + 5000);
    assert_eq!(&bytes[..8], &[0x88, 0x13, 0, 0, 0, 0, 0, 0]);
    assert_eq!(Client::from_cache_bytes(&bytes).unwrap().cookie, cookie);
}

#[test]
fn cache_bytes_after_the_record_are_ignored() {
    let bytes = vec![1, 0, 0, 0, 0, 0, 0, 0, b'q', 9, 9, 9];
    assert_eq!(Client::from_cache_bytes(&bytes).unwrap().cookie, "q");
}

#[test]
fn short_cache_is_malformed() {
    assert!(matches!(Client::from_cache_bytes(&[]), Err(ClientError::MalformedCache)));
    assert!(matches!(Client::from_cache_bytes(&[1, 0, 0]), Err(ClientError::MalformedCache)));
    assert!(matches!(
        Client::from_cache_bytes(&[3, 0, 0, 0, 0, 0, 0, 0, b'a', b'b']),
        Err(ClientError::MalformedCache)
    ));
    assert!(matches!(
        Client::from_cache_bytes(&[0xff, 0xff, 0xff, 0xff, 0xff, 0xff, 0xff, 0xff, b'a']),
        Err(ClientError::MalformedCache)
    ));
}

#[test]
fn cache_that_is_not_text_is_malformed() {
    assert!(matches!(
        Client::from_cache_bytes(&[2, 0, 0, 0, 0, 0, 0, 0, 0xff, 0xfe]),
        Err(ClientError::MalformedCache)
    ));
}

#[test]
fn missing_cache_leads_to_a_login() {
    assert!(matches!(Client::check_cache(None), CacheCheck::Acquire));
}

#[test]
fn malformed_cache_leads_to_a_login() {
    assert!(matches!(Client::check_cache(Some(&[7, 7][..])), CacheCheck::Acquire));
}

#[test]
fn cached_credential_is_probed() {
    let bytes = client("c=1").to_cache_bytes();
    match Client::check_cache(Some(&bytes[..])) {
        CacheCheck::Probe(found) => assert_eq!(found.cookie, "c=1"),
        CacheCheck::Acquire => panic!("a cached credential was passed over"),
    }
}

#[test]
fn successful_probe_uses_the_cached_credential() {
    assert_eq!(STATUS_OK, 200);
    match client("c=1").after_probe(Some(200)) {
        ProbeOutcome::UseCached(found) => assert_eq!(found.cookie, "c=1"),
        ProbeOutcome::Acquire => panic!("a login was started although the probe succeeded"),
    }
}

#[test]
fn failed_probe_leads_to_a_login() {
    assert!(matches!(client("c=1").after_probe(None), ProbeOutcome::Acquire));
    assert!(matches!(client("c=1").after_probe(Some(401)), ProbeOutcome::Acquire));
    assert!(matches!(client("c=1").after_probe(Some(204)), ProbeOutcome::Acquire));
    assert!(matches!(client("c=1").after_probe(Some(500)), ProbeOutcome::Acquire));
}

#[test]
fn empty_captured_credential_is_refused() {
    assert!(matches!(Client::from_captured(String::new()), Err(ClientError::EmptyCredential)));
}

#[test]
fn captured_credential_comes_with_its_cache_record() {
    let captured = Client::from_captured("s=1".to_string()).expect("a cookie that is not empty");
    assert_eq!(captured.client.cookie, "s=1");
    assert_eq!(captured.cache_bytes, vec![3, 0, 0, 0, 0, 0, 0, 0, b's', b'=', b'1']);
}

#[test]
fn login_passes_through_every_step_in_order() {
    let order = [
        LoginState::Start,
        LoginState::PageLoaded,
        LoginState::UsernameFocused,
        LoginState::UsernameTyped,
        LoginState::UsernameSubmitted,
        LoginState::PasswordFocused,
        LoginState::PasswordTyped,
        LoginState::PostLoginSubmitted,
        LoginState::PortalLoaded,
        LoginState::ItemSelected,
        LoginState::CredentialCaptured,
        LoginState::Done,
    ];
    let mut state = LoginState::Start;
    for next in &order[1..] {
        let event = match state {
            LoginState::PostLoginSubmitted => LoginEvent::ItemsCounted(4),
            LoginState::ItemSelected => LoginEvent::CredentialReceived("s=1".to_string()),
            _ => LoginEvent::Performed,
        };
        state = state.advance(&event).expect("the flow goes on");
        assert_eq!(state, *next);
    }
    assert_eq!(state, LoginState::Done);
    assert!(state.actions().is_empty());
}

#[test]
fn username_field_is_clicked_three_times() {
    let click = LoginAction::Click(Element::UsernameField);
    assert_eq!(LoginState::PageLoaded.actions(), vec![click, click, click]);
}

#[test]
fn each_step_has_its_actions() {
    assert_eq!(LoginState::Start.actions(), vec![LoginAction::Open(Page::Login)]);
    assert_eq!(LoginState::UsernameFocused.actions(), vec![LoginAction::TypeUsername]);
    assert_eq!(LoginState::UsernameTyped.actions(), vec![LoginAction::Click(Element::UsernameSubmit)]);
    assert_eq!(LoginState::UsernameSubmitted.actions(), vec![LoginAction::Click(Element::PasswordField)]);
    assert_eq!(LoginState::PasswordFocused.actions(), vec![LoginAction::TypePassword, LoginAction::Settle(1)]);
    assert_eq!(
        LoginState::PasswordTyped.actions(),
        vec![LoginAction::Click(Element::LoginSubmit), LoginAction::Settle(15)]
    );
    assert_eq!(
        LoginState::PostLoginSubmitted.actions(),
        vec![
            LoginAction::Open(Page::Portal),
            LoginAction::Click(Element::SelectTempleButton),
            LoginAction::CountItems
        ]
    );
    assert_eq!(ENDOWMENT_ITEM_INDEX, 2);
    assert_eq!(
        LoginState::PortalLoaded.actions(),
        vec![LoginAction::ArmInterception, LoginAction::SelectItem(2)]
    );
    assert_eq!(LoginState::ItemSelected.actions(), vec![LoginAction::AwaitCredential]);
    assert_eq!(LoginState::CredentialCaptured.actions(), vec![LoginAction::WriteCache]);
}

#[test]
fn wrong_item_count_ends_the_login() {
    for n in [0usize, 3, 5] {
        assert_eq!(
            LoginState::PostLoginSubmitted.advance(&LoginEvent::ItemsCounted(n)),
            Err(ClientError::UnexpectedItemCount)
        );
    }
}

#[test]
fn empty_credential_ends_the_login_before_the_cache_is_written() {
    let result = LoginState::ItemSelected.advance(&LoginEvent::CredentialReceived(String::new()));
    assert_eq!(result, Err(ClientError::EmptyCredential));
}

#[test]
fn unexpected_event_ends_the_login() {
    assert_eq!(LoginState::Done.advance(&LoginEvent::Performed), Err(ClientError::UnexpectedEvent));
    assert_eq!(LoginState::Start.advance(&LoginEvent::ItemsCounted(4)), Err(ClientError::UnexpectedEvent));
    assert_eq!(
        LoginState::ItemSelected.advance(&LoginEvent::Performed),
        Err(ClientError::UnexpectedEvent)
    );
    assert_eq!(
        LoginState::PostLoginSubmitted.advance(&LoginEvent::Performed),
        Err(ClientError::UnexpectedEvent)
    );
}

#[test]
fn pages_and_elements_have_their_addresses() {
    assert_eq!(Page::Login.url(), "https://www.churchofjesuschrist.org/temples/schedule/appointment?lang=eng");
    assert_eq!(Page::Portal.url(), "https://tos.churchofjesuschrist.org/?lang=eng");
    assert_eq!(Element::UsernameField.selector(), "input#okta-signin-username");
    assert_eq!(Element::UsernameSubmit.selector(), "input#okta-signin-submit");
    assert_eq!(Element::PasswordField.selector(), "input[type=password]");
    assert_eq!(Element::LoginSubmit.selector(), "input[type=submit]");
    assert_eq!(Element::SelectTempleButton.selector(), "button#select-this-temple-button");
    assert_eq!(Element::ScheduleItem.selector(), "span.schedule-item-text");
}

#[test]
fn only_the_session_info_post_carries_the_credential() {
    assert!(carries_credential("https://tos.churchofjesuschrist.org/api/templeSchedule/getSessionInfo", "POST"));
    assert!(carries_credential(SESSION_INFO_URL, "POST"));
    assert!(!carries_credential(SESSION_INFO_URL, "GET"));
    assert!(!carries_credential(SESSION_INFO_URL, "post"));
    assert!(!carries_credential("https://tos.churchofjesuschrist.org/api/appointments", "POST"));
    assert!(!carries_credential("", ""));
}
