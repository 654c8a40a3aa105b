//! The login flow as a sequence of named steps: what the browser is asked to
//! do in each, and what each observation leads to.

use vstd::prelude::*;
use crate::client::ClientError;
use crate::text::same_text;

verus! {

/// The address that the intercepted request is sent to.
pub const SESSION_INFO_URL: &'static str =
    "https://tos.churchofjesuschrist.org/api/templeSchedule/getSessionInfo";

/// The address that lists the operator's appointments, also used to probe a
/// cached credential.
pub const APPOINTMENTS_URL: &'static str = "https://tos.churchofjesuschrist.org/api/appointments";

/// The address of the temple directory page.
pub const TEMPLE_LIST_URL: &'static str = "https://www.churchofjesuschrist.org/temples/list";

/// How many schedule categories the portal must show.
pub const SCHEDULE_ITEM_COUNT: usize = 4;

/// The position of the endowment category among them.
pub const ENDOWMENT_ITEM_INDEX: usize = 2;

/// The steps of the login, in the order they are passed through.
#[derive(Clone, Copy, Debug, PartialEq, Eq, Structural)]
pub enum LoginState {
    Start,
    PageLoaded,
    UsernameFocused,
    UsernameTyped,
    UsernameSubmitted,
    PasswordFocused,
    PasswordTyped,
    PostLoginSubmitted,
    PortalLoaded,
    ItemSelected,
    CredentialCaptured,
    Done,
}

/// A page the browser is sent to.
#[derive(Clone, Copy, Debug, PartialEq, Eq, Structural)]
pub enum Page {
    Login,
    Portal,
}

/// An element of a page that the flow waits for.
#[derive(Clone, Copy, Debug, PartialEq, Eq, Structural)]
pub enum Element {
    UsernameField,
    UsernameSubmit,
    PasswordField,
    LoginSubmit,
    SelectTempleButton,
    ScheduleItem,
}

/// One thing the browser, or the process around it, is asked to do.
#[derive(Clone, Copy, Debug, PartialEq, Eq, Structural)]
pub enum LoginAction {
    /// Send the tab to a page.
    Open(Page),
    /// Wait for an element and click it.
    Click(Element),
    /// Type the operator's username into the focused field.
    TypeUsername,
    /// Type the operator's password into the focused field.
    TypePassword,
    /// Wait this many seconds for the portal's redirects to settle.
    Settle(u64),
    /// Wait for the schedule categories and report how many there are.
    CountItems,
    /// Arm the filter that watches outgoing requests.
    ArmInterception,
    /// Click the schedule category at this position.
    SelectItem(usize),
    /// Block until the filter hands the credential over.
    AwaitCredential,
    /// Overwrite the cache file with the captured credential.
    WriteCache,
}

/// What was observed after the actions of a step.
#[derive(Clone, Debug)]
pub enum LoginEvent {
    /// The actions were carried out and there is nothing to report.
    Performed,
    /// This many schedule categories were found.
    ItemsCounted(usize),
    /// The filter handed this cookie over.
    CredentialReceived(String),
}

impl LoginState {
    /// The position of the step in the flow, from 0 for `Start`.
    pub open spec fn rank(&self) -> nat {
        match *self {
            LoginState::Start => 0,
            LoginState::PageLoaded => 1,
            LoginState::UsernameFocused => 2,
            LoginState::UsernameTyped => 3,
            LoginState::UsernameSubmitted => 4,
            LoginState::PasswordFocused => 5,
            LoginState::PasswordTyped => 6,
            LoginState::PostLoginSubmitted => 7,
            LoginState::PortalLoaded => 8,
            LoginState::ItemSelected => 9,
            LoginState::CredentialCaptured => 10,
            LoginState::Done => 11,
        }
    }

    /// What is to be done in this step, in order. The username field is
    /// clicked three times over, and a pause follows the typing of the
    /// password and the final submission.
    pub open spec fn spec_actions(&self) -> Seq<LoginAction> {
        match *self {
            LoginState::Start => seq![LoginAction::Open(Page::Login)],
            LoginState::PageLoaded => seq![
                LoginAction::Click(Element::UsernameField),
                LoginAction::Click(Element::UsernameField),
                LoginAction::Click(Element::UsernameField),
            ],
            LoginState::UsernameFocused => seq![LoginAction::TypeUsername],
            LoginState::UsernameTyped => seq![LoginAction::Click(Element::UsernameSubmit)],
            LoginState::UsernameSubmitted => seq![LoginAction::Click(Element::PasswordField)],
            LoginState::PasswordFocused => seq![LoginAction::TypePassword, LoginAction::Settle(1)],
            LoginState::PasswordTyped => seq![
                LoginAction::Click(Element::LoginSubmit),
                LoginAction::Settle(15),
            ],
            LoginState::PostLoginSubmitted => seq![
                LoginAction::Open(Page::Portal),
                LoginAction::Click(Element::SelectTempleButton),
                LoginAction::CountItems,
            ],
            LoginState::PortalLoaded => seq![
                LoginAction::ArmInterception,
                LoginAction::SelectItem(ENDOWMENT_ITEM_INDEX),
            ],
            LoginState::ItemSelected => seq![LoginAction::AwaitCredential],
            LoginState::CredentialCaptured => seq![LoginAction::WriteCache],
            LoginState::Done => seq![],
        }
    }

    /// The step that follows this one on `event`, or the error that ends the
    /// login. Counting the categories must find exactly four; waiting for
    /// the credential must receive a cookie that is not empty; every other
    /// step goes on when its actions were performed.
    pub open spec fn spec_advance(&self, event: LoginEvent) -> Result<LoginState, ClientError> {
        match (*self, event) {
            (LoginState::Start, LoginEvent::Performed) => Ok(LoginState::PageLoaded),
            (LoginState::PageLoaded, LoginEvent::Performed) => Ok(LoginState::UsernameFocused),
            (LoginState::UsernameFocused, LoginEvent::Performed) => Ok(LoginState::UsernameTyped),
            (LoginState::UsernameTyped, LoginEvent::Performed) => Ok(
                LoginState::UsernameSubmitted,
            ),
            (LoginState::UsernameSubmitted, LoginEvent::Performed) => Ok(
                LoginState::PasswordFocused,
            ),
            (LoginState::PasswordFocused, LoginEvent::Performed) => Ok(LoginState::PasswordTyped),
            (LoginState::PasswordTyped, LoginEvent::Performed) => Ok(
                LoginState::PostLoginSubmitted,
            ),
            (LoginState::PostLoginSubmitted, LoginEvent::ItemsCounted(n)) => if n
                == SCHEDULE_ITEM_COUNT {
                Ok(LoginState::PortalLoaded)
            } else {
                Err(ClientError::UnexpectedItemCount)
            },
            (LoginState::PortalLoaded, LoginEvent::Performed) => Ok(LoginState::ItemSelected),
            (LoginState::ItemSelected, LoginEvent::CredentialReceived(cookie)) => if cookie@.len()
                == 0 {
                Err(ClientError::EmptyCredential)
            } else {
                Ok(LoginState::CredentialCaptured)
            },
            (LoginState::CredentialCaptured, LoginEvent::Performed) => Ok(LoginState::Done),
            _ => Err(ClientError::UnexpectedEvent),
        }
    }

    /// What is to be done in this step, in order.
    pub fn actions(&self) -> (list: Vec<LoginAction>)
        ensures
            list@ == self.spec_actions(),
    {
        let mut list: Vec<LoginAction> = Vec::new();
        match self {
            LoginState::Start => {
                list.push(LoginAction::Open(Page::Login));
            },
            LoginState::PageLoaded => {
                let mut clicks: u8 = 0;
                while clicks < 3
                    invariant
                        clicks <= 3,
                        list@.len() == clicks,
                        forall|i: int|
                            0 <= i < clicks ==> list@[i] == LoginAction::Click(
                                Element::UsernameField,
                            ),
                    decreases 3 - clicks,
                {
                    list.push(LoginAction::Click(Element::UsernameField));
                    clicks += 1;
                }
            },
            LoginState::UsernameFocused => {
                list.push(LoginAction::TypeUsername);
            },
            LoginState::UsernameTyped => {
                list.push(LoginAction::Click(Element::UsernameSubmit));
            },
            LoginState::UsernameSubmitted => {
                list.push(LoginAction::Click(Element::PasswordField));
            },
            LoginState::PasswordFocused => {
                list.push(LoginAction::TypePassword);
                list.push(LoginAction::Settle(1));
            },
            LoginState::PasswordTyped => {
                list.push(LoginAction::Click(Element::LoginSubmit));
                list.push(LoginAction::Settle(15));
            },
            LoginState::PostLoginSubmitted => {
                list.push(LoginAction::Open(Page::Portal));
                list.push(LoginAction::Click(Element::SelectTempleButton));
                list.push(LoginAction::CountItems);
            },
            LoginState::PortalLoaded => {
                list.push(LoginAction::ArmInterception);
                list.push(LoginAction::SelectItem(ENDOWMENT_ITEM_INDEX));
            },
            LoginState::ItemSelected => {
                list.push(LoginAction::AwaitCredential);
            },
            LoginState::CredentialCaptured => {
                list.push(LoginAction::WriteCache);
            },
            LoginState::Done => {},
        }
        assert(list@ =~= self.spec_actions());
        list
    }

    /// The step that follows this one on `event`, or the error that ends the
    /// login. A step that is reached lies one further in the flow; the step
    /// that writes the cache is reached only with a cookie that is not empty.
    pub fn advance(&self, event: &LoginEvent) -> (result: Result<LoginState, ClientError>)
        ensures
            result == self.spec_advance(*event),
            result matches Ok(next) ==> next.rank() == self.rank() + 1,
            result == Ok::<LoginState, ClientError>(LoginState::CredentialCaptured)
                ==> (event matches LoginEvent::CredentialReceived(cookie) && cookie@.len() > 0),
    {
        match (self, event) {
            (LoginState::Start, LoginEvent::Performed) => Ok(LoginState::PageLoaded),
            (LoginState::PageLoaded, LoginEvent::Performed) => Ok(LoginState::UsernameFocused),
            (LoginState::UsernameFocused, LoginEvent::Performed) => Ok(LoginState::UsernameTyped),
            (LoginState::UsernameTyped, LoginEvent::Performed) => Ok(
                LoginState::UsernameSubmitted,
            ),
            (LoginState::UsernameSubmitted, LoginEvent::Performed) => Ok(
                LoginState::PasswordFocused,
            ),
            (LoginState::PasswordFocused, LoginEvent::Performed) => Ok(LoginState::PasswordTyped),
            (LoginState::PasswordTyped, LoginEvent::Performed) => Ok(
                LoginState::PostLoginSubmitted,
            ),
            (LoginState::PostLoginSubmitted, LoginEvent::ItemsCounted(n)) => {
                if *n == SCHEDULE_ITEM_COUNT {
                    Ok(LoginState::PortalLoaded)
                } else {
                    Err(ClientError::UnexpectedItemCount)
                }
            },
            (LoginState::PortalLoaded, LoginEvent::Performed) => Ok(LoginState::ItemSelected),
            (LoginState::ItemSelected, LoginEvent::CredentialReceived(cookie)) => {
                if cookie.as_str().is_empty() {
                    Err(ClientError::EmptyCredential)
                } else {
                    Ok(LoginState::CredentialCaptured)
                }
            },
            (LoginState::CredentialCaptured, LoginEvent::Performed) => Ok(LoginState::Done),
            _ => Err(ClientError::UnexpectedEvent),
        }
    }
}

/// The cache is written in one step only: the one that is reached by the
/// capture of a credential that is not empty.
pub proof fn lemma_cache_written_after_capture(state: LoginState)
    ensures
        state.spec_actions().contains(LoginAction::WriteCache) <==> state
            == LoginState::CredentialCaptured,
{
    let actions = state.spec_actions();
    if state == LoginState::CredentialCaptured {
        assert(actions[0] == LoginAction::WriteCache);
    } else {
        assert forall|i: int| 0 <= i < actions.len() implies actions[i]
            != LoginAction::WriteCache by {
            if state == LoginState::PageLoaded {
                assert(actions.len() == 3);
            }
        }
    }
}

/// The login never goes back: a step that follows another lies further on in
/// the flow, and nothing follows the last.
pub proof fn lemma_login_is_linear(state: LoginState, event: LoginEvent)
    ensures
        state.spec_advance(event) matches Ok(next) ==> next.rank() == state.rank() + 1,
        state == LoginState::Done ==> state.spec_advance(event) is Err,
{
}

impl Page {
    /// The address of the page.
    pub fn url(&self) -> (text: &'static str)
        ensures
            text@ == (match *self {
                Page::Login =>
                    "https://www.churchofjesuschrist.org/temples/schedule/appointment?lang=eng"@,
                Page::Portal => "https://tos.churchofjesuschrist.org/?lang=eng"@,
            }),
    {
        match self {
            Page::Login =>
                "https://www.churchofjesuschrist.org/temples/schedule/appointment?lang=eng",
            Page::Portal => "https://tos.churchofjesuschrist.org/?lang=eng",
        }
    }
}

impl Element {
    /// The selector by which the element is found on its page.
    pub fn selector(&self) -> (text: &'static str)
        ensures
            text@ == (match *self {
                Element::UsernameField => "input#okta-signin-username"@,
                Element::UsernameSubmit => "input#okta-signin-submit"@,
                Element::PasswordField => "input[type=password]"@,
                Element::LoginSubmit => "input[type=submit]"@,
                Element::SelectTempleButton => "button#select-this-temple-button"@,
                Element::ScheduleItem => "span.schedule-item-text"@,
            }),
    {
        match self {
            Element::UsernameField => "input#okta-signin-username",
            Element::UsernameSubmit => "input#okta-signin-submit",
            Element::PasswordField => "input[type=password]",
            Element::LoginSubmit => "input[type=submit]",
            Element::SelectTempleButton => "button#select-this-temple-button",
            Element::ScheduleItem => "span.schedule-item-text",
        }
    }
}

/// Whether an outgoing request is the one whose `Cookie` header is the
/// credential: a `POST` to the session-info address.
pub fn carries_credential(url: &str, method: &str) -> (watched: bool)
    ensures
        watched == (url@ == SESSION_INFO_URL@ && method@ == "POST"@),
{
    same_text(url, SESSION_INFO_URL) && same_text(method, "POST")
}

} // verus!
