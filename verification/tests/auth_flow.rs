use boar_bot::auth::{
    AuthAction, AuthError, AuthEvent, AuthFlow, AuthPhase, LoginResult, QrCodeState, QrSecrets,
};
use boar_bot::store::{encode_token, SessionToken};

/// What a poll of the pending challenge answers next.
enum PollAnswer {
    WaitingForScan,
    WaitingForConfirm,
    Timeout,
    Confirmed,
    Canceled,
}

/// A scripted connection. Every fetch issues a fresh signature; a poll with
/// any other signature is a contract violation and fails the test. After a
/// `Timeout` answer the old signature is invalidated, as the real service
/// invalidates an expired challenge.
struct FakeConnection {
    poll_answers: Vec<PollAnswer>,
    next_sig: u8,
    valid_sig: Option<Vec<u8>>,
    images_written: Vec<Vec<u8>>,
    sigs_polled: Vec<Vec<u8>>,
    fetch_calls: usize,
    qr_login_calls: usize,
    device_lock_calls: usize,
    token_login_calls: usize,
    token_login_ok: bool,
    login_answers: Vec<LoginResult>,
}

impl FakeConnection {
    fn new(
        poll_answers: Vec<PollAnswer>,
        login_answers: Vec<LoginResult>,
        token_login_ok: bool,
    ) -> FakeConnection {
        FakeConnection {
            poll_answers,
            next_sig: 1,
            valid_sig: None,
            images_written: Vec::new(),
            sigs_polled: Vec::new(),
            fetch_calls: 0,
            qr_login_calls: 0,
            device_lock_calls: 0,
            token_login_calls: 0,
            token_login_ok,
            login_answers,
        }
    }

    fn fetch(&mut self) -> QrCodeState {
        self.fetch_calls += 1;
        let sig = vec![self.next_sig; 4];
        let image = vec![0xAA, self.next_sig];
        self.next_sig += 1;
        self.valid_sig = Some(sig.clone());
        QrCodeState::ImageFetch {
            image_data: image,
            sig,
        }
    }

    fn poll(&mut self, sig: &[u8]) -> QrCodeState {
        assert_eq!(
            Some(sig),
            self.valid_sig.as_deref(),
            "polled with a signature that is not in force"
        );
        self.sigs_polled.push(sig.to_vec());
        match self.poll_answers.remove(0) {
            PollAnswer::WaitingForScan => QrCodeState::WaitingForScan,
            PollAnswer::WaitingForConfirm => QrCodeState::WaitingForConfirm,
            PollAnswer::Timeout => {
                self.valid_sig = None;
                QrCodeState::Timeout
            }
            PollAnswer::Confirmed => QrCodeState::Confirmed {
                secrets: QrSecrets {
                    tmp_pwd: vec![1],
                    tmp_no_pic_sig: vec![2],
                    tgt_qr: vec![3],
                },
            },
            PollAnswer::Canceled => QrCodeState::Canceled,
        }
    }
}

/// How one full run of the flow ended.
struct Outcome {
    token_file: Option<Vec<u8>>,
    fatal: Option<AuthError>,
    done: bool,
}

/// Runs the flow to its end against the fake, performing every action it
/// asks for, exactly as the surrounding runtime would.
fn run(fake: &mut FakeConnection, stored: Option<SessionToken>) -> Outcome {
    let (mut flow, mut action) = AuthFlow::start(stored);
    let mut token_file: Option<Vec<u8>> = None;
    let mut fatal: Option<AuthError> = None;
    loop {
        let event = match action {
            AuthAction::TokenLogin { token: _ } => {
                fake.token_login_calls += 1;
                if fake.token_login_ok {
                    AuthEvent::TokenLoginOk
                } else {
                    AuthEvent::CallFailed
                }
            }
            AuthAction::FetchQr => AuthEvent::Qr { state: fake.fetch() },
            AuthAction::SaveImageAndPoll { image_data, sig } => {
                fake.images_written.push(image_data);
                AuthEvent::Qr {
                    state: fake.poll(&sig),
                }
            }
            AuthAction::Poll { sig } => AuthEvent::Qr {
                state: fake.poll(&sig),
            },
            AuthAction::QrLogin { secrets: _ } => {
                fake.qr_login_calls += 1;
                AuthEvent::Login {
                    result: fake.login_answers.remove(0),
                }
            }
            AuthAction::DeviceLockLogin => {
                fake.device_lock_calls += 1;
                AuthEvent::Login {
                    result: fake.login_answers.remove(0),
                }
            }
            AuthAction::Finalize => AuthEvent::Finalized {
                token: SessionToken {
                    uin: 42,
                    credential: vec![9, 9, 9],
                },
            },
            AuthAction::PersistToken { token } => {
                token_file = Some(encode_token(&token));
                break;
            }
            AuthAction::Abort { error } => {
                fatal = Some(error);
                break;
            }
            AuthAction::Idle => break,
        };
        action = flow.on_event(event);
    }
    Outcome {
        token_file,
        fatal,
        done: flow.is_terminal() && fatal.is_none(),
    }
}

fn stored_token() -> SessionToken {
    SessionToken {
        uin: 7,
        credential: vec![1, 2, 3],
    }
}

#[test]
fn token_fast_path_never_touches_qr() {
    let mut fake = FakeConnection::new(vec![], vec![], true);
    let outcome = run(&mut fake, Some(stored_token()));
    assert!(outcome.done);
    assert!(outcome.token_file.is_some());
    assert_eq!(fake.token_login_calls, 1);
    assert_eq!(fake.fetch_calls, 0);
    assert!(fake.images_written.is_empty());
    assert!(fake.sigs_polled.is_empty());
    assert_eq!(fake.qr_login_calls, 0);
}

#[test]
fn rejected_token_is_fatal_without_fallback() {
    let mut fake = FakeConnection::new(vec![], vec![], false);
    let outcome = run(&mut fake, Some(stored_token()));
    assert_eq!(outcome.fatal, Some(AuthError::TokenLoginFailed));
    assert!(outcome.token_file.is_none());
    assert_eq!(fake.fetch_calls, 0, "no fallback to the interactive flow");
}

#[test]
fn absent_token_runs_qr_flow_once_to_success() {
    let mut fake = FakeConnection::new(
        vec![
            PollAnswer::WaitingForScan,
            PollAnswer::WaitingForConfirm,
            PollAnswer::Confirmed,
        ],
        vec![LoginResult::Success],
        true,
    );
    let outcome = run(&mut fake, None);
    assert!(outcome.done);
    assert!(outcome.token_file.is_some());
    assert_eq!(fake.token_login_calls, 0);
    assert_eq!(fake.fetch_calls, 1);
    assert_eq!(fake.images_written.len(), 1);
    assert_eq!(fake.qr_login_calls, 1);
    assert_eq!(fake.device_lock_calls, 0);
    assert_eq!(fake.sigs_polled.len(), 3);
}

#[test]
fn timeout_refetches_and_discards_old_signature() {
    let mut fake = FakeConnection::new(
        vec![PollAnswer::Timeout, PollAnswer::Confirmed],
        vec![LoginResult::Success],
        true,
    );
    let outcome = run(&mut fake, None);
    assert!(outcome.done);
    assert_eq!(fake.fetch_calls, 2, "exactly two challenge images fetched");
    assert_eq!(fake.images_written.len(), 2);
    assert_eq!(fake.sigs_polled.len(), 2);
    assert_eq!(fake.sigs_polled[0], vec![1; 4]);
    assert_eq!(
        fake.sigs_polled[1],
        vec![2; 4],
        "the poll after the refetch carries the fresh signature"
    );
    assert!(outcome.token_file.is_some());
}

#[test]
fn canceled_challenge_is_fatal_and_persists_nothing() {
    let mut fake = FakeConnection::new(vec![PollAnswer::Canceled], vec![], true);
    let outcome = run(&mut fake, None);
    assert_eq!(outcome.fatal, Some(AuthError::Canceled));
    assert!(outcome.token_file.is_none());
    assert!(!outcome.done);
}

#[test]
fn device_lock_costs_exactly_one_extra_login() {
    let mut fake = FakeConnection::new(
        vec![PollAnswer::Confirmed],
        vec![LoginResult::DeviceLockLogin, LoginResult::Success],
        true,
    );
    let outcome = run(&mut fake, None);
    assert!(outcome.done);
    assert_eq!(fake.qr_login_calls, 1);
    assert_eq!(fake.device_lock_calls, 1);
    assert!(outcome.token_file.is_some());
}

#[test]
fn failed_poll_is_fatal() {
    let (mut flow, _) = AuthFlow::start(None);
    let first = flow.on_event(AuthEvent::CallFailed);
    assert!(matches!(
        first,
        AuthAction::Abort {
            error: AuthError::FetchFailed
        }
    ));
    assert!(flow.is_terminal());
}

#[test]
fn event_for_another_phase_is_ignored() {
    let (mut flow, _) = AuthFlow::start(Some(stored_token()));
    let action = flow.on_event(AuthEvent::Qr {
        state: QrCodeState::WaitingForScan,
    });
    assert!(matches!(action, AuthAction::Idle));
    assert!(matches!(flow.phase, AuthPhase::AwaitToken));
    assert!(!flow.is_terminal());
}

#[test]
fn terminal_flow_absorbs_further_events() {
    let mut fake = FakeConnection::new(vec![PollAnswer::Canceled], vec![], true);
    let _ = run(&mut fake, None);
    let mut flow = AuthFlow {
        phase: AuthPhase::Failed {
            error: AuthError::Canceled,
        },
    };
    let action = flow.on_event(AuthEvent::TokenLoginOk);
    assert!(matches!(action, AuthAction::Idle));
    assert!(flow.is_terminal());
}

#[test]
fn poll_delay_is_five_seconds() {
    assert_eq!(boar_bot::poll_delay_secs(), 5);
}
