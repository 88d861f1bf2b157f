use vstd::prelude::*;

use crate::store::{SessionToken, TokenModel};

verus! {

// ---------------------------------------------------------------------------
// Events the connection reports and actions the runtime must perform
// ---------------------------------------------------------------------------
/// The one-time login secrets delivered when the operator confirms the QR
/// challenge.
pub struct QrSecrets {
    pub tmp_pwd: Vec<u8>,
    pub tmp_no_pic_sig: Vec<u8>,
    pub tgt_qr: Vec<u8>,
}

/// Mathematical model of the login secrets.
pub struct SecretsModel {
    pub tmp_pwd: Seq<u8>,
    pub tmp_no_pic_sig: Seq<u8>,
    pub tgt_qr: Seq<u8>,
}

impl View for QrSecrets {
    type V = SecretsModel;

    open spec fn view(&self) -> SecretsModel {
        SecretsModel {
            tmp_pwd: self.tmp_pwd@,
            tmp_no_pic_sig: self.tmp_no_pic_sig@,
            tgt_qr: self.tgt_qr@,
        }
    }
}

/// One answer of the connection to a challenge fetch or a poll.
pub enum QrCodeState {
    /// A fresh challenge: its image for out-of-band display, and the
    /// signature that correlates later polls to this challenge.
    ImageFetch { image_data: Vec<u8>, sig: Vec<u8> },
    WaitingForScan,
    WaitingForConfirm,
    /// The challenge expired; a designed renewal, not an error.
    Timeout,
    Confirmed { secrets: QrSecrets },
    /// The operator rejected the challenge; terminal and fatal.
    Canceled,
}

/// Mathematical model of a challenge answer.
pub enum QrStateModel {
    ImageFetch { image_data: Seq<u8>, sig: Seq<u8> },
    WaitingForScan,
    WaitingForConfirm,
    Timeout,
    Confirmed { secrets: SecretsModel },
    Canceled,
}

impl View for QrCodeState {
    type V = QrStateModel;

    open spec fn view(&self) -> QrStateModel {
        match self {
            QrCodeState::ImageFetch { image_data, sig } => QrStateModel::ImageFetch {
                image_data: image_data@,
                sig: sig@,
            },
            QrCodeState::WaitingForScan => QrStateModel::WaitingForScan,
            QrCodeState::WaitingForConfirm => QrStateModel::WaitingForConfirm,
            QrCodeState::Timeout => QrStateModel::Timeout,
            QrCodeState::Confirmed { secrets } => QrStateModel::Confirmed { secrets: secrets@ },
            QrCodeState::Canceled => QrStateModel::Canceled,
        }
    }
}

/// What a full login attempt came back with, as far as this flow reads it: a
/// device-lock sub-challenge demands one extra round trip; anything else ends
/// the interactive flow.
#[derive(Clone, Copy, Debug, PartialEq, Eq, Structural)]
pub enum LoginResult {
    Success,
    DeviceLockLogin,
}

/// The step of the flow that failed. Every failure here is fatal for this
/// process invocation; the operator re-invokes.
#[derive(Clone, Copy, Debug, PartialEq, Eq, Structural)]
pub enum AuthError {
    /// The stored token was rejected; no fallback to interactive login.
    TokenLoginFailed,
    /// Fetching a challenge failed.
    FetchFailed,
    /// Polling the pending challenge failed.
    PollFailed,
    /// The full login after confirmation failed.
    LoginFailed,
    /// The extra device-lock round trip failed.
    DeviceLockFailed,
    /// Post-login finalization failed.
    FinalizeFailed,
    /// The operator canceled the challenge.
    Canceled,
}

/// What the runtime reports back to the flow after carrying out an action.
pub enum AuthEvent {
    /// The token login was accepted.
    TokenLoginOk,
    /// A challenge fetch or a poll answered.
    Qr { state: QrCodeState },
    /// A full or device-lock login answered.
    Login { result: LoginResult },
    /// Finalization ran and the service exported this session token.
    Finalized { token: SessionToken },
    /// The call the flow asked for failed.
    CallFailed,
}

/// Mathematical model of a reported event.
pub enum EventModel {
    TokenLoginOk,
    Qr { state: QrStateModel },
    Login { result: LoginResult },
    Finalized { token: TokenModel },
    CallFailed,
}

impl View for AuthEvent {
    type V = EventModel;

    open spec fn view(&self) -> EventModel {
        match self {
            AuthEvent::TokenLoginOk => EventModel::TokenLoginOk,
            AuthEvent::Qr { state } => EventModel::Qr { state: state@ },
            AuthEvent::Login { result } => EventModel::Login { result: *result },
            AuthEvent::Finalized { token } => EventModel::Finalized { token: token@ },
            AuthEvent::CallFailed => EventModel::CallFailed,
        }
    }
}

/// What the runtime must do next. Exactly one action follows every event.
pub enum AuthAction {
    /// Attempt the token fast path with the stored credential.
    TokenLogin { token: SessionToken },
    /// Fetch a fresh QR challenge.
    FetchQr,
    /// Write the challenge image for the operator, wait the poll delay, then
    /// poll with this (newly issued) signature.
    SaveImageAndPoll { image_data: Vec<u8>, sig: Vec<u8> },
    /// Wait the poll delay, then poll with the held signature.
    Poll { sig: Vec<u8> },
    /// Attempt the full login with the confirmed secrets.
    QrLogin { secrets: QrSecrets },
    /// Answer the device-lock sub-challenge.
    DeviceLockLogin,
    /// Run post-login finalization and export the session token.
    Finalize,
    /// Write the exported token to the token store; the session is usable.
    PersistToken { token: SessionToken },
    /// Report the fatal failure and terminate.
    Abort { error: AuthError },
    /// Nothing: the flow is finished or the event did not concern it.
    Idle,
}

/// Mathematical model of an action.
pub enum ActionModel {
    TokenLogin { token: TokenModel },
    FetchQr,
    SaveImageAndPoll { image_data: Seq<u8>, sig: Seq<u8> },
    Poll { sig: Seq<u8> },
    QrLogin { secrets: SecretsModel },
    DeviceLockLogin,
    Finalize,
    PersistToken { token: TokenModel },
    Abort { error: AuthError },
    Idle,
}

impl View for AuthAction {
    type V = ActionModel;

    open spec fn view(&self) -> ActionModel {
        match self {
            AuthAction::TokenLogin { token } => ActionModel::TokenLogin { token: token@ },
            AuthAction::FetchQr => ActionModel::FetchQr,
            AuthAction::SaveImageAndPoll { image_data, sig } => ActionModel::SaveImageAndPoll {
                image_data: image_data@,
                sig: sig@,
            },
            AuthAction::Poll { sig } => ActionModel::Poll { sig: sig@ },
            AuthAction::QrLogin { secrets } => ActionModel::QrLogin { secrets: secrets@ },
            AuthAction::DeviceLockLogin => ActionModel::DeviceLockLogin,
            AuthAction::Finalize => ActionModel::Finalize,
            AuthAction::PersistToken { token } => ActionModel::PersistToken { token: token@ },
            AuthAction::Abort { error } => ActionModel::Abort { error: *error },
            AuthAction::Idle => ActionModel::Idle,
        }
    }
}

// ---------------------------------------------------------------------------
// The state machine
// ---------------------------------------------------------------------------
/// Where the flow stands: which call is in flight, or how it ended. The two
/// polling phases hold the challenge signature currently in force.
pub enum AuthPhase {
    /// Token login in flight.
    AwaitToken,
    /// A challenge fetch in flight; `sig` is the superseded signature, empty
    /// before the first challenge arrives.
    AwaitFetch { sig: Vec<u8> },
    /// A poll with `sig` in flight.
    AwaitPoll { sig: Vec<u8> },
    /// The full login in flight.
    AwaitLogin,
    /// The device-lock round trip in flight.
    AwaitDeviceLock,
    /// Post-login finalization in flight.
    AwaitFinalize,
    /// Terminal success: the session is authenticated and the token persisted.
    Done,
    /// Terminal failure.
    Failed { error: AuthError },
}

/// Mathematical model of a phase.
pub enum PhaseModel {
    AwaitToken,
    AwaitFetch { sig: Seq<u8> },
    AwaitPoll { sig: Seq<u8> },
    AwaitLogin,
    AwaitDeviceLock,
    AwaitFinalize,
    Done,
    Failed { error: AuthError },
}

impl View for AuthPhase {
    type V = PhaseModel;

    open spec fn view(&self) -> PhaseModel {
        match self {
            AuthPhase::AwaitToken => PhaseModel::AwaitToken,
            AuthPhase::AwaitFetch { sig } => PhaseModel::AwaitFetch { sig: sig@ },
            AuthPhase::AwaitPoll { sig } => PhaseModel::AwaitPoll { sig: sig@ },
            AuthPhase::AwaitLogin => PhaseModel::AwaitLogin,
            AuthPhase::AwaitDeviceLock => PhaseModel::AwaitDeviceLock,
            AuthPhase::AwaitFinalize => PhaseModel::AwaitFinalize,
            AuthPhase::Done => PhaseModel::Done,
            AuthPhase::Failed { error } => PhaseModel::Failed { error: *error },
        }
    }
}

/// Both terminal outcomes.
pub open spec fn is_terminal_phase(p: PhaseModel) -> bool {
    p is Done || p is Failed
}

/// The terminal failure and the report that goes with it.
pub open spec fn failure(error: AuthError) -> (PhaseModel, ActionModel) {
    (PhaseModel::Failed { error }, ActionModel::Abort { error })
}

/// How a challenge answer drives the flow, with `sig` the signature in force.
/// This is the challenge half of the transition table: a fresh challenge
/// supersedes the held signature wholesale; waiting answers poll again with
/// the signature in force; expiry re-fetches; confirmation moves to the full
/// login; cancellation is the one terminal failure of the table.
pub open spec fn qr_step(sig: Seq<u8>, state: QrStateModel) -> (PhaseModel, ActionModel) {
    match state {
        QrStateModel::ImageFetch { image_data, sig: fresh } => (
            PhaseModel::AwaitPoll { sig: fresh },
            ActionModel::SaveImageAndPoll { image_data, sig: fresh },
        ),
        QrStateModel::WaitingForScan => (
            PhaseModel::AwaitPoll { sig },
            ActionModel::Poll { sig },
        ),
        QrStateModel::WaitingForConfirm => (
            PhaseModel::AwaitPoll { sig },
            ActionModel::Poll { sig },
        ),
        QrStateModel::Timeout => (PhaseModel::AwaitFetch { sig }, ActionModel::FetchQr),
        QrStateModel::Confirmed { secrets } => (
            PhaseModel::AwaitLogin,
            ActionModel::QrLogin { secrets },
        ),
        QrStateModel::Canceled => failure(AuthError::Canceled),
    }
}

/// The whole transition table: given where the flow stands and what the
/// connection answered, where it stands next and what the runtime must do.
/// An event that does not concern the current phase is ignored, and the two
/// terminal phases absorb every event.
pub open spec fn step(p: PhaseModel, e: EventModel) -> (PhaseModel, ActionModel) {
    match p {
        PhaseModel::AwaitToken => match e {
            EventModel::TokenLoginOk => (PhaseModel::AwaitFinalize, ActionModel::Finalize),
            EventModel::CallFailed => failure(AuthError::TokenLoginFailed),
            _ => (p, ActionModel::Idle),
        },
        PhaseModel::AwaitFetch { sig } => match e {
            EventModel::Qr { state } => qr_step(sig, state),
            EventModel::CallFailed => failure(AuthError::FetchFailed),
            _ => (p, ActionModel::Idle),
        },
        PhaseModel::AwaitPoll { sig } => match e {
            EventModel::Qr { state } => qr_step(sig, state),
            EventModel::CallFailed => failure(AuthError::PollFailed),
            _ => (p, ActionModel::Idle),
        },
        PhaseModel::AwaitLogin => match e {
            EventModel::Login { result } => match result {
                LoginResult::Success => (PhaseModel::AwaitFinalize, ActionModel::Finalize),
                LoginResult::DeviceLockLogin => (
                    PhaseModel::AwaitDeviceLock,
                    ActionModel::DeviceLockLogin,
                ),
            },
            EventModel::CallFailed => failure(AuthError::LoginFailed),
            _ => (p, ActionModel::Idle),
        },
        PhaseModel::AwaitDeviceLock => match e {
            EventModel::Login { result } => (PhaseModel::AwaitFinalize, ActionModel::Finalize),
            EventModel::CallFailed => failure(AuthError::DeviceLockFailed),
            _ => (p, ActionModel::Idle),
        },
        PhaseModel::AwaitFinalize => match e {
            EventModel::Finalized { token } => (
                PhaseModel::Done,
                ActionModel::PersistToken { token },
            ),
            EventModel::CallFailed => failure(AuthError::FinalizeFailed),
            _ => (p, ActionModel::Idle),
        },
        PhaseModel::Done => (p, ActionModel::Idle),
        PhaseModel::Failed { error } => (p, ActionModel::Idle),
    }
}

/// Where the flow starts: a stored token takes the fast path and the QR flow
/// is never entered; otherwise the first challenge is fetched at once.
pub open spec fn start_spec(token: Option<TokenModel>) -> (PhaseModel, ActionModel) {
    match token {
        Option::Some(t) => (PhaseModel::AwaitToken, ActionModel::TokenLogin { token: t }),
        Option::None => (PhaseModel::AwaitFetch { sig: Seq::empty() }, ActionModel::FetchQr),
    }
}

/// The authentication flow: feed it every answer of the connection, perform
/// the action it returns, until it is terminal.
pub struct AuthFlow {
    pub phase: AuthPhase,
}

impl View for AuthFlow {
    type V = PhaseModel;

    open spec fn view(&self) -> PhaseModel {
        self.phase@
    }
}

/// The challenge half of the executable transition.
fn qr_transition(sig: Vec<u8>, state: QrCodeState) -> (r: (AuthPhase, AuthAction))
    ensures
        (r.0@, r.1@) == qr_step(sig@, state@),
{
    match state {
        QrCodeState::ImageFetch { image_data, sig: fresh } => {
            let held = fresh.clone();
            (
                AuthPhase::AwaitPoll { sig: held },
                AuthAction::SaveImageAndPoll { image_data, sig: fresh },
            )
        },
        QrCodeState::WaitingForScan => {
            let held = sig.clone();
            (AuthPhase::AwaitPoll { sig: held }, AuthAction::Poll { sig })
        },
        QrCodeState::WaitingForConfirm => {
            let held = sig.clone();
            (AuthPhase::AwaitPoll { sig: held }, AuthAction::Poll { sig })
        },
        QrCodeState::Timeout => (AuthPhase::AwaitFetch { sig }, AuthAction::FetchQr),
        QrCodeState::Confirmed { secrets } => (
            AuthPhase::AwaitLogin,
            AuthAction::QrLogin { secrets },
        ),
        QrCodeState::Canceled => (
            AuthPhase::Failed { error: AuthError::Canceled },
            AuthAction::Abort { error: AuthError::Canceled },
        ),
    }
}

/// The executable transition table.
fn transition(phase: AuthPhase, event: AuthEvent) -> (r: (AuthPhase, AuthAction))
    ensures
        (r.0@, r.1@) == step(phase@, event@),
{
    match phase {
        AuthPhase::AwaitToken => match event {
            AuthEvent::TokenLoginOk => (AuthPhase::AwaitFinalize, AuthAction::Finalize),
            AuthEvent::CallFailed => (
                AuthPhase::Failed { error: AuthError::TokenLoginFailed },
                AuthAction::Abort { error: AuthError::TokenLoginFailed },
            ),
            _ => (AuthPhase::AwaitToken, AuthAction::Idle),
        },
        AuthPhase::AwaitFetch { sig } => match event {
            AuthEvent::Qr { state } => qr_transition(sig, state),
            AuthEvent::CallFailed => (
                AuthPhase::Failed { error: AuthError::FetchFailed },
                AuthAction::Abort { error: AuthError::FetchFailed },
            ),
            _ => (AuthPhase::AwaitFetch { sig }, AuthAction::Idle),
        },
        AuthPhase::AwaitPoll { sig } => match event {
            AuthEvent::Qr { state } => qr_transition(sig, state),
            AuthEvent::CallFailed => (
                AuthPhase::Failed { error: AuthError::PollFailed },
                AuthAction::Abort { error: AuthError::PollFailed },
            ),
            _ => (AuthPhase::AwaitPoll { sig }, AuthAction::Idle),
        },
        AuthPhase::AwaitLogin => match event {
            AuthEvent::Login { result } => match result {
                LoginResult::Success => (AuthPhase::AwaitFinalize, AuthAction::Finalize),
                LoginResult::DeviceLockLogin => (
                    AuthPhase::AwaitDeviceLock,
                    AuthAction::DeviceLockLogin,
                ),
            },
            AuthEvent::CallFailed => (
                AuthPhase::Failed { error: AuthError::LoginFailed },
                AuthAction::Abort { error: AuthError::LoginFailed },
            ),
            _ => (AuthPhase::AwaitLogin, AuthAction::Idle),
        },
        AuthPhase::AwaitDeviceLock => match event {
            AuthEvent::Login { result } => (AuthPhase::AwaitFinalize, AuthAction::Finalize),
            AuthEvent::CallFailed => (
                AuthPhase::Failed { error: AuthError::DeviceLockFailed },
                AuthAction::Abort { error: AuthError::DeviceLockFailed },
            ),
            _ => (AuthPhase::AwaitDeviceLock, AuthAction::Idle),
        },
        AuthPhase::AwaitFinalize => match event {
            AuthEvent::Finalized { token } => (
                AuthPhase::Done,
                AuthAction::PersistToken { token },
            ),
            AuthEvent::CallFailed => (
                AuthPhase::Failed { error: AuthError::FinalizeFailed },
                AuthAction::Abort { error: AuthError::FinalizeFailed },
            ),
            _ => (AuthPhase::AwaitFinalize, AuthAction::Idle),
        },
        AuthPhase::Done => (AuthPhase::Done, AuthAction::Idle),
        AuthPhase::Failed { error } => (AuthPhase::Failed { error }, AuthAction::Idle),
    }
}

impl AuthFlow {
    /// Starts the flow: with a stored token the fast path, otherwise the
    /// interactive QR flow, whose first challenge is fetched at once.
    pub fn start(token: Option<SessionToken>) -> (r: (AuthFlow, AuthAction))
        ensures
            (r.0@, r.1@) == start_spec(
                match token {
                    Option::Some(t) => Option::Some(t@),
                    Option::None => Option::None,
                },
            ),
    {
        match token {
            Some(t) => (
                AuthFlow { phase: AuthPhase::AwaitToken },
                AuthAction::TokenLogin { token: t },
            ),
            None => {
                let empty: Vec<u8> = Vec::new();
                (AuthFlow { phase: AuthPhase::AwaitFetch { sig: empty } }, AuthAction::FetchQr)
            },
        }
    }

    /// Drives the flow by one answer of the connection and returns what the
    /// runtime must do next, exactly as the transition table says.
    pub fn on_event(&mut self, event: AuthEvent) -> (a: AuthAction)
        ensures
            (final (self)@, a@) == step(old(self)@, event@),
    {
        let mut taken = AuthPhase::Done;
        core::mem::swap(&mut self.phase, &mut taken);
        let (next, action) = transition(taken, event);
        self.phase = next;
        action
    }

    /// Whether the flow has ended, in success or in failure.
    pub fn is_terminal(&self) -> (b: bool)
        ensures
            b == is_terminal_phase(self@),
    {
        match &self.phase {
            AuthPhase::Done => true,
            AuthPhase::Failed { error } => true,
            _ => false,
        }
    }
}

} // verus!
