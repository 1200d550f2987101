//! The sign-in decisions of the host's account bootstrap: which configured
//! accounts to attempt, how to continue after each response of the sign-in
//! exchange, and when the exchange as a whole has succeeded or failed.
//!
//! Reading the configuration, the network exchange itself and the token
//! persistence are I/O performed by the host; it feeds the responses it
//! received into these functions and performs the actions they decide.

use vstd::prelude::*;

verus! {

/// A sign-in response, reduced to what the decisions read.
pub enum LoginStatus {
    /// The account is signed in.
    Success,
    /// The service asks for the device-lock confirmation exchange.
    DeviceLockLogin,
    /// The service refused with a status message.
    UnknownStatus { message: String },
    /// The account is frozen.
    AccountFrozen,
    /// Any other refusal.
    Other,
}

impl LoginStatus {
    /// Whether this response ends the exchange successfully.
    pub open spec fn is_success(self) -> bool {
        self is Success
    }

    /// Whether this response asks for another round.
    pub open spec fn is_retry(self) -> bool {
        self is DeviceLockLogin
    }
}

/// What to do after one response of the password sign-in exchange.
#[derive(Clone, Copy, PartialEq, Eq, Structural, Debug)]
pub enum LoginAction {
    /// Perform the device-lock confirmation and feed its response back in.
    RetryDeviceLock,
    /// Persist the session token and finish: the account is signed in.
    PersistToken,
    /// Give the failure up to the caller.
    Fail,
}

/// The decision after one response: a device-lock challenge is retried, a
/// success persists the token and finishes, everything else fails.
pub fn login_step(resp: &LoginStatus) -> (a: LoginAction)
    ensures
        a == LoginAction::RetryDeviceLock <==> resp.is_retry(),
        a == LoginAction::PersistToken <==> resp.is_success(),
        a == LoginAction::Fail <==> (!resp.is_retry() && !resp.is_success()),
{
    match resp {
        LoginStatus::DeviceLockLogin => LoginAction::RetryDeviceLock,
        LoginStatus::Success => LoginAction::PersistToken,
        LoginStatus::UnknownStatus { .. } => LoginAction::Fail,
        LoginStatus::AccountFrozen => LoginAction::Fail,
        LoginStatus::Other => LoginAction::Fail,
    }
}

/// Where a whole exchange stands after a sequence of responses.
#[derive(Clone, Copy, PartialEq, Eq, Structural, Debug)]
pub enum LoginOutcome {
    /// A success arrived, after device-lock rounds only.
    Success,
    /// A terminal refusal arrived.
    Failed,
    /// Every response so far asked for another round.
    Pending,
}

/// Replays a recorded exchange: the first response that is not a
/// device-lock challenge decides it, a success succeeding and anything
/// else failing; an exchange of challenges alone is still pending.
pub fn login_progress(responses: &Vec<LoginStatus>) -> (r: LoginOutcome)
    ensures
        r == LoginOutcome::Pending <==> forall|i: int|
            0 <= i < responses@.len() ==> (#[trigger] responses@[i]).is_retry(),
        r == LoginOutcome::Success <==> exists|i: int|
            0 <= i < responses@.len() && (#[trigger] responses@[i]).is_success() && (forall|j: int|
                0 <= j < i ==> (#[trigger] responses@[j]).is_retry()),
        r == LoginOutcome::Failed <==> exists|i: int|
            0 <= i < responses@.len() && !(#[trigger] responses@[i]).is_retry()
                && !responses@[i].is_success() && (forall|j: int|
                0 <= j < i ==> (#[trigger] responses@[j]).is_retry()),
{
    let mut i: usize = 0;
    while i < responses.len()
        invariant
            0 <= i as int <= responses@.len(),
            forall|j: int| 0 <= j < i as int ==> (#[trigger] responses@[j]).is_retry(),
        decreases responses@.len() - i as int,
    {
        match responses[i] {
            LoginStatus::DeviceLockLogin => {
                i += 1;
            },
            LoginStatus::Success => {
                return LoginOutcome::Success;
            },
            _ => {
                return LoginOutcome::Failed;
            },
        }
    }
    LoginOutcome::Pending
}

/// How to proceed for one account after the initial token sign-in attempt.
#[derive(Clone, Copy, PartialEq, Eq, Structural, Debug)]
pub enum LoginPlan {
    /// The token sign-in succeeded; nothing more to do.
    AlreadyOnline,
    /// The token sign-in failed and a password is configured: run the
    /// password exchange.
    PasswordLogin,
    /// The token sign-in failed and no password is configured: give up.
    GiveUp,
}

pub fn login_plan(try_login_ok: bool, has_password: bool) -> (p: LoginPlan)
    ensures
        p == LoginPlan::AlreadyOnline <==> try_login_ok,
        p == LoginPlan::PasswordLogin <==> (!try_login_ok && has_password),
        p == LoginPlan::GiveUp <==> (!try_login_ok && !has_password),
{
    if try_login_ok {
        LoginPlan::AlreadyOnline
    } else if has_password {
        LoginPlan::PasswordLogin
    } else {
        LoginPlan::GiveUp
    }
}

/// Whether a configured account takes part in the bootstrap: it must opt
/// into automatic sign-in and have stored device credentials.
pub fn should_attempt(auto_login: bool, has_device_info: bool) -> (r: bool)
    ensures
        r == (auto_login && has_device_info),
{
    auto_login && has_device_info
}

} // verus!
