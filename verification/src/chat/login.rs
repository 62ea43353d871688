//! How the server authenticates a new client: it asks for a username a limited number of
//! times, then registers a new user (asking for a password a limited number of times) or logs
//! a known one in (asking once). The server's connection task performs each action and hands
//! back what the client answered.

use vstd::prelude::*;

verus! {

/// How far authentication has come.
#[derive(Clone, Copy, PartialEq, Eq, Structural, Debug)]
pub enum AuthState {
    /// Waiting for a username; `asked` asks have been sent.
    Username { asked: usize },
    /// Waiting for a new user's password; `asked` asks have been sent.
    Register { asked: usize },
    /// Waiting for a known user's password.
    Login,
    /// Waiting for the password to be checked against the stored hash.
    Checking,
    /// Authenticated.
    Accepted,
    /// Disconnected.
    Closed,
}

/// What the client answered, or what the server found out.
#[derive(Clone, Copy, PartialEq, Eq, Structural, Debug)]
pub enum AuthEvent {
    /// A reply to a username ask: whether it held a name, whether the name may be used (see
    /// `username_acceptable`), and whether a user of that name is registered.
    UsernameReply { present: bool, acceptable: bool, registered: bool },
    /// A reply to a new user's password ask: whether it held a password, and whether the
    /// password is long enough.
    RegisterReply { present: bool, long_enough: bool },
    /// A reply to a known user's password ask: whether it held a password.
    LoginReply { present: bool },
    /// Whether the password matched the stored hash.
    LoginChecked { valid: bool },
    /// Any other packet, or the connection failed.
    Unexpected,
}

/// The step of authentication at which a client was turned away.
#[derive(Clone, Copy, PartialEq, Eq, Structural, Debug)]
pub enum AuthStage {
    Username,
    Register,
    Login,
}

/// What the server does next.
#[derive(Clone, Copy, PartialEq, Eq, Structural, Debug)]
pub enum AuthAction {
    AskUsername,
    AskRegisterPassword,
    AskLoginPassword,
    /// Hash and store the new user's password, then accept the client.
    SaveUser,
    /// Check the password against the stored hash.
    CheckLogin,
    /// Accept the client.
    Accept,
    /// Disconnect the client, gracefully (telling it why) or not.
    Disconnect { graceful: bool, stage: AuthStage },
    /// Nothing is left to do.
    Ignore,
}

/// The server's settings for authentication.
#[derive(Clone, Copy, PartialEq, Eq, Structural, Debug)]
pub struct AuthPolicy {
    /// How many times a username, or a new user's password, is asked for.
    pub max_tries: usize,
    /// Whether new users may not register; a client with an unknown name is then asked to log
    /// in and turned away.
    pub registration_disabled: bool,
}

/// The ask counts stay within the policy's number of tries.
pub open spec fn auth_wf(state: AuthState, policy: AuthPolicy) -> bool {
    match state {
        AuthState::Username { asked } => 1 <= asked <= policy.max_tries,
        AuthState::Register { asked } => 1 <= asked <= policy.max_tries,
        _ => true,
    }
}

/// The first step: ask for a username, unless no try is allowed at all.
pub open spec fn spec_auth_start(policy: AuthPolicy) -> (AuthState, AuthAction) {
    if policy.max_tries == 0 {
        (AuthState::Closed, AuthAction::Disconnect { graceful: true, stage: AuthStage::Username })
    } else {
        (AuthState::Username { asked: 1 }, AuthAction::AskUsername)
    }
}

/// What authentication does on `event` in `state`: a good username leads to registration (an
/// unknown user, with registration open) or to login; a missing or unusable one is asked for
/// again while tries are left, and ends in a graceful disconnect when they are not; the same
/// goes for a new user's password, which must be long enough; a known user gets one ask, and a
/// password that does not match ends in a graceful disconnect. Any other answer disconnects at
/// once, without ceremony. Once accepted or closed, nothing happens.
pub open spec fn spec_auth_step(state: AuthState, event: AuthEvent, policy: AuthPolicy) -> (AuthState, AuthAction) {
    match (state, event) {
        (AuthState::Username { asked }, AuthEvent::UsernameReply { present, acceptable, registered }) => {
            if present && acceptable {
                if !registered && !policy.registration_disabled {
                    (AuthState::Register { asked: 1 }, AuthAction::AskRegisterPassword)
                } else {
                    (AuthState::Login, AuthAction::AskLoginPassword)
                }
            } else if asked < policy.max_tries {
                (AuthState::Username { asked: (asked + 1) as usize }, AuthAction::AskUsername)
            } else {
                (AuthState::Closed, AuthAction::Disconnect { graceful: true, stage: AuthStage::Username })
            }
        },
        (AuthState::Username { .. }, _) => (
            AuthState::Closed,
            AuthAction::Disconnect { graceful: false, stage: AuthStage::Username },
        ),
        (AuthState::Register { asked }, AuthEvent::RegisterReply { present, long_enough }) => {
            if present && long_enough {
                (AuthState::Accepted, AuthAction::SaveUser)
            } else if asked < policy.max_tries {
                (AuthState::Register { asked: (asked + 1) as usize }, AuthAction::AskRegisterPassword)
            } else {
                (AuthState::Closed, AuthAction::Disconnect { graceful: true, stage: AuthStage::Register })
            }
        },
        (AuthState::Register { .. }, _) => (
            AuthState::Closed,
            AuthAction::Disconnect { graceful: false, stage: AuthStage::Register },
        ),
        (AuthState::Login, AuthEvent::LoginReply { present: true }) => (AuthState::Checking, AuthAction::CheckLogin),
        (AuthState::Login, _) => (AuthState::Closed, AuthAction::Disconnect { graceful: false, stage: AuthStage::Login }),
        (AuthState::Checking, AuthEvent::LoginChecked { valid }) => if valid {
            (AuthState::Accepted, AuthAction::Accept)
        } else {
            (AuthState::Closed, AuthAction::Disconnect { graceful: true, stage: AuthStage::Login })
        },
        (AuthState::Checking, _) => (
            AuthState::Closed,
            AuthAction::Disconnect { graceful: false, stage: AuthStage::Login },
        ),
        (AuthState::Accepted, _) => (AuthState::Accepted, AuthAction::Ignore),
        (AuthState::Closed, _) => (AuthState::Closed, AuthAction::Ignore),
    }
}

/// Starts authenticating a new client (see [`spec_auth_start`]).
pub fn auth_start(policy: AuthPolicy) -> (r: (AuthState, AuthAction))
    ensures
        r == spec_auth_start(policy),
        auth_wf(r.0, policy),
{
    if policy.max_tries == 0 {
        (AuthState::Closed, AuthAction::Disconnect { graceful: true, stage: AuthStage::Username })
    } else {
        (AuthState::Username { asked: 1 }, AuthAction::AskUsername)
    }
}

/// Takes one step of authentication (see [`spec_auth_step`]).
pub fn auth_step(state: AuthState, event: AuthEvent, policy: AuthPolicy) -> (r: (AuthState, AuthAction))
    requires
        auth_wf(state, policy),
    ensures
        r == spec_auth_step(state, event, policy),
        auth_wf(r.0, policy),
{
    match (state, event) {
        (AuthState::Username { asked }, AuthEvent::UsernameReply { present, acceptable, registered }) => {
            if present && acceptable {
                if !registered && !policy.registration_disabled {
                    (AuthState::Register { asked: 1 }, AuthAction::AskRegisterPassword)
                } else {
                    (AuthState::Login, AuthAction::AskLoginPassword)
                }
            } else if asked < policy.max_tries {
                (AuthState::Username { asked: asked + 1 }, AuthAction::AskUsername)
            } else {
                (AuthState::Closed, AuthAction::Disconnect { graceful: true, stage: AuthStage::Username })
            }
        },
        (AuthState::Username { .. }, _) => (
            AuthState::Closed,
            AuthAction::Disconnect { graceful: false, stage: AuthStage::Username },
        ),
        (AuthState::Register { asked }, AuthEvent::RegisterReply { present, long_enough }) => {
            if present && long_enough {
                (AuthState::Accepted, AuthAction::SaveUser)
            } else if asked < policy.max_tries {
                (AuthState::Register { asked: asked + 1 }, AuthAction::AskRegisterPassword)
            } else {
                (AuthState::Closed, AuthAction::Disconnect { graceful: true, stage: AuthStage::Register })
            }
        },
        (AuthState::Register { .. }, _) => (
            AuthState::Closed,
            AuthAction::Disconnect { graceful: false, stage: AuthStage::Register },
        ),
        (AuthState::Login, AuthEvent::LoginReply { present: true }) => (AuthState::Checking, AuthAction::CheckLogin),
        (AuthState::Login, _) => (AuthState::Closed, AuthAction::Disconnect { graceful: false, stage: AuthStage::Login }),
        (AuthState::Checking, AuthEvent::LoginChecked { valid }) => if valid {
            (AuthState::Accepted, AuthAction::Accept)
        } else {
            (AuthState::Closed, AuthAction::Disconnect { graceful: true, stage: AuthStage::Login })
        },
        (AuthState::Checking, _) => (
            AuthState::Closed,
            AuthAction::Disconnect { graceful: false, stage: AuthStage::Login },
        ),
        (AuthState::Accepted, _) => (AuthState::Accepted, AuthAction::Ignore),
        (AuthState::Closed, _) => (AuthState::Closed, AuthAction::Ignore),
    }
}

/// The state after feeding `events` one by one, from `state`.
pub open spec fn run_auth(state: AuthState, events: Seq<AuthEvent>, policy: AuthPolicy) -> AuthState
    decreases events.len(),
{
    if events.len() == 0 {
        state
    } else {
        run_auth(spec_auth_step(state, events[0], policy).0, events.drop_first(), policy)
    }
}

/// How many username asks the server sends while `events` are fed from `state`.
pub open spec fn username_asks(state: AuthState, events: Seq<AuthEvent>, policy: AuthPolicy) -> nat
    decreases events.len(),
{
    if events.len() == 0 {
        0
    } else {
        let (next, action) = spec_auth_step(state, events[0], policy);
        username_asks(next, events.drop_first(), policy) + if action == AuthAction::AskUsername {
            1nat
        } else {
            0nat
        }
    }
}

/// The asks still allowed for a username in `state`.
pub open spec fn username_asks_left(state: AuthState, policy: AuthPolicy) -> nat {
    match state {
        AuthState::Username { asked } => (policy.max_tries - asked) as nat,
        _ => 0,
    }
}

/// Whatever a client answers, the server asks for a username at most `max_tries` times in
/// all: after the first ask, at most `max_tries - 1` more follow.
pub proof fn law_username_asks_bounded(events: Seq<AuthEvent>, policy: AuthPolicy)
    requires
        policy.max_tries > 0,
    ensures
        username_asks(AuthState::Username { asked: 1 }, events, policy) <= policy.max_tries - 1,
{
    lemma_username_asks(AuthState::Username { asked: 1 }, events, policy);
}

proof fn lemma_username_asks(state: AuthState, events: Seq<AuthEvent>, policy: AuthPolicy)
    requires
        auth_wf(state, policy),
    ensures
        username_asks(state, events, policy) <= username_asks_left(state, policy),
    decreases events.len(),
{
    if events.len() > 0 {
        let (next, action) = spec_auth_step(state, events[0], policy);
        lemma_username_asks(next, events.drop_first(), policy);
    }
}

/// A client is accepted only once it has given an acceptable username and then either a long
/// enough password for a new account or a password that matched the stored one: from a fresh
/// start, the state after any run of events is `Accepted` only if the run holds such a
/// username reply and such a password event.
pub proof fn law_accept_needs_credentials(events: Seq<AuthEvent>, policy: AuthPolicy)
    requires
        policy.max_tries > 0,
        run_auth(AuthState::Username { asked: 1 }, events, policy) == AuthState::Accepted,
    ensures
        exists|i: int| #![trigger events[i]] 0 <= i < events.len() && events[i] matches AuthEvent::UsernameReply {
            present: true,
            acceptable: true,
            ..
        },
        exists|i: int|
            #![trigger events[i]]
            0 <= i < events.len() && (events[i] == AuthEvent::RegisterReply { present: true, long_enough: true }
                || events[i] == AuthEvent::LoginChecked { valid: true }),
{
    lemma_accept_needs(AuthState::Username { asked: 1 }, events, policy);
}

/// Which credentials `state` already stands on: 0 none, 1 a username, 2 a username and a
/// password.
pub open spec fn credentials(state: AuthState) -> nat {
    match state {
        AuthState::Username { .. } | AuthState::Closed => 0,
        AuthState::Register { .. } | AuthState::Login | AuthState::Checking => 1,
        AuthState::Accepted => 2,
    }
}

proof fn lemma_accept_needs(state: AuthState, events: Seq<AuthEvent>, policy: AuthPolicy)
    requires
        run_auth(state, events, policy) == AuthState::Accepted,
        state != AuthState::Accepted,
    ensures
        credentials(state) == 0 ==> exists|i: int| #![trigger events[i]] 0 <= i < events.len() && events[i] matches AuthEvent::UsernameReply {
            present: true,
            acceptable: true,
            ..
        },
        exists|i: int|
            #![trigger events[i]]
            0 <= i < events.len() && (events[i] == AuthEvent::RegisterReply { present: true, long_enough: true }
                || events[i] == AuthEvent::LoginChecked { valid: true }),
    decreases events.len(),
{
    if events.len() == 0 {
    } else {
        let next = spec_auth_step(state, events[0], policy).0;
        let rest = events.drop_first();
        if next == AuthState::Accepted {
            assert(events[0] == AuthEvent::RegisterReply { present: true, long_enough: true } || events[0]
                == AuthEvent::LoginChecked { valid: true });
            assert(credentials(state) != 0);
        } else {
            if next == AuthState::Closed {
                lemma_closed_stays(rest, policy);
            }
            lemma_accept_needs(next, rest, policy);
            if credentials(state) == 0 && credentials(next) != 0 {
                assert(events[0] matches AuthEvent::UsernameReply { present: true, acceptable: true, .. });
            }
            if credentials(state) == 0 && credentials(next) == 0 {
                let i = choose|i: int| #![trigger rest[i]] 0 <= i < rest.len() && rest[i] matches AuthEvent::UsernameReply {
                    present: true,
                    acceptable: true,
                    ..
                };
                assert(events[i + 1] == rest[i]);
            }
            let j = choose|j: int|
                #![trigger rest[j]]
                0 <= j < rest.len() && (rest[j] == AuthEvent::RegisterReply { present: true, long_enough: true }
                    || rest[j] == AuthEvent::LoginChecked { valid: true });
            assert(events[j + 1] == rest[j]);
        }
    }
}

proof fn lemma_closed_stays(events: Seq<AuthEvent>, policy: AuthPolicy)
    ensures
        run_auth(AuthState::Closed, events, policy) == AuthState::Closed,
    decreases events.len(),
{
    if events.len() > 0 {
        lemma_closed_stays(events.drop_first(), policy);
    }
}

/// What the client remembers of the server's asks during authentication: a username or a new
/// user's password asked for again means the last answer was refused.
#[derive(Clone, Copy, PartialEq, Eq, Structural, Debug)]
pub struct PromptMemory {
    pub username_asked: bool,
    pub password_asked: bool,
}

impl PromptMemory {
    /// Nothing asked yet.
    pub fn new() -> (r: Self)
        ensures
            !r.username_asked && !r.password_asked,
    {
        PromptMemory { username_asked: false, password_asked: false }
    }

    /// The server asks for a username: whether the previous one was refused (it was asked for
    /// before).
    pub fn username_ask(&mut self) -> (rejected: bool)
        ensures
            rejected == old(self).username_asked,
            final(self).username_asked,
            final(self).password_asked == old(self).password_asked,
    {
        let rejected = self.username_asked;
        self.username_asked = true;
        rejected
    }

    /// The server asks for a new user's password: whether the previous one was refused.
    pub fn password_ask(&mut self) -> (rejected: bool)
        ensures
            rejected == old(self).password_asked,
            final(self).password_asked,
            final(self).username_asked == old(self).username_asked,
    {
        let rejected = self.password_asked;
        self.password_asked = true;
        rejected
    }
}

} // verus!
