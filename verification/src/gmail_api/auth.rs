//! Authentication: where the credentials are kept, the steps that lead to a
//! token, and the result. The steps themselves (the keyring, the file with
//! the client secret, the OAuth flow) are the caller's; what comes next is
//! decided here.
use vstd::prelude::*;

verus! {

/// The keyring service under which the credentials are kept.
pub const KEYRING_SERVICE_NAME: &'static str = "rmail-gmail-credentials";

/// The keyring user under which the credentials are kept.
pub const KEYRING_USERNAME: &'static str = "default_user";

/// The scope that the client asks a token for.
pub const MAIL_SCOPE: &'static str = "https://mail.google.com/";

/// The OAuth flow of an installed application, as the remote service runs
/// it.
#[derive(Debug, Clone, Copy, PartialEq, Eq, Structural)]
pub struct RealOAuthFlow;

/// What authentication gave: the token, and whether the client secret had
/// to be read from its file.
#[derive(Debug)]
pub struct AuthResult {
    pub token: String,
    pub client_secret_loaded_from_file: bool,
}

/// What the keyring holds: the client secret in its serialised form, and
/// the token.
#[derive(Debug)]
pub struct SecureCredentials {
    pub client_secret: Option<String>,
    pub token: Option<String>,
}

pub struct SecureCredentialsView {
    pub client_secret: Option<Seq<char>>,
    pub token: Option<Seq<char>>,
}

impl DeepView for SecureCredentials {
    type V = SecureCredentialsView;

    open spec fn deep_view(&self) -> SecureCredentialsView {
        SecureCredentialsView {
            client_secret: self.client_secret.deep_view(),
            token: self.token.deep_view(),
        }
    }
}

impl SecureCredentials {
    /// Credentials that hold nothing.
    pub fn new() -> (credentials: Self)
        ensures
            credentials.deep_view() == (SecureCredentialsView { client_secret: None, token: None }),
    {
        SecureCredentials { client_secret: None, token: None }
    }

    /// These credentials with the given client secret.
    pub fn with_client_secret(self, secret: String) -> (credentials: Self)
        ensures
            credentials.deep_view() == (SecureCredentialsView {
                client_secret: Some(secret@),
                ..self.deep_view()
            }),
    {
        SecureCredentials { client_secret: Some(secret), token: self.token }
    }

    /// These credentials with the given token.
    pub fn with_token(self, token: String) -> (credentials: Self)
        ensures
            credentials.deep_view() == (SecureCredentialsView {
                token: Some(token@),
                ..self.deep_view()
            }),
    {
        SecureCredentials { client_secret: self.client_secret, token: Some(token) }
    }
}

/// Where authentication stands: what it waits for.
#[derive(Debug, Clone, Copy, PartialEq, Eq, Structural)]
pub enum AuthPhase {
    /// The credentials, to look for the client secret.
    FindSecret,
    /// The file with the client secret.
    ReadFile,
    /// The credentials, to add the client secret from the file.
    MergeSecret,
    /// The credentials with the client secret being saved.
    SavingSecret,
    /// The credentials, to look for a token.
    FindToken,
    /// The OAuth flow.
    Flow,
    /// The credentials, to add the new token.
    MergeToken,
    /// The credentials with the new token being saved.
    SavingToken,
    /// The credentials being cleared before the second attempt.
    Clearing,
    /// Nothing: authentication has ended.
    Finished,
}

/// What the caller is to do next.
#[derive(Debug)]
pub enum AuthStep {
    /// Read the credentials from the keyring; answer with `Credentials`,
    /// with `None` where they cannot be read.
    ReadCredentials,
    /// Read the client secret from its file; answer with `SecretFile`.
    ReadSecretFile,
    /// Write the credentials to the keyring; answer with `Saved`, whether
    /// or not writing succeeded.
    SaveCredentials(SecureCredentials),
    /// Run the OAuth flow with the client secret; answer with `Flow`.
    RunFlow(String),
    /// Delete the credentials from the keyring; answer with `Cleared`.
    ClearCredentials,
    /// Authentication succeeded.
    Done(AuthResult),
    /// Authentication failed, with the reason.
    Failed(String),
}

pub enum AuthStepView {
    ReadCredentials,
    ReadSecretFile,
    SaveCredentials(SecureCredentialsView),
    RunFlow(Seq<char>),
    ClearCredentials,
    Done { token: Seq<char>, from_file: bool },
    Failed(Seq<char>),
}

impl DeepView for AuthStep {
    type V = AuthStepView;

    open spec fn deep_view(&self) -> AuthStepView {
        match self {
            AuthStep::ReadCredentials => AuthStepView::ReadCredentials,
            AuthStep::ReadSecretFile => AuthStepView::ReadSecretFile,
            AuthStep::SaveCredentials(c) => AuthStepView::SaveCredentials(c.deep_view()),
            AuthStep::RunFlow(secret) => AuthStepView::RunFlow(secret@),
            AuthStep::ClearCredentials => AuthStepView::ClearCredentials,
            AuthStep::Done(result) => AuthStepView::Done {
                token: result.token@,
                from_file: result.client_secret_loaded_from_file,
            },
            AuthStep::Failed(reason) => AuthStepView::Failed(reason@),
        }
    }
}

/// What the caller reports back.
#[derive(Debug)]
pub enum AuthEvent {
    Credentials(Option<SecureCredentials>),
    SecretFile(Option<String>),
    Saved,
    Flow(Result<String, String>),
    Cleared,
}

pub enum AuthEventView {
    Credentials(Option<SecureCredentialsView>),
    SecretFile(Option<Seq<char>>),
    Saved,
    Flow(Result<Seq<char>, Seq<char>>),
    Cleared,
}

impl DeepView for AuthEvent {
    type V = AuthEventView;

    open spec fn deep_view(&self) -> AuthEventView {
        match self {
            AuthEvent::Credentials(c) => AuthEventView::Credentials(c.deep_view()),
            AuthEvent::SecretFile(s) => AuthEventView::SecretFile(s.deep_view()),
            AuthEvent::Saved => AuthEventView::Saved,
            AuthEvent::Flow(r) => AuthEventView::Flow(
                match r {
                    Ok(t) => Ok(t@),
                    Err(e) => Err(e@),
                },
            ),
            AuthEvent::Cleared => AuthEventView::Cleared,
        }
    }
}

/// An authentication under way.
pub struct Authentication {
    phase: AuthPhase,
    retried: bool,
    from_file: bool,
    secret: Option<String>,
    token: Option<String>,
}

pub struct AuthenticationView {
    pub phase: AuthPhase,
    /// Whether this is the second attempt.
    pub retried: bool,
    /// Whether the client secret was read from its file in any attempt.
    pub from_file: bool,
    pub secret: Option<Seq<char>>,
    pub token: Option<Seq<char>>,
}

impl View for Authentication {
    type V = AuthenticationView;

    closed spec fn view(&self) -> AuthenticationView {
        AuthenticationView {
            phase: self.phase,
            retried: self.retried,
            from_file: self.from_file,
            secret: self.secret.deep_view(),
            token: self.token.deep_view(),
        }
    }
}

/// The text of an optional text, empty where there is none.
pub open spec fn text_of(text: Option<Seq<char>>) -> Seq<char> {
    match text {
        Some(t) => t,
        None => Seq::empty(),
    }
}

/// The reason given when the client secret cannot be had.
pub open spec fn secret_missing() -> Seq<char> {
    "Client secret not found. Please check README for instructions."@
}

/// The reason given when the second attempt fails too.
pub open spec fn failed_after_retry() -> Seq<char> {
    "Authentication failed after retry."@
}

impl AuthenticationView {
    /// The start: nothing is known, the credentials are asked for.
    pub open spec fn start() -> AuthenticationView {
        AuthenticationView {
            phase: AuthPhase::FindSecret,
            retried: false,
            from_file: false,
            secret: None,
            token: None,
        }
    }

    /// The step that an authentication waits for, where it waits for one.
    pub open spec fn pending(self) -> AuthStepView {
        match self.phase {
            AuthPhase::FindSecret | AuthPhase::MergeSecret | AuthPhase::FindToken
            | AuthPhase::MergeToken => AuthStepView::ReadCredentials,
            AuthPhase::ReadFile => AuthStepView::ReadSecretFile,
            AuthPhase::SavingSecret | AuthPhase::SavingToken => AuthStepView::SaveCredentials(
                SecureCredentialsView { client_secret: self.secret, token: self.token },
            ),
            AuthPhase::Flow => AuthStepView::RunFlow(text_of(self.secret)),
            AuthPhase::Clearing => AuthStepView::ClearCredentials,
            AuthPhase::Finished => AuthStepView::Failed("Authentication has ended."@),
        }
    }

    /// With the client secret in hand: the first attempt looks for a token
    /// in the keyring, the second runs the flow at once.
    pub open spec fn with_secret(self, secret: Seq<char>) -> (AuthenticationView, AuthStepView) {
        if self.retried {
            (
                AuthenticationView { phase: AuthPhase::Flow, secret: Some(secret), ..self },
                AuthStepView::RunFlow(secret),
            )
        } else {
            (
                AuthenticationView { phase: AuthPhase::FindToken, secret: Some(secret), ..self },
                AuthStepView::ReadCredentials,
            )
        }
    }

    /// What an answer of the caller leads to. The client secret comes from
    /// the keyring or, failing that, from its file, from where it is saved
    /// to the keyring. A token in the keyring ends the first attempt at
    /// once; else the flow is run and its token saved. A failed flow clears
    /// the keyring and starts the second attempt, which is the last. An
    /// answer that the authentication does not wait for changes nothing and
    /// brings the pending step again.
    pub open spec fn next(self, event: AuthEventView) -> (AuthenticationView, AuthStepView) {
        match (self.phase, event) {
            (AuthPhase::FindSecret, AuthEventView::Credentials(Some(credentials))) => {
                match credentials.client_secret {
                    Some(secret) => self.with_secret(secret),
                    None => (
                        AuthenticationView { phase: AuthPhase::ReadFile, ..self },
                        AuthStepView::ReadSecretFile,
                    ),
                }
            },
            (AuthPhase::FindSecret, AuthEventView::Credentials(None)) => (
                AuthenticationView { phase: AuthPhase::ReadFile, ..self },
                AuthStepView::ReadSecretFile,
            ),
            (AuthPhase::ReadFile, AuthEventView::SecretFile(Some(secret))) => (
                AuthenticationView {
                    phase: AuthPhase::MergeSecret,
                    secret: Some(secret),
                    from_file: true,
                    ..self
                },
                AuthStepView::ReadCredentials,
            ),
            (AuthPhase::ReadFile, AuthEventView::SecretFile(None)) => (
                AuthenticationView { phase: AuthPhase::Finished, ..self },
                AuthStepView::Failed(secret_missing()),
            ),
            (AuthPhase::MergeSecret, AuthEventView::Credentials(credentials)) => {
                let token = match credentials {
                    Some(c) => c.token,
                    None => None,
                };
                (
                    AuthenticationView {
                        phase: AuthPhase::SavingSecret,
                        secret: Some(text_of(self.secret)),
                        token,
                        ..self
                    },
                    AuthStepView::SaveCredentials(
                        SecureCredentialsView { client_secret: Some(text_of(self.secret)), token },
                    ),
                )
            },
            (AuthPhase::SavingSecret, AuthEventView::Saved) => self.with_secret(text_of(self.secret)),
            (AuthPhase::FindToken, AuthEventView::Credentials(Some(credentials))) => {
                match credentials.token {
                    Some(token) => (
                        AuthenticationView {
                            phase: AuthPhase::Finished,
                            token: Some(token),
                            ..self
                        },
                        AuthStepView::Done { token, from_file: self.from_file },
                    ),
                    None => (
                        AuthenticationView { phase: AuthPhase::Flow, ..self },
                        AuthStepView::RunFlow(text_of(self.secret)),
                    ),
                }
            },
            (AuthPhase::FindToken, AuthEventView::Credentials(None)) => (
                AuthenticationView { phase: AuthPhase::Flow, ..self },
                AuthStepView::RunFlow(text_of(self.secret)),
            ),
            (AuthPhase::Flow, AuthEventView::Flow(Ok(token))) => (
                AuthenticationView { phase: AuthPhase::MergeToken, token: Some(token), ..self },
                AuthStepView::ReadCredentials,
            ),
            (AuthPhase::Flow, AuthEventView::Flow(Err(reason))) => if self.retried {
                (
                    AuthenticationView { phase: AuthPhase::Finished, ..self },
                    AuthStepView::Failed(failed_after_retry()),
                )
            } else {
                (
                    AuthenticationView { phase: AuthPhase::Clearing, ..self },
                    AuthStepView::ClearCredentials,
                )
            },
            (AuthPhase::MergeToken, AuthEventView::Credentials(credentials)) => (
                AuthenticationView {
                    phase: AuthPhase::SavingToken,
                    secret: Some(text_of(self.secret)),
                    token: Some(text_of(self.token)),
                    ..self
                },
                AuthStepView::SaveCredentials(
                    SecureCredentialsView {
                        client_secret: Some(text_of(self.secret)),
                        token: Some(text_of(self.token)),
                    },
                ),
            ),
            (AuthPhase::SavingToken, AuthEventView::Saved) => (
                AuthenticationView { phase: AuthPhase::Finished, ..self },
                AuthStepView::Done { token: text_of(self.token), from_file: self.from_file },
            ),
            (AuthPhase::Clearing, AuthEventView::Cleared) => (
                AuthenticationView {
                    phase: AuthPhase::FindSecret,
                    retried: true,
                    secret: None,
                    token: None,
                    ..self
                },
                AuthStepView::ReadCredentials,
            ),
            _ => (self, self.pending()),
        }
    }
}

/// The text of an optional text, empty where there is none.
fn text_or_empty(text: &Option<String>) -> (r: String)
    ensures
        r@ == text_of(text.deep_view()),
{
    match text {
        Some(t) => t.clone(),
        None => String::new(),
    }
}

impl Authentication {
    /// Starts an authentication. Its first step is to read the credentials.
    pub fn start() -> (begun: (Authentication, AuthStep))
        ensures
            begun.0@ == AuthenticationView::start(),
            begun.1.deep_view() == AuthStepView::ReadCredentials,
    {
        (
            Authentication {
                phase: AuthPhase::FindSecret,
                retried: false,
                from_file: false,
                secret: None,
                token: None,
            },
            AuthStep::ReadCredentials,
        )
    }

    /// Whether the authentication has ended.
    pub fn is_finished(&self) -> (r: bool)
        ensures
            r == (self@.phase == AuthPhase::Finished),
    {
        self.phase == AuthPhase::Finished
    }

    /// The step that the authentication waits for.
    fn pending_step(&self) -> (step: AuthStep)
        ensures
            step.deep_view() == self@.pending(),
    {
        match self.phase {
            AuthPhase::FindSecret => AuthStep::ReadCredentials,
            AuthPhase::MergeSecret => AuthStep::ReadCredentials,
            AuthPhase::FindToken => AuthStep::ReadCredentials,
            AuthPhase::MergeToken => AuthStep::ReadCredentials,
            AuthPhase::ReadFile => AuthStep::ReadSecretFile,
            AuthPhase::SavingSecret => AuthStep::SaveCredentials(
                SecureCredentials { client_secret: self.secret.clone(), token: self.token.clone() },
            ),
            AuthPhase::SavingToken => AuthStep::SaveCredentials(
                SecureCredentials { client_secret: self.secret.clone(), token: self.token.clone() },
            ),
            AuthPhase::Flow => AuthStep::RunFlow(text_or_empty(&self.secret)),
            AuthPhase::Clearing => AuthStep::ClearCredentials,
            AuthPhase::Finished => AuthStep::Failed("Authentication has ended.".to_string()),
        }
    }

    /// Goes on with the client secret in hand.
    fn go_on_with(&mut self, secret: String) -> (step: AuthStep)
        ensures
            (final(self)@, step.deep_view()) == old(self)@.with_secret(secret@),
    {
        if self.retried {
            self.phase = AuthPhase::Flow;
            self.secret = Some(secret.clone());
            AuthStep::RunFlow(secret)
        } else {
            self.phase = AuthPhase::FindToken;
            self.secret = Some(secret);
            AuthStep::ReadCredentials
        }
    }

    /// Takes the caller's answer to the last step and returns the next
    /// one.
    pub fn advance(&mut self, event: AuthEvent) -> (step: AuthStep)
        ensures
            (final(self)@, step.deep_view()) == old(self)@.next(event.deep_view()),
    {
        match (self.phase, event) {
            (AuthPhase::FindSecret, AuthEvent::Credentials(Some(credentials))) => {
                match credentials.client_secret {
                    Some(secret) => self.go_on_with(secret),
                    None => {
                        self.phase = AuthPhase::ReadFile;
                        AuthStep::ReadSecretFile
                    },
                }
            },
            (AuthPhase::FindSecret, AuthEvent::Credentials(None)) => {
                self.phase = AuthPhase::ReadFile;
                AuthStep::ReadSecretFile
            },
            (AuthPhase::ReadFile, AuthEvent::SecretFile(Some(secret))) => {
                self.phase = AuthPhase::MergeSecret;
                self.secret = Some(secret);
                self.from_file = true;
                AuthStep::ReadCredentials
            },
            (AuthPhase::ReadFile, AuthEvent::SecretFile(None)) => {
                self.phase = AuthPhase::Finished;
                AuthStep::Failed(
                    "Client secret not found. Please check README for instructions.".to_string(),
                )
            },
            (AuthPhase::MergeSecret, AuthEvent::Credentials(credentials)) => {
                self.phase = AuthPhase::SavingSecret;
                let kept = match credentials {
                    Some(c) => c,
                    None => SecureCredentials::new(),
                };
                let secret = text_or_empty(&self.secret);
                self.secret = Some(secret.clone());
                self.token = kept.token.clone();
                AuthStep::SaveCredentials(kept.with_client_secret(secret))
            },
            (AuthPhase::SavingSecret, AuthEvent::Saved) => {
                let secret = text_or_empty(&self.secret);
                self.go_on_with(secret)
            },
            (AuthPhase::FindToken, AuthEvent::Credentials(Some(credentials))) => {
                match credentials.token {
                    Some(token) => {
                        self.phase = AuthPhase::Finished;
                        self.token = Some(token.clone());
                        AuthStep::Done(
                            AuthResult { token, client_secret_loaded_from_file: self.from_file },
                        )
                    },
                    None => {
                        self.phase = AuthPhase::Flow;
                        AuthStep::RunFlow(text_or_empty(&self.secret))
                    },
                }
            },
            (AuthPhase::FindToken, AuthEvent::Credentials(None)) => {
                self.phase = AuthPhase::Flow;
                AuthStep::RunFlow(text_or_empty(&self.secret))
            },
            (AuthPhase::Flow, AuthEvent::Flow(Ok(token))) => {
                self.phase = AuthPhase::MergeToken;
                self.token = Some(token);
                AuthStep::ReadCredentials
            },
            (AuthPhase::Flow, AuthEvent::Flow(Err(_))) => {
                if self.retried {
                    self.phase = AuthPhase::Finished;
                    AuthStep::Failed("Authentication failed after retry.".to_string())
                } else {
                    self.phase = AuthPhase::Clearing;
                    AuthStep::ClearCredentials
                }
            },
            (AuthPhase::MergeToken, AuthEvent::Credentials(credentials)) => {
                self.phase = AuthPhase::SavingToken;
                let kept = match credentials {
                    Some(c) => c,
                    None => SecureCredentials::new(),
                };
                let secret = text_or_empty(&self.secret);
                let token = text_or_empty(&self.token);
                self.secret = Some(secret.clone());
                self.token = Some(token.clone());
                AuthStep::SaveCredentials(kept.with_client_secret(secret).with_token(token))
            },
            (AuthPhase::SavingToken, AuthEvent::Saved) => {
                self.phase = AuthPhase::Finished;
                AuthStep::Done(
                    AuthResult {
                        token: text_or_empty(&self.token),
                        client_secret_loaded_from_file: self.from_file,
                    },
                )
            },
            (AuthPhase::Clearing, AuthEvent::Cleared) => {
                self.phase = AuthPhase::FindSecret;
                self.retried = true;
                self.secret = None;
                self.token = None;
                AuthStep::ReadCredentials
            },
            _ => self.pending_step(),
        }
    }
}

/// The flow is run twice at most: a flow that fails in the second attempt
/// ends the authentication.
pub proof fn lemma_second_failure_is_final(auth: AuthenticationView, reason: Seq<char>)
    requires
        auth.phase == AuthPhase::Flow,
        auth.retried,
    ensures
        auth.next(AuthEventView::Flow(Err(reason))).0.phase == AuthPhase::Finished,
        auth.next(AuthEventView::Flow(Err(reason))).1 == AuthStepView::Failed(failed_after_retry()),
{
}

/// Once the client secret was read from its file, every later result says
/// so.
pub proof fn lemma_from_file_is_kept(auth: AuthenticationView, event: AuthEventView)
    requires
        auth.from_file,
    ensures
        auth.next(event).0.from_file,
        auth.next(event).1 matches AuthStepView::Done { token, from_file } ==> from_file,
{
}

} // verus!
