use vstd::prelude::*;

verus! {

/// Why a collaborator call failed.
#[derive(Clone, Copy, Debug, PartialEq, Eq, Structural)]
pub enum ServiceError {
    /// The test double was called without a configured answer.
    Unconfigured,
}

/// A call made on the credential service, with its arguments.
#[derive(Debug, PartialEq, Eq)]
pub enum SecurityCall {
    HashPassword { raw_password: String },
    VerifyPassword { stored_password: String, attempted_password: String },
}

/// Mathematical view of a `SecurityCall`.
pub enum SecurityCallView {
    HashPassword { raw_password: Seq<char> },
    VerifyPassword { stored_password: Seq<char>, attempted_password: Seq<char> },
}

impl View for SecurityCall {
    type V = SecurityCallView;

    open spec fn view(&self) -> SecurityCallView {
        match self {
            SecurityCall::HashPassword { raw_password } => SecurityCallView::HashPassword { raw_password: raw_password@ },
            SecurityCall::VerifyPassword { stored_password, attempted_password } => SecurityCallView::VerifyPassword {
                stored_password: stored_password@,
                attempted_password: attempted_password@,
            },
        }
    }
}

/// A call made on the token service, with its arguments.
#[derive(Debug, PartialEq, Eq)]
pub enum TokenCall {
    NewToken { user_id: i64, email: String },
    GetUserIdFromToken { token: String },
}

/// Mathematical view of a `TokenCall`.
pub enum TokenCallView {
    NewToken { user_id: i64, email: Seq<char> },
    GetUserIdFromToken { token: Seq<char> },
}

impl View for TokenCall {
    type V = TokenCallView;

    open spec fn view(&self) -> TokenCallView {
        match self {
            TokenCall::NewToken { user_id, email } => TokenCallView::NewToken { user_id: *user_id, email: email@ },
            TokenCall::GetUserIdFromToken { token } => TokenCallView::GetUserIdFromToken { token: token@ },
        }
    }
}

/// Test double of the credential service: answers with what a test configured
/// and logs every call.
pub struct MockSecurityService {
    hashed: Option<String>,
    verdict: Option<bool>,
    calls: Vec<SecurityCall>,
}

impl MockSecurityService {
    /// The answer configured for `hash_password`.
    pub closed spec fn hash_answer(&self) -> Option<Seq<char>> {
        match self.hashed {
            Some(h) => Some(h@),
            None => None,
        }
    }

    /// The answer configured for `verify_password`.
    pub closed spec fn verify_answer(&self) -> Option<bool> {
        self.verdict
    }

    /// The calls made so far, oldest first.
    pub closed spec fn calls(&self) -> Seq<SecurityCallView> {
        self.calls@.map_values(|c: SecurityCall| c@)
    }

    /// No answer configured and no call logged.
    pub open spec fn unconfigured(&self) -> bool {
        self.hash_answer() is None && self.verify_answer() is None && self.calls() == Seq::<SecurityCallView>::empty()
    }

    pub fn new() -> (r: MockSecurityService)
        ensures
            r.unconfigured(),
    {
        let r = MockSecurityService { hashed: None, verdict: None, calls: Vec::new() };
        assert(r.calls() =~= Seq::<SecurityCallView>::empty());
        r
    }

    /// The calls made so far, oldest first.
    pub fn recorded_calls(&self) -> (r: &Vec<SecurityCall>)
        ensures
            r@.map_values(|c: SecurityCall| c@) == self.calls(),
    {
        &self.calls
    }

    fn log(&mut self, call: SecurityCall)
        ensures
            final(self).calls() == old(self).calls().push(call@),
            final(self).hash_answer() == old(self).hash_answer(),
            final(self).verify_answer() == old(self).verify_answer(),
    {
        self.calls.push(call);
        assert(self.calls() =~= old(self).calls().push(call@));
    }

    /// Makes `hash_password` answer `hashed`.
    pub fn expect_hash_password(&mut self, hashed: String)
        ensures
            final(self).hash_answer() == Some(hashed@),
            final(self).verify_answer() == old(self).verify_answer(),
            final(self).calls() == old(self).calls(),
    {
        self.hashed = Some(hashed);
    }

    /// Makes `verify_password` answer `verdict`.
    pub fn expect_verify_password(&mut self, verdict: bool)
        ensures
            final(self).verify_answer() == Some(verdict),
            final(self).hash_answer() == old(self).hash_answer(),
            final(self).calls() == old(self).calls(),
    {
        self.verdict = Some(verdict);
    }

    pub fn hash_password(&mut self, raw_password: &str) -> (r: Result<String, ServiceError>)
        ensures
            final(self).calls() == old(self).calls().push(SecurityCallView::HashPassword { raw_password: raw_password@ }),
            final(self).hash_answer() == old(self).hash_answer(),
            final(self).verify_answer() == old(self).verify_answer(),
            match old(self).hash_answer() {
                Some(h) => r is Ok && r->Ok_0@ == h,
                None => r == Err::<String, ServiceError>(ServiceError::Unconfigured),
            },
    {
        self.log(SecurityCall::HashPassword { raw_password: raw_password.to_owned() });
        match &self.hashed {
            Some(h) => Ok(h.clone()),
            None => Err(ServiceError::Unconfigured),
        }
    }

    pub fn verify_password(&mut self, stored_password: &str, attempted_password: &str) -> (r: Result<bool, ServiceError>)
        ensures
            final(self).calls() == old(self).calls().push(SecurityCallView::VerifyPassword {
                stored_password: stored_password@,
                attempted_password: attempted_password@,
            }),
            final(self).hash_answer() == old(self).hash_answer(),
            final(self).verify_answer() == old(self).verify_answer(),
            match old(self).verify_answer() {
                Some(v) => r == Ok::<bool, ServiceError>(v),
                None => r == Err::<bool, ServiceError>(ServiceError::Unconfigured),
            },
    {
        self.log(SecurityCall::VerifyPassword {
            stored_password: stored_password.to_owned(),
            attempted_password: attempted_password.to_owned(),
        });
        match self.verdict {
            Some(v) => Ok(v),
            None => Err(ServiceError::Unconfigured),
        }
    }
}

/// Test double of the token service: answers with what a test configured and
/// logs every call.
pub struct MockTokenService {
    token: Option<String>,
    user_id: Option<i64>,
    calls: Vec<TokenCall>,
}

impl MockTokenService {
    /// The answer configured for `new_token`.
    pub closed spec fn token_answer(&self) -> Option<Seq<char>> {
        match self.token {
            Some(t) => Some(t@),
            None => None,
        }
    }

    /// The answer configured for `get_user_id_from_token`.
    pub closed spec fn user_id_answer(&self) -> Option<i64> {
        self.user_id
    }

    /// The calls made so far, oldest first.
    pub closed spec fn calls(&self) -> Seq<TokenCallView> {
        self.calls@.map_values(|c: TokenCall| c@)
    }

    /// No answer configured and no call logged.
    pub open spec fn unconfigured(&self) -> bool {
        self.token_answer() is None && self.user_id_answer() is None && self.calls() == Seq::<TokenCallView>::empty()
    }

    pub fn new() -> (r: MockTokenService)
        ensures
            r.unconfigured(),
    {
        let r = MockTokenService { token: None, user_id: None, calls: Vec::new() };
        assert(r.calls() =~= Seq::<TokenCallView>::empty());
        r
    }

    /// The calls made so far, oldest first.
    pub fn recorded_calls(&self) -> (r: &Vec<TokenCall>)
        ensures
            r@.map_values(|c: TokenCall| c@) == self.calls(),
    {
        &self.calls
    }

    fn log(&mut self, call: TokenCall)
        ensures
            final(self).calls() == old(self).calls().push(call@),
            final(self).token_answer() == old(self).token_answer(),
            final(self).user_id_answer() == old(self).user_id_answer(),
    {
        self.calls.push(call);
        assert(self.calls() =~= old(self).calls().push(call@));
    }

    /// Makes `new_token` answer `token`.
    pub fn expect_new_token(&mut self, token: String)
        ensures
            final(self).token_answer() == Some(token@),
            final(self).user_id_answer() == old(self).user_id_answer(),
            final(self).calls() == old(self).calls(),
    {
        self.token = Some(token);
    }

    /// Makes `get_user_id_from_token` answer `user_id`.
    pub fn expect_get_user_id_from_token(&mut self, user_id: i64)
        ensures
            final(self).user_id_answer() == Some(user_id),
            final(self).token_answer() == old(self).token_answer(),
            final(self).calls() == old(self).calls(),
    {
        self.user_id = Some(user_id);
    }

    pub fn new_token(&mut self, user_id: i64, email: &str) -> (r: Result<String, ServiceError>)
        ensures
            final(self).calls() == old(self).calls().push(TokenCallView::NewToken { user_id, email: email@ }),
            final(self).token_answer() == old(self).token_answer(),
            final(self).user_id_answer() == old(self).user_id_answer(),
            match old(self).token_answer() {
                Some(t) => r is Ok && r->Ok_0@ == t,
                None => r == Err::<String, ServiceError>(ServiceError::Unconfigured),
            },
    {
        self.log(TokenCall::NewToken { user_id, email: email.to_owned() });
        match &self.token {
            Some(t) => Ok(t.clone()),
            None => Err(ServiceError::Unconfigured),
        }
    }

    pub fn get_user_id_from_token(&mut self, token: &str) -> (r: Result<i64, ServiceError>)
        ensures
            final(self).calls() == old(self).calls().push(TokenCallView::GetUserIdFromToken { token: token@ }),
            final(self).token_answer() == old(self).token_answer(),
            final(self).user_id_answer() == old(self).user_id_answer(),
            match old(self).user_id_answer() {
                Some(id) => r == Ok::<i64, ServiceError>(id),
                None => r == Err::<i64, ServiceError>(ServiceError::Unconfigured),
            },
    {
        self.log(TokenCall::GetUserIdFromToken { token: token.to_owned() });
        match self.user_id {
            Some(id) => Ok(id),
            None => Err(ServiceError::Unconfigured),
        }
    }
}

} // verus!
