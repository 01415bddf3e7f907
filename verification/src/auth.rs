//! The authentication guard: each request is checked against the strategy
//! before it reaches the dispatcher.
use vstd::prelude::*;
use crate::json::JsonValue;
use crate::rpc::{RpcErrorObj, RpcRequest, RpcResponse, RpcServer};
use crate::strmap::StringMap;

verus! {

/// The request carries a key that is not valid.
pub const AUTH_ERROR: i64 = -32001;

/// The request carries no key.
pub const AUTH_REQUIRED: i64 = -32002;

/// Where the guard looks for a request's key.
#[derive(Debug, Clone, Copy, PartialEq, Eq)]
pub enum AuthStrategy {
    /// No key is asked for.
    NoAuth,
    /// The key is the string member `api_key` of the parameters.
    ApiKeyInParams,
    /// The key travels in a transport header. The transport checks it; the
    /// guard lets every request pass.
    ApiKeyInHeader,
}

/// The guard: a strategy and the set of valid keys.
#[derive(Clone)]
pub struct AuthMiddleware {
    strategy: AuthStrategy,
    valid_keys: StringMap<()>,
}

/// The message that goes with each of the guard's error codes.
pub open spec fn auth_message(code: i64) -> Seq<char> {
    if code == AUTH_REQUIRED {
        "API key required in params"@
    } else {
        "Invalid API key"@
    }
}

impl AuthMiddleware {
    /// The guard's invariant.
    pub closed spec fn wf(&self) -> bool {
        self.valid_keys.wf()
    }

    /// The strategy that the guard was made with.
    pub closed spec fn strategy(&self) -> AuthStrategy {
        self.strategy
    }

    /// The set of valid keys.
    pub closed spec fn keys(&self) -> Set<Seq<char>> {
        self.valid_keys@.dom()
    }

    /// The error code that the guard answers `params` with, or `None` where it
    /// lets them pass. Under `ApiKeyInParams` parameters without a string
    /// member `api_key` get `AUTH_REQUIRED`, and a key outside the valid set
    /// gets `AUTH_ERROR`; the other strategies let everything pass.
    pub open spec fn verdict(&self, params: JsonValue) -> Option<i64> {
        match self.strategy() {
            AuthStrategy::NoAuth => None,
            AuthStrategy::ApiKeyInHeader => None,
            AuthStrategy::ApiKeyInParams => match params.str_member("api_key"@) {
                None => Some(AUTH_REQUIRED),
                Some(key) => if self.keys().contains(key) {
                    None
                } else {
                    Some(AUTH_ERROR)
                },
            },
        }
    }

    /// A guard with the given strategy and no valid key.
    pub fn new(strategy: AuthStrategy) -> (r: Self)
        ensures
            r.wf(),
            r.strategy() == strategy,
            r.keys() == Set::<Seq<char>>::empty(),
    {
        let r = AuthMiddleware { strategy, valid_keys: StringMap::new() };
        assert(r.keys() =~= Set::<Seq<char>>::empty());
        r
    }

    /// Makes `key` valid.
    pub fn add_key(&mut self, key: String)
        requires
            old(self).wf(),
        ensures
            final(self).wf(),
            final(self).strategy() == old(self).strategy(),
            final(self).keys() == old(self).keys().insert(key@),
    {
        self.valid_keys.insert(key, ());
        assert(self.keys() =~= old(self).keys().insert(key@));
    }

    /// Makes `key` invalid.
    pub fn remove_key(&mut self, key: &str)
        requires
            old(self).wf(),
        ensures
            final(self).wf(),
            final(self).strategy() == old(self).strategy(),
            final(self).keys() == old(self).keys().remove(key@),
    {
        let _ = self.valid_keys.remove(key);
        assert(self.keys() =~= old(self).keys().remove(key@));
    }

    /// Whether `key` is valid.
    pub fn is_valid_key(&self, key: &str) -> (r: bool)
        requires
            self.wf(),
        ensures
            r == self.keys().contains(key@),
    {
        self.valid_keys.contains_key(key)
    }

    /// Checks one request against the strategy.
    pub fn validate_request(&self, req: &RpcRequest) -> (r: Result<(), RpcErrorObj>)
        requires
            self.wf(),
        ensures
            match r {
                Ok(_) => self.verdict(req.params) is None,
                Err(e) => self.verdict(req.params) == Some(e.code) && e.message@ == auth_message(
                    e.code,
                ) && e.data is None,
            },
    {
        match self.strategy {
            AuthStrategy::NoAuth => Ok(()),
            AuthStrategy::ApiKeyInParams => self.validate_params_key(req),
            AuthStrategy::ApiKeyInHeader => Ok(()),
        }
    }

    /// Checks the member `api_key` of the request's parameters against the
    /// valid keys.
    fn validate_params_key(&self, req: &RpcRequest) -> (r: Result<(), RpcErrorObj>)
        requires
            self.wf(),
        ensures
            match req.params.str_member("api_key"@) {
                None => r matches Err(e) && e.code == AUTH_REQUIRED && e.message@
                    == "API key required in params"@ && e.data is None,
                Some(key) => if self.keys().contains(key) {
                    r is Ok
                } else {
                    r matches Err(e) && e.code == AUTH_ERROR && e.message@ == "Invalid API key"@
                        && e.data is None
                },
            },
    {
        let api_key = match req.params.get("api_key") {
            Some(v) => match v.as_str() {
                Some(s) => s,
                None => {
                    return Err(
                        RpcErrorObj {
                            code: AUTH_REQUIRED,
                            message: "API key required in params".to_owned(),
                            data: None,
                        },
                    );
                },
            },
            None => {
                return Err(
                    RpcErrorObj {
                        code: AUTH_REQUIRED,
                        message: "API key required in params".to_owned(),
                        data: None,
                    },
                );
            },
        };
        if self.is_valid_key(api_key) {
            Ok(())
        } else {
            Err(
                RpcErrorObj {
                    code: AUTH_ERROR,
                    message: "Invalid API key".to_owned(),
                    data: None,
                },
            )
        }
    }

    /// The response that tells the call `id` that its key was refused.
    pub fn auth_error_response(id: JsonValue, message: String) -> (r: RpcResponse)
        ensures
            r.is_error(id, AUTH_ERROR, message@),
            r.wf(),
    {
        RpcResponse::with_error(id, AUTH_ERROR, message)
    }
}

/// A dispatcher behind the guard.
pub trait AuthenticatedServer {
    /// What the dispatcher needs in order to be called.
    spec fn ready(&self) -> bool;

    /// `resp` answers `req` behind the guard `auth`.
    spec fn answers_behind(&self, auth: AuthMiddleware, req: RpcRequest, resp: RpcResponse) -> bool;

    /// Checks the request against the guard, and dispatches it only if the
    /// guard lets it pass.
    fn handle_authenticated_request(&self, req: RpcRequest, auth: &AuthMiddleware) -> (resp:
        RpcResponse)
        requires
            self.ready(),
            auth.wf(),
        ensures
            self.answers_behind(*auth, req, resp),
            resp.wf(),
            resp.id == req.id,
    ;
}

impl<F: Fn(JsonValue) -> Result<JsonValue, RpcErrorObj>> AuthenticatedServer for RpcServer<F> {
    open spec fn ready(&self) -> bool {
        self.wf() && self.accepts_all()
    }

    /// A request that the guard refuses gets the guard's error, with the
    /// request's id, and reaches no handler; one that passes is answered by
    /// the dispatcher.
    open spec fn answers_behind(
        &self,
        auth: AuthMiddleware,
        req: RpcRequest,
        resp: RpcResponse,
    ) -> bool {
        match auth.verdict(req.params) {
            Some(code) => resp.is_error(req.id, code, auth_message(code)),
            None => self.answers(req, resp),
        }
    }

    fn handle_authenticated_request(&self, req: RpcRequest, auth: &AuthMiddleware) -> (resp:
        RpcResponse) {
        match auth.validate_request(&req) {
            Err(err) => RpcResponse::from_error(req.id, err),
            Ok(_) => self.handle_request(req),
        }
    }
}

} // verus!
