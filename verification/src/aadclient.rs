//! Bearer tokens from a directory service: the exchange of an application's
//! credentials for a token, and the cache that serves one token to all
//! requests until it expires.

use crate::client_authentication::{AuthenticationError, AuthenticationErrorView};
use crate::decimal::{parse_u64, parse_u64_spec};
use crate::http::{status_line, HttpMethod, HttpStatus};
use vstd::prelude::*;

verus! {

/// The credentials of an application: where it is registered, who it is, and
/// the secret that proves it.
#[derive(Debug)]
pub struct AADCredentials {
    pub tenant_id: String,
    pub client_id: String,
    pub secret: String,
}

/// Credentials as a value of the model.
pub struct AADCredentialsView {
    pub tenant_id: Seq<char>,
    pub client_id: Seq<char>,
    pub secret: Seq<char>,
}

impl View for AADCredentials {
    type V = AADCredentialsView;

    open spec fn view(&self) -> AADCredentialsView {
        AADCredentialsView {
            tenant_id: self.tenant_id@,
            client_id: self.client_id@,
            secret: self.secret@,
        }
    }
}

impl Clone for AADCredentials {
    fn clone(&self) -> (copy: AADCredentials)
        ensures
            copy == *self,
    {
        AADCredentials {
            tenant_id: self.tenant_id.clone(),
            client_id: self.client_id.clone(),
            secret: self.secret.clone(),
        }
    }
}

/// What the token endpoint answers when it grants a token.
#[derive(Debug)]
pub struct AADTokenResponse {
    pub token_type: String,
    /// The instant at which the token expires, in seconds since the start of
    /// 1970, written as a decimal numeral.
    pub expires_on: String,
    pub access_token: String,
}

/// A bearer token and the instant at which it expires, in seconds since the
/// start of 1970.
#[derive(Debug, PartialEq, Eq)]
pub struct AADToken {
    pub token: String,
    pub expires: u64,
}

/// A token as a value of the model.
pub struct AADTokenView {
    pub token: Seq<char>,
    pub expires: u64,
}

impl AADTokenView {
    /// Whether the token is expired when the clock reads `now`. A token is
    /// good strictly before the instant of its expiry, with no margin. A
    /// clock that cannot be read, which `None` stands for, leaves no token
    /// good.
    pub open spec fn expired_at(self, now: Option<u64>) -> bool {
        match now {
            Some(seconds) => seconds >= self.expires,
            None => true,
        }
    }
}

impl View for AADToken {
    type V = AADTokenView;

    open spec fn view(&self) -> AADTokenView {
        AADTokenView { token: self.token@, expires: self.expires }
    }
}

impl Clone for AADToken {
    fn clone(&self) -> (copy: AADToken)
        ensures
            copy == *self,
    {
        AADToken { token: self.token.clone(), expires: self.expires }
    }
}

/// `std::time::SystemTime::now`, as whole seconds since `UNIX_EPOCH`; `None`
/// where the clock reads earlier than that. Nothing is known of the reading.
#[verifier::external_body]
fn unix_time() -> Option<u64> {
    match std::time::SystemTime::now().duration_since(std::time::UNIX_EPOCH) {
        Ok(elapsed) => Some(elapsed.as_secs()),
        Err(_) => None,
    }
}

impl AADTokenResponse {
    /// The token that the answer grants. The expiry has to be the decimal
    /// numeral of a `u64`; where it is not, the failure says in what way.
    pub fn to_token(&self) -> (r: Result<AADToken, AuthenticationError>)
        ensures
            match parse_u64_spec(self.expires_on@) {
                Ok(expires) => r matches Ok(token) && token@ == (AADTokenView {
                    token: self.access_token@,
                    expires,
                }),
                Err(failure) => r matches Err(e) && e@ == AuthenticationErrorView::ParseError(
                    failure.message(),
                ),
            },
    {
        match parse_u64(self.expires_on.as_str()) {
            Ok(expires) => Ok(AADToken { token: self.access_token.clone(), expires }),
            Err(failure) => Err(AuthenticationError::from_numeral_error(failure)),
        }
    }
}

impl AADToken {
    /// Whether the token is expired when the clock reads `now`.
    pub fn is_expired_at(&self, now: Option<u64>) -> (expired: bool)
        ensures
            expired == self@.expired_at(now),
    {
        match now {
            Some(seconds) => seconds >= self.expires,
            None => true,
        }
    }

    /// Whether the token is expired by the system's clock: the answer is
    /// that of [`AADToken::is_expired_at`] for what the clock reads. So,
    /// whatever it reads, a token that expires at the start of 1970 is
    /// expired.
    pub fn is_expired(&self) -> (expired: bool)
        ensures
            exists|now: Option<u64>| expired == #[trigger] self@.expired_at(now),
            self.expires == 0 ==> expired,
    {
        let now = unix_time();
        let expired = self.is_expired_at(now);
        assert(expired == self@.expired_at(now));
        expired
    }
}

/// The request that exchanges credentials for a token. Its body is a form
/// of the four fields that follow the URL.
#[derive(Debug)]
pub struct TokenRequest {
    pub method: HttpMethod,
    pub url: String,
    pub grant_type: String,
    pub client_id: String,
    pub client_secret: String,
    pub resource: String,
}

/// A token request as a value of the model.
pub struct TokenRequestView {
    pub method: HttpMethod,
    pub url: Seq<char>,
    pub grant_type: Seq<char>,
    pub client_id: Seq<char>,
    pub client_secret: Seq<char>,
    pub resource: Seq<char>,
}

impl View for TokenRequest {
    type V = TokenRequestView;

    open spec fn view(&self) -> TokenRequestView {
        TokenRequestView {
            method: self.method,
            url: self.url@,
            grant_type: self.grant_type@,
            client_id: self.client_id@,
            client_secret: self.client_secret@,
            resource: self.resource@,
        }
    }
}

/// A source of tokens for one resource: the credentials to exchange, the
/// endpoint to exchange them at, and the token obtained last, if any.
#[derive(Debug)]
pub struct AADClient {
    credentials: AADCredentials,
    resource: String,
    oauth_endpoint: String,
    cached_token: Option<AADToken>,
}

/// A source of tokens as a value of the model.
pub struct AADClientView {
    pub credentials: AADCredentialsView,
    pub resource: Seq<char>,
    pub oauth_endpoint: Seq<char>,
    pub cached_token: Option<AADTokenView>,
}

/// A token that may be absent as a value of the model.
pub open spec fn token_view(token: Option<AADToken>) -> Option<AADTokenView> {
    match token {
        Some(token) => Some(token@),
        None => None,
    }
}

/// The outcome of an exchange as a value of the model.
pub open spec fn exchange_view(outcome: Result<AADToken, AuthenticationError>) -> Result<
    AADTokenView,
    AuthenticationErrorView,
> {
    match outcome {
        Ok(token) => Ok(token@),
        Err(e) => Err(e@),
    }
}

/// What the status of a reply from the token endpoint means: a token is
/// granted with status 200 and with no other.
pub open spec fn granted(status: u16) -> Result<(), AuthenticationErrorView> {
    if status == 200 {
        Ok(())
    } else {
        Err(AuthenticationErrorView::AuthenticationAcquisitionError(status_line(status)))
    }
}

impl AADClientView {
    /// The endpoint that is asked where none is named.
    pub open spec fn default_endpoint() -> Seq<char> {
        "https://login.microsoftonline.com"@
    }

    /// The request that exchanges the credentials for a token.
    pub open spec fn token_request(self) -> TokenRequestView {
        TokenRequestView {
            method: HttpMethod::Post,
            url: self.oauth_endpoint + "/"@ + self.credentials.tenant_id + "/oauth2/token"@,
            grant_type: "client_credentials"@,
            client_id: self.credentials.client_id,
            client_secret: self.credentials.secret,
            resource: self.resource,
        }
    }

    /// The token that the cache serves when the clock reads `now`: the one
    /// it holds, unless that is expired. Where it serves none, an exchange
    /// is due.
    pub open spec fn cached_at(self, now: Option<u64>) -> Option<AADTokenView> {
        match self.cached_token {
            Some(token) => if token.expired_at(now) {
                None
            } else {
                Some(token)
            },
            None => None,
        }
    }

    /// The source after an exchange with this outcome: a token that was
    /// granted takes the place of whatever the cache held; a failure leaves
    /// the cache as it was.
    pub open spec fn stored(self, outcome: Result<AADTokenView, AuthenticationErrorView>) -> Self {
        match outcome {
            Ok(token) => AADClientView { cached_token: Some(token), ..self },
            Err(_) => self,
        }
    }

    /// One request for a token when the clock reads `now`, where an
    /// exchange, if one is made, has the outcome `exchange`. The result is
    /// the source afterwards, what the requester is given, and whether an
    /// exchange was made.
    pub open spec fn served(
        self,
        now: Option<u64>,
        exchange: Result<AADTokenView, AuthenticationErrorView>,
    ) -> (Self, Result<AADTokenView, AuthenticationErrorView>, bool) {
        match self.cached_at(now) {
            Some(token) => (self, Ok(token), false),
            None => (self.stored(exchange), exchange, true),
        }
    }
}

impl View for AADClient {
    type V = AADClientView;

    closed spec fn view(&self) -> AADClientView {
        AADClientView {
            credentials: self.credentials@,
            resource: self.resource@,
            oauth_endpoint: self.oauth_endpoint@,
            cached_token: token_view(self.cached_token),
        }
    }
}

impl AADClient {
    /// A source of tokens for `resource` with an empty cache. Tokens are
    /// asked of `oauth_endpoint`, or of the public endpoint where none is
    /// given.
    pub fn new(credentials: AADCredentials, resource: &str, oauth_endpoint: Option<&str>) -> (client:
        AADClient)
        ensures
            client@ == (AADClientView {
                credentials: credentials@,
                resource: resource@,
                oauth_endpoint: match oauth_endpoint {
                    Some(endpoint) => endpoint@,
                    None => AADClientView::default_endpoint(),
                },
                cached_token: None,
            }),
    {
        let ep = match oauth_endpoint {
            Some(ep) => String::from_str(ep),
            None => String::from_str("https://login.microsoftonline.com"),
        };
        AADClient {
            credentials,
            resource: String::from_str(resource),
            oauth_endpoint: ep,
            cached_token: None,
        }
    }

    /// The request that exchanges the credentials for a token.
    pub fn get_token(&self) -> (request: TokenRequest)
        ensures
            request@ == self@.token_request(),
    {
        let mut url = self.oauth_endpoint.clone();
        url.append("/");
        url.append(self.credentials.tenant_id.as_str());
        url.append("/oauth2/token");
        TokenRequest {
            method: HttpMethod::Post,
            url,
            grant_type: String::from_str("client_credentials"),
            client_id: self.credentials.client_id.clone(),
            client_secret: self.credentials.secret.clone(),
            resource: self.resource.clone(),
        }
    }

    /// Reads the head of the reply to a token request. `reply` is the
    /// status of the reply, or why there was none. Only status 200 grants a
    /// token; any other is a failure that carries the status as a reader is
    /// shown it.
    pub fn get_token_status(reply: Result<HttpStatus, String>) -> (r: Result<
        (),
        AuthenticationError,
    >)
        ensures
            match reply {
                Err(reason) => r matches Err(e) && e@
                    == AuthenticationErrorView::CommunicationError(reason@),
                Ok(status) => match granted(status.value()) {
                    Ok(()) => r is Ok,
                    Err(failure) => r matches Err(e) && e@ == failure,
                },
            },
    {
        match reply {
            Err(reason) => Err(AuthenticationError::from_transport_failure(reason)),
            Ok(status) => {
                if status.as_u16() != 200 {
                    return Err(AuthenticationError::from_refused_exchange(status.to_string()));
                }
                Ok(())
            },
        }
    }

    /// Reads the body of a reply that grants a token. `body` is what
    /// receiving and decoding the body gave: the answer, or why there is
    /// none.
    pub fn get_token_response(body: Result<AADTokenResponse, String>) -> (r: Result<
        AADToken,
        AuthenticationError,
    >)
        ensures
            match body {
                Err(reason) => r matches Err(e) && e@
                    == AuthenticationErrorView::CommunicationError(reason@),
                Ok(answer) => match parse_u64_spec(answer.expires_on@) {
                    Ok(expires) => r matches Ok(token) && token@ == (AADTokenView {
                        token: answer.access_token@,
                        expires,
                    }),
                    Err(failure) => r matches Err(e) && e@ == AuthenticationErrorView::ParseError(
                        failure.message(),
                    ),
                },
            },
    {
        match body {
            Err(reason) => Err(AuthenticationError::from_transport_failure(reason)),
            Ok(token_response) => token_response.to_token(),
        }
    }

    /// The token that the cache serves when the clock reads `now`. `None`
    /// says that an exchange is due.
    pub fn cached_token_at(&self, now: Option<u64>) -> (served: Option<AADToken>)
        ensures
            token_view(served) == self@.cached_at(now),
    {
        match &self.cached_token {
            Some(token) => {
                if !token.is_expired_at(now) {
                    return Some(token.clone());
                }
                None
            },
            None => None,
        }
    }

    /// The token that the cache serves by the system's clock: the answer is
    /// that of [`AADClient::cached_token_at`] for what the clock reads.
    /// `None` says that an exchange is due. Whatever the clock reads, a
    /// token that is served is the one that the cache holds, and an empty
    /// cache serves none.
    pub fn get_cached_token(&self) -> (served: Option<AADToken>)
        ensures
            exists|now: Option<u64>| token_view(served) == #[trigger] self@.cached_at(now),
            served matches Some(token) ==> self@.cached_token == Some(token@),
            self@.cached_token is None ==> served is None,
    {
        let now = unix_time();
        let served = self.cached_token_at(now);
        assert(token_view(served) == self@.cached_at(now));
        served
    }

    /// Serves one request for a token when the clock reads `now`. The token
    /// in the cache is served if it is not expired, and `exchange` is then
    /// not called. Otherwise `exchange` is called once, with the request
    /// that exchanges the credentials, and its outcome is taken note of and
    /// handed on.
    pub fn get_cached_token_with<F>(&mut self, now: Option<u64>, exchange: F) -> (r: Result<
        AADToken,
        AuthenticationError,
    >) where F: FnOnce(TokenRequest) -> Result<AADToken, AuthenticationError>
        requires
            forall|request: TokenRequest|
                request@ == old(self)@.token_request() ==> call_requires(exchange, (request,)),
        ensures
            match old(self)@.cached_at(now) {
                Some(token) => final(self)@ == old(self)@ && exchange_view(r) == Ok::<
                    AADTokenView,
                    AuthenticationErrorView,
                >(token),
                None => exists|request: TokenRequest, outcome: Result<AADToken, AuthenticationError>|
                    #![trigger call_ensures(exchange, (request,), outcome)]
                    request@ == old(self)@.token_request() && call_ensures(
                        exchange,
                        (request,),
                        outcome,
                    ) && final(self)@ == old(self)@.stored(exchange_view(outcome)) && exchange_view(r)
                        == exchange_view(outcome),
            },
    {
        match self.cached_token_at(now) {
            Some(token) => Ok(token),
            None => {
                let request = self.get_token();
                let outcome = exchange(request);
                let ghost noted = outcome;
                let r = self.store_token(outcome);
                assert(call_ensures(exchange, (request,), noted));
                r
            },
        }
    }

    /// Takes note of the outcome of an exchange and hands the outcome on. A
    /// token that was granted takes the place of whatever the cache held; a
    /// failure leaves the cache as it was.
    pub fn store_token(&mut self, outcome: Result<AADToken, AuthenticationError>) -> (r: Result<
        AADToken,
        AuthenticationError,
    >)
        ensures
            final(self)@ == old(self)@.stored(exchange_view(outcome)),
            exchange_view(r) == exchange_view(outcome),
    {
        match outcome {
            Ok(token) => {
                self.cached_token = Some(token.clone());
                Ok(token)
            },
            Err(e) => Err(e),
        }
    }
}

/// While the token in the cache is not expired, every request is given
/// that token, no exchange is made, and the cache stays as it is: so it is
/// with each request that follows.
pub proof fn lemma_unexpired_token_is_reused(
    client: AADClientView,
    token: AADTokenView,
    now: Option<u64>,
    exchange: Result<AADTokenView, AuthenticationErrorView>,
)
    requires
        client.cached_token == Some(token),
        !token.expired_at(now),
    ensures
        client.served(now, exchange) == (
            client,
            Ok::<AADTokenView, AuthenticationErrorView>(token),
            false,
        ),
{
}

/// Once the token in the cache is expired, or while the cache is empty, a
/// request makes an exchange. The token that the exchange grants is given
/// to the requester and replaces what the cache held; while it is not
/// expired, the next request is given it without another exchange.
pub proof fn lemma_expired_token_is_replaced(
    client: AADClientView,
    now: Option<u64>,
    fresh: AADTokenView,
    later: Option<u64>,
    exchange: Result<AADTokenView, AuthenticationErrorView>,
)
    requires
        client.cached_token matches Some(token) ==> token.expired_at(now),
    ensures
        client.served(now, Ok(fresh)) == (
            AADClientView { cached_token: Some(fresh), ..client },
            Ok::<AADTokenView, AuthenticationErrorView>(fresh),
            true,
        ),
        !fresh.expired_at(later) ==> client.served(now, Ok(fresh)).0.served(later, exchange) == (
            client.served(now, Ok(fresh)).0,
            Ok::<AADTokenView, AuthenticationErrorView>(fresh),
            false,
        ),
{
}

/// An exchange that fails is reported to the requester and leaves the cache
/// as it was.
pub proof fn lemma_failed_exchange_keeps_cache(
    client: AADClientView,
    now: Option<u64>,
    failure: AuthenticationErrorView,
)
    requires
        client.cached_token matches Some(token) ==> token.expired_at(now),
    ensures
        client.served(now, Err(failure)) == (
            client,
            Err::<AADTokenView, AuthenticationErrorView>(failure),
            true,
        ),
{
}

} // verus!
