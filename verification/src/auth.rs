//! Who signs in, and with what: the two ways to authenticate, the errors that
//! end a run, and the cookie that carries a session.

use vstd::prelude::*;
use vstd::string::StringSliceAdditionalSpecFns;
use crate::text::{copy_bytes, same_bytes};

verus! {

/// The address of the site's root.
pub const SITE_ROOT: &'static str = "https://www.instagram.com";

/// The address of the login page.
pub const LOGIN_PAGE: &'static str = "https://www.instagram.com/accounts/login/";

/// The name of the cookie that carries the session token.
pub const SESSION_COOKIE_NAME: &'static str = "sessionid";

/// The domain that the session cookie is scoped to.
pub const SESSION_COOKIE_DOMAIN: &'static str = ".instagram.com";

/// The path that the session cookie is scoped to.
pub const SESSION_COOKIE_PATH: &'static str = "/";

/// Why no session could be had. Each ends the run.
#[derive(Clone, Copy, Debug, PartialEq, Eq, Structural)]
pub enum AuthError {
    /// The site refused the credentials.
    InvalidCredentials,
    /// The site gave no verdict within the time allowed.
    Timeout,
    /// An input of the login page was not found: the page has changed.
    ElementMissing,
    /// The saved token is no longer accepted.
    SessionExpired,
}

/// The two ways to authenticate.
#[derive(Clone, Copy, Debug, PartialEq, Eq, Structural)]
pub enum AuthMode {
    Credentials,
    CookieRestore,
}

/// What a run authenticates with: a credential pair, used once, or the token
/// of a session saved earlier.
#[derive(Debug)]
pub enum Session {
    Credentials { username: Vec<u8>, password: Vec<u8> },
    Token { session_token: Vec<u8> },
}

/// A saved session: the account it belongs to and its token.
#[derive(Debug)]
pub struct UserProfile {
    pub username: String,
    pub session_id: String,
}

/// The `SameSite` attribute of a cookie.
#[derive(Clone, Copy, Debug, PartialEq, Eq, Structural)]
pub enum SameSite {
    Strict,
    Lax,
    Unrestricted,
}

/// A cookie, as far as it is read or set here.
#[derive(Debug)]
pub struct Cookie {
    pub name: Vec<u8>,
    pub value: Vec<u8>,
    pub domain: Vec<u8>,
    pub path: Vec<u8>,
    pub secure: bool,
    pub http_only: bool,
    pub same_site: Option<SameSite>,
}

/// A credential pair is at hand: there is one, and neither its username nor
/// its password is empty.
pub open spec fn credentials_present(credentials: Option<(Vec<u8>, Vec<u8>)>) -> bool {
    match credentials {
        Some(pair) => pair.0@.len() > 0 && pair.1@.len() > 0,
        None => false,
    }
}

/// A saved token is at hand: there is one, and it is not empty.
pub open spec fn token_present(token: Option<Vec<u8>>) -> bool {
    match token {
        Some(t) => t@.len() > 0,
        None => false,
    }
}

/// The session holds something to authenticate with: a token that is not
/// empty, or a username and a password neither of which is empty.
pub open spec fn usable(session: Session) -> bool {
    match session {
        Session::Credentials { username, password } => username@.len() > 0 && password@.len() > 0,
        Session::Token { session_token } => session_token@.len() > 0,
    }
}

/// The session that a run authenticates with. What is empty counts as
/// absent. A saved token is used where the operator asks for it or where
/// there are no credentials; credentials are used otherwise. With neither
/// there is no session.
pub open spec fn chosen_session(
    credentials: Option<(Vec<u8>, Vec<u8>)>,
    token: Option<Vec<u8>>,
    prefer_token: bool,
) -> Option<Session> {
    if token_present(token) && (prefer_token || !credentials_present(credentials)) {
        Some(Session::Token { session_token: token.unwrap() })
    } else if credentials_present(credentials) {
        Some(
            Session::Credentials {
                username: credentials.unwrap().0,
                password: credentials.unwrap().1,
            },
        )
    } else {
        None
    }
}

/// The way in which a session authenticates.
pub open spec fn mode_of(session: Session) -> AuthMode {
    match session {
        Session::Credentials { .. } => AuthMode::Credentials,
        Session::Token { .. } => AuthMode::CookieRestore,
    }
}

/// Exactly one way to authenticate is taken: none where nothing is at hand,
/// and otherwise one that is at hand. Where both are at hand the operator's
/// choice decides. A session that is chosen is never empty: neither an empty
/// token nor an empty username or password is authenticated with.
pub proof fn lemma_one_mode(
    credentials: Option<(Vec<u8>, Vec<u8>)>,
    token: Option<Vec<u8>>,
    prefer_token: bool,
)
    ensures
        chosen_session(credentials, token, prefer_token).is_none() <==> (!credentials_present(
            credentials,
        ) && !token_present(token)),
        chosen_session(credentials, token, prefer_token).is_some() ==> {
            let session = chosen_session(credentials, token, prefer_token).unwrap();
            &&& usable(session)
            &&& mode_of(session) == AuthMode::Credentials ==> credentials_present(credentials)
            &&& mode_of(session) == AuthMode::CookieRestore ==> token_present(token)
        },
        credentials_present(credentials) && token_present(token) ==> mode_of(
            chosen_session(credentials, token, prefer_token).unwrap(),
        ) == if prefer_token {
            AuthMode::CookieRestore
        } else {
            AuthMode::Credentials
        },
{
}

/// The cookie that restores a session: the token under the session cookie's
/// name, scoped to the site, sent over secure connections only, hidden from
/// scripts, and kept to same-site requests.
pub open spec fn is_session_cookie(cookie: Cookie, token: Seq<u8>) -> bool {
    &&& cookie.name@ == SESSION_COOKIE_NAME.spec_bytes()
    &&& cookie.value@ == token
    &&& cookie.domain@ == SESSION_COOKIE_DOMAIN.spec_bytes()
    &&& cookie.path@ == SESSION_COOKIE_PATH.spec_bytes()
    &&& cookie.secure
    &&& cookie.http_only
    &&& cookie.same_site == Some(SameSite::Strict)
}

/// The cookie carries the session token.
pub open spec fn carries_session(cookie: Cookie) -> bool {
    cookie.name@ == SESSION_COOKIE_NAME.spec_bytes()
}

/// `i` is the position of the first cookie that carries the session token.
pub open spec fn is_first_session_cookie(cookies: Seq<Cookie>, i: int) -> bool {
    &&& 0 <= i < cookies.len()
    &&& carries_session(cookies[i])
    &&& forall|j: int| 0 <= j < i ==> !carries_session(cookies[j])
}

impl UserProfile {
    /// The record of a session to save.
    pub fn new(username: &str, session_id: &str) -> (profile: UserProfile)
        ensures
            profile.username@ == username@,
            profile.session_id@ == session_id@,
    {
        UserProfile { username: username.to_owned(), session_id: session_id.to_owned() }
    }

    /// The session that this record restores; none where the record holds
    /// no token.
    pub fn session(&self) -> (session: Option<Session>)
        ensures
            match session {
                Some(Session::Token { session_token }) => session_token@.len() > 0
                    && session_token@ == vstd::utf8::encode_utf8(self.session_id@),
                Some(Session::Credentials { .. }) => false,
                None => vstd::utf8::encode_utf8(self.session_id@).len() == 0,
            },
    {
        match saved_token(self.session_id.as_str().as_bytes()) {
            Some(session_token) => Some(Session::Token { session_token }),
            None => None,
        }
    }
}

impl Session {
    /// Whether the session holds something to authenticate with.
    pub fn is_usable(&self) -> (r: bool)
        ensures
            r == usable(*self),
    {
        match self {
            Session::Credentials { username, password } => username.len() > 0 && password.len() > 0,
            Session::Token { session_token } => session_token.len() > 0,
        }
    }

    /// The way in which this session authenticates.
    pub fn mode(&self) -> (m: AuthMode)
        ensures
            m == mode_of(*self),
    {
        match self {
            Session::Credentials { .. } => AuthMode::Credentials,
            Session::Token { .. } => AuthMode::CookieRestore,
        }
    }
}

/// The credential pair that the operator has typed, if one was typed: both
/// the username and the password hold something.
pub fn credentials(username: &[u8], password: &[u8]) -> (r: Option<(Vec<u8>, Vec<u8>)>)
    ensures
        r.is_some() == (username@.len() > 0 && password@.len() > 0),
        match r {
            Some(pair) => pair.0@ == username@ && pair.1@ == password@,
            None => true,
        },
{
    if username.len() > 0 && password.len() > 0 {
        Some((copy_bytes(username), copy_bytes(password)))
    } else {
        None
    }
}

/// The saved token that was read, if one was read: it holds something.
pub fn saved_token(session_id: &[u8]) -> (r: Option<Vec<u8>>)
    ensures
        r.is_some() == (session_id@.len() > 0),
        match r {
            Some(token) => token@ == session_id@,
            None => true,
        },
{
    if session_id.len() > 0 {
        Some(copy_bytes(session_id))
    } else {
        None
    }
}

/// Chooses what the run authenticates with. `None` where there is nothing
/// to authenticate with; what is empty counts as nothing.
pub fn select_session(
    credentials: Option<(Vec<u8>, Vec<u8>)>,
    token: Option<Vec<u8>>,
    prefer_token: bool,
) -> (r: Option<Session>)
    ensures
        r == chosen_session(credentials, token, prefer_token),
        r.is_some() ==> usable(r.unwrap()),
{
    let with_credentials = match &credentials {
        Some(pair) => pair.0.len() > 0 && pair.1.len() > 0,
        None => false,
    };
    let with_token = match &token {
        Some(t) => t.len() > 0,
        None => false,
    };
    if with_token && (prefer_token || !with_credentials) {
        match token {
            Some(t) => Some(Session::Token { session_token: t }),
            None => None,
        }
    } else if with_credentials {
        match credentials {
            Some(pair) => Some(Session::Credentials { username: pair.0, password: pair.1 }),
            None => None,
        }
    } else {
        None
    }
}

/// The cookie that restores the session of a token. There is none for an
/// empty token.
pub fn session_cookie(token: &[u8]) -> (r: Option<Cookie>)
    ensures
        r.is_some() == (token@.len() > 0),
        match r {
            Some(cookie) => is_session_cookie(cookie, token@),
            None => true,
        },
{
    if token.len() == 0 {
        return None;
    }
    Some(
        Cookie {
            name: copy_bytes(SESSION_COOKIE_NAME.as_bytes()),
            value: copy_bytes(token),
            domain: copy_bytes(SESSION_COOKIE_DOMAIN.as_bytes()),
            path: copy_bytes(SESSION_COOKIE_PATH.as_bytes()),
            secure: true,
            http_only: true,
            same_site: Some(SameSite::Strict),
        },
    )
}

/// The session token among the cookies of a page: the value of the first
/// cookie that carries it.
pub fn find_session_token(cookies: &Vec<Cookie>) -> (r: Option<Vec<u8>>)
    ensures
        match r {
            Some(token) => exists|i: int|
                is_first_session_cookie(cookies@, i) && token@ == cookies@[i].value@,
            None => forall|i: int| 0 <= i < cookies@.len() ==> !carries_session(cookies@[i]),
        },
{
    let mut i: usize = 0;
    while i < cookies.len()
        invariant
            i <= cookies.len(),
            forall|j: int| 0 <= j < i ==> !carries_session(cookies@[j]),
        decreases cookies.len() - i,
    {
        if same_bytes(cookies[i].name.as_slice(), SESSION_COOKIE_NAME.as_bytes()) {
            let token = copy_bytes(cookies[i].value.as_slice());
            assert(is_first_session_cookie(cookies@, i as int));
            return Some(token);
        }
        i += 1;
    }
    None
}

} // verus!
