//! Login: the local server that receives the token from the browser.
use vstd::prelude::*;

verus! {

/// The port of the local server that receives the token.
pub const LOGIN_PORT: u16 = 3001;

/// Where the browser is sent once the token has been received.
pub const AUTH_URL: &'static str = "http://localhost:3000/auth/success";

/// The local HTTP server that receives the token.
#[derive(Debug)]
pub struct HttpAuthServer {
    port: u16,
}

impl HttpAuthServer {
    pub closed spec fn port_value(&self) -> u16 {
        self.port
    }

    pub fn new(port: u16) -> (r: HttpAuthServer)
        ensures
            r.port_value() == port,
    {
        HttpAuthServer { port }
    }

    /// The port the server listens on.
    pub fn port(&self) -> (r: u16)
        ensures
            r == self.port_value(),
    {
        self.port
    }
}

/// How serving ended.
#[derive(Debug, Clone)]
pub enum ServeOutcome {
    /// The server shut down after a token was received.
    Stopped,
    /// The server failed, with this message.
    Failed(String),
    /// The timeout ran out; the text tells after how long.
    TimedOut(String),
}

/// Why no token was obtained.
#[derive(Debug, Clone)]
pub enum LoginError {
    /// The server failed, with this message.
    Server(String),
    /// The timeout ran out; the text tells after how long.
    Timeout(String),
    /// The server stopped but no token came through.
    NoToken,
}

impl LoginError {
    /// The human readable message of the error.
    pub fn message(&self) -> (r: String)
        ensures
            match self {
                LoginError::Server(m) => r@ == m@,
                LoginError::Timeout(d) => r@ == "Timeout after "@ + d@,
                LoginError::NoToken => r@ == "Something wrong happened"@,
            },
    {
        match self {
            LoginError::Server(m) => m.clone(),
            LoginError::Timeout(d) => {
                let mut r = "Timeout after ".to_owned();
                r.append(d.as_str());
                r
            },
            LoginError::NoToken => "Something wrong happened".to_owned(),
        }
    }
}

/// The token obtained from a run of the server: `received` is what came
/// through once the server stopped (`None` when nothing did in time).
pub fn login_token(outcome: ServeOutcome, received: Option<String>) -> (r: Result<String, LoginError>)
    ensures
        match outcome {
            ServeOutcome::Stopped => match received {
                Some(t) => r == Ok::<String, LoginError>(t),
                None => r matches Err(LoginError::NoToken),
            },
            ServeOutcome::Failed(m) => r matches Err(LoginError::Server(e)) && e == m,
            ServeOutcome::TimedOut(d) => r matches Err(LoginError::Timeout(e)) && e == d,
        },
{
    match outcome {
        ServeOutcome::Stopped => match received {
            Some(t) => Ok(t),
            None => Err(LoginError::NoToken),
        },
        ServeOutcome::Failed(m) => Err(LoginError::Server(m)),
        ServeOutcome::TimedOut(d) => Err(LoginError::Timeout(d)),
    }
}

} // verus!
