//! The request executor shared by both backends: it turns a method, a path and
//! an optional body into a planned HTTP exchange, and classifies what came back.

use vstd::prelude::*;

verus! {

/// How a backend authenticates its requests.
#[derive(Clone, Copy, Debug, PartialEq, Eq, Structural)]
pub enum AuthScheme {
    /// The secret travels as the value of the `X-ZT1-AUTH` header.
    HeaderToken,
    /// `Authorization: token <secret>`.
    BearerToken,
}

/// An HTTP verb used by the two APIs.
#[derive(Clone, Copy, Debug, PartialEq, Eq, Structural)]
pub enum Method {
    Get,
    Post,
    Delete,
}

/// One planned HTTP exchange: everything needed to perform it.
#[derive(Clone, Debug)]
pub struct HttpRequest {
    pub method: Method,
    /// Base address followed by the resource path.
    pub url: String,
    pub auth_name: String,
    pub auth_value: String,
    /// JSON payload, sent only when present.
    pub body: Option<String>,
    pub timeout_secs: u64,
}

/// What a backend answered: the status code and the raw response text.
#[derive(Clone, Debug)]
pub struct HttpResponse {
    pub status: u16,
    pub text: String,
}

/// The failure of one exchange. The three kinds exclude each other.
#[derive(Clone, Debug)]
pub enum Error {
    /// The exchange did not complete (DNS, connection, TLS, timeout).
    Http { cause: String },
    /// The backend answered with a status outside 2xx.
    Api { status: u16, message: String },
    /// A 2xx answer whose payload could not be decoded.
    Json { cause: String },
}

/// A backend: base address, secret and authentication scheme, per-call timeout.
#[derive(Debug)]
pub struct RestBackend {
    pub base_url: String,
    pub token: String,
    pub scheme: AuthScheme,
    pub timeout_secs: u64,
}

pub open spec fn opt_view(o: Option<String>) -> Option<Seq<char>> {
    match o {
        Some(s) => Some(s@),
        None => None,
    }
}

/// Whether `status` is in the success range.
pub open spec fn is_success(status: u16) -> bool {
    200 <= status && status < 300
}

impl Clone for RestBackend {
    fn clone(&self) -> (r: Self)
        ensures
            r == *self,
    {
        RestBackend {
            base_url: self.base_url.clone(),
            token: self.token.clone(),
            scheme: self.scheme,
            timeout_secs: self.timeout_secs,
        }
    }
}

impl RestBackend {
    /// The name of the authentication header.
    pub open spec fn auth_name_spec(&self) -> Seq<char> {
        match self.scheme {
            AuthScheme::HeaderToken => "X-ZT1-AUTH"@,
            AuthScheme::BearerToken => "Authorization"@,
        }
    }

    /// The value of the authentication header.
    pub open spec fn auth_value_spec(&self) -> Seq<char> {
        match self.scheme {
            AuthScheme::HeaderToken => self.token@,
            AuthScheme::BearerToken => "token "@ + self.token@,
        }
    }

    /// `r` is the exchange `method path` with `body` against this backend.
    pub open spec fn plans(&self, r: HttpRequest, method: Method, path: Seq<char>, body: Option<Seq<char>>) -> bool {
        &&& r.method == method
        &&& r.url@ == self.base_url@ + path
        &&& r.auth_name@ == self.auth_name_spec()
        &&& r.auth_value@ == self.auth_value_spec()
        &&& opt_view(r.body) == body
        &&& r.timeout_secs == self.timeout_secs
    }

    /// Plans the exchange `method path` carrying `body`.
    pub fn request(&self, method: Method, path: &str, body: Option<String>) -> (r: HttpRequest)
        ensures
            self.plans(r, method, path@, opt_view(body)),
    {
        let mut url = self.base_url.clone();
        url.append(path);
        let (auth_name, auth_value) = match self.scheme {
            AuthScheme::HeaderToken => (String::from_str("X-ZT1-AUTH"), self.token.clone()),
            AuthScheme::BearerToken => {
                let mut v = String::from_str("token ");
                v.append(self.token.as_str());
                (String::from_str("Authorization"), v)
            },
        };
        HttpRequest { method, url, auth_name, auth_value, body, timeout_secs: self.timeout_secs }
    }

    /// Plans the exchange `method path` without a body.
    pub fn request_empty(&self, method: Method, path: &str) -> (r: HttpRequest)
        ensures
            self.plans(r, method, path@, None),
    {
        self.request(method, path, None)
    }
}

/// The outcome of an exchange, from the transport's result: a transport failure
/// stays one, a status outside 2xx becomes an API failure carrying the raw text,
/// and a 2xx answer hands its text on for decoding.
pub fn classify(outcome: Result<HttpResponse, String>) -> (r: Result<String, Error>)
    ensures
        match outcome {
            Err(cause) => r matches Err(Error::Http { cause: c }) && c@ == cause@,
            Ok(resp) => if is_success(resp.status) {
                r matches Ok(t) && t@ == resp.text@
            } else {
                r matches Err(Error::Api { status, message }) && status == resp.status && message@ == resp.text@
            },
        },
{
    match outcome {
        Err(cause) => Err(Error::Http { cause }),
        Ok(resp) => {
            if 200 <= resp.status && resp.status < 300 {
                Ok(resp.text)
            } else {
                Err(Error::Api { status: resp.status, message: resp.text })
            }
        },
    }
}

/// The outcome of decoding a 2xx payload: a decoding failure becomes a JSON failure.
pub fn decoded<T>(payload: Result<T, String>) -> (r: Result<T, Error>)
    ensures
        match payload {
            Ok(v) => r == Ok::<T, Error>(v),
            Err(cause) => r matches Err(Error::Json { cause: c }) && c@ == cause@,
        },
{
    match payload {
        Ok(v) => Ok(v),
        Err(cause) => Err(Error::Json { cause }),
    }
}

impl Error {
    /// The human sentence for this failure.
    pub open spec fn text_spec(&self) -> Seq<char> {
        match self {
            Error::Http { cause } => "HTTP request failed: "@ + cause@,
            Error::Api { status, message } => "API error ("@ + crate::text::nat_decimal(*status as nat) + "): "@ + message@,
            Error::Json { cause } => "JSON error: "@ + cause@,
        }
    }

    /// The human sentence for this failure.
    pub fn to_string(&self) -> (r: String)
        ensures
            r@ == self.text_spec(),
    {
        match self {
            Error::Http { cause } => {
                let mut r = String::from_str("HTTP request failed: ");
                r.append(cause.as_str());
                r
            },
            Error::Api { status, message } => {
                let mut r = String::from_str("API error (");
                crate::text::push_nat(&mut r, *status as u64);
                r.append("): ");
                r.append(message.as_str());
                r
            },
            Error::Json { cause } => {
                let mut r = String::from_str("JSON error: ");
                r.append(cause.as_str());
                r
            },
        }
    }
}

} // verus!
