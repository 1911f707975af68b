//! The four calls to the backend: what is asked, and what an answer means.
//!
//! Nothing here performs a call. A request is described so that a transport
//! can send it, and what the transport brings back is classified.

use vstd::prelude::*;
use vstd::string::StringExecFns;
use crate::model::{Credentials, DeviceDetail, ReportError};
use crate::text::{decimal, push_decimal};

verus! {

/// The HTTP verb of a request.
#[derive(Clone, Copy, Debug, PartialEq, Eq, Structural)]
pub enum Method {
    Get,
    Post,
}

/// How a request proves who sends it.
#[derive(Clone, Debug, PartialEq, Eq)]
pub enum Auth {
    /// User name and secret, sent with every call but the catalog's.
    Basic { username: String, secret: String },
    /// A token obtained beforehand, sent with the catalog call only.
    Bearer { token: String },
}

/// One call to the backend, ready to be sent.
#[derive(Clone, Debug, PartialEq, Eq)]
pub struct Request {
    pub method: Method,
    pub url: String,
    pub auth: Auth,
}

/// What a transport brings back from one call.
#[derive(Clone, Debug, PartialEq, Eq)]
pub enum Reply<T> {
    /// No answer came: the name did not resolve, the connection failed or
    /// timed out.
    Unreachable,
    /// The backend answered. `payload` is the decoded body, absent where the
    /// body does not have the shape expected of it.
    Answered { status: u16, payload: Option<T> },
}

/// The backend that is asked when the credentials name none.
pub open spec fn default_base() -> Seq<char> {
    "https://ohmnfr.jamfcloud.com"@
}

/// The base address that a set of credentials points to.
pub open spec fn base_of(credentials: Credentials) -> Seq<char> {
    match credentials.base {
        Some(b) => b@,
        None => default_base(),
    }
}

pub open spec fn token_path() -> Seq<char> {
    "/api/v1/auth/token"@
}

pub open spec fn devices_path() -> Seq<char> {
    "/JSSResource/computers"@
}

pub open spec fn device_path(id: u64) -> Seq<char> {
    "/JSSResource/computers/id/"@ + decimal(id as nat)
}

pub open spec fn catalog_path() -> Seq<char> {
    "/api/v1/macos-managed-software-updates/available-updates"@
}

/// Whether a status code lies in the 2xx range.
pub open spec fn is_success(status: u16) -> bool {
    200 <= status < 300
}

/// The status code by which the backend says that it has no such device.
pub const NOT_FOUND: u16 = 404;

/// What the answer to a token exchange amounts to. Only a 2xx answer that
/// carries a token yields one; any other answer is a failed authentication.
pub open spec fn token_outcome(reply: Reply<String>) -> Result<String, ReportError> {
    match reply {
        Reply::Unreachable => Err(ReportError::Fetch),
        Reply::Answered { status, payload } => match payload {
            Some(token) if is_success(status) => Ok(token),
            _ => Err(ReportError::Auth),
        },
    }
}

/// What the answer to a listing call amounts to, for the device list and for
/// the update catalog alike: the decoded body, whatever the status.
pub open spec fn listing_outcome<T>(reply: Reply<T>) -> Result<T, ReportError> {
    match reply {
        Reply::Unreachable => Err(ReportError::Fetch),
        Reply::Answered { status, payload } => match payload {
            Some(p) => Ok(p),
            None => Err(ReportError::Decode),
        },
    }
}

/// What the answer to a detail call for device `id` amounts to. A 404 means
/// that the device is gone; a detail that names another device than the one
/// asked for is a malformed answer.
pub open spec fn detail_outcome(id: u64, reply: Reply<DeviceDetail>) -> Result<
    DeviceDetail,
    ReportError,
> {
    match reply {
        Reply::Unreachable => Err(ReportError::Fetch),
        Reply::Answered { status, payload } => if status == NOT_FOUND {
            Err(ReportError::NotFound)
        } else {
            match payload {
                Some(d) if d.id == id => Ok(d),
                _ => Err(ReportError::Decode),
            }
        },
    }
}

/// Whether a request is the given call: its verb, its address, its proof of
/// identity.
pub open spec fn describes(request: Request, method: Method, url: Seq<char>, auth: Auth) -> bool {
    &&& request.method == method
    &&& request.url@ == url
    &&& request.auth == auth
}

/// The proof of identity that goes with every call but the catalog's.
pub open spec fn basic_of(credentials: Credentials) -> Auth {
    Auth::Basic { username: credentials.username, secret: credentials.secret }
}

fn base_address(credentials: &Credentials) -> (base: String)
    ensures
        base@ == base_of(*credentials),
{
    match &credentials.base {
        Some(b) => b.clone(),
        None => String::from_str("https://ohmnfr.jamfcloud.com"),
    }
}

fn basic_auth(credentials: &Credentials) -> (auth: Auth)
    ensures
        auth == basic_of(*credentials),
{
    Auth::Basic { username: credentials.username.clone(), secret: credentials.secret.clone() }
}

/// The call that exchanges the credentials for a token.
pub fn token_request(credentials: &Credentials) -> (request: Request)
    ensures
        describes(
            request,
            Method::Post,
            base_of(*credentials) + token_path(),
            basic_of(*credentials),
        ),
{
    let mut url = base_address(credentials);
    url.append("/api/v1/auth/token");
    Request { method: Method::Post, url, auth: basic_auth(credentials) }
}

/// The call that lists the identifiers of all devices.
pub fn device_ids_request(credentials: &Credentials) -> (request: Request)
    ensures
        describes(
            request,
            Method::Get,
            base_of(*credentials) + devices_path(),
            basic_of(*credentials),
        ),
{
    let mut url = base_address(credentials);
    url.append("/JSSResource/computers");
    Request { method: Method::Get, url, auth: basic_auth(credentials) }
}

/// The call that fetches the detail of device `id`.
pub fn detail_request(credentials: &Credentials, id: u64) -> (request: Request)
    ensures
        describes(
            request,
            Method::Get,
            base_of(*credentials) + device_path(id),
            basic_of(*credentials),
        ),
{
    let mut url = base_address(credentials);
    url.append("/JSSResource/computers/id/");
    push_decimal(&mut url, id);
    assert(url@ =~= base_of(*credentials) + device_path(id));
    Request { method: Method::Get, url, auth: basic_auth(credentials) }
}

/// The call that fetches the update catalog. It alone goes by the token.
pub fn catalog_request(credentials: &Credentials, token: String) -> (request: Request)
    ensures
        describes(
            request,
            Method::Get,
            base_of(*credentials) + catalog_path(),
            Auth::Bearer { token },
        ),
{
    let mut url = base_address(credentials);
    url.append("/api/v1/macos-managed-software-updates/available-updates");
    Request { method: Method::Get, url, auth: Auth::Bearer { token } }
}

/// Classifies the answer to a token exchange.
pub fn interpret_token(reply: Reply<String>) -> (outcome: Result<String, ReportError>)
    ensures
        outcome == token_outcome(reply),
{
    match reply {
        Reply::Unreachable => Err(ReportError::Fetch),
        Reply::Answered { status, payload } => {
            if status >= 200 && status < 300 {
                match payload {
                    Some(token) => Ok(token),
                    None => Err(ReportError::Auth),
                }
            } else {
                Err(ReportError::Auth)
            }
        },
    }
}

/// Classifies the answer to the device list call.
pub fn interpret_device_ids(reply: Reply<Vec<u64>>) -> (outcome: Result<Vec<u64>, ReportError>)
    ensures
        outcome == listing_outcome(reply),
{
    match reply {
        Reply::Unreachable => Err(ReportError::Fetch),
        Reply::Answered { status, payload } => match payload {
            Some(ids) => Ok(ids),
            None => Err(ReportError::Decode),
        },
    }
}

/// Classifies the answer to the update catalog call.
pub fn interpret_catalog(reply: Reply<Vec<String>>) -> (outcome: Result<Vec<String>, ReportError>)
    ensures
        outcome == listing_outcome(reply),
{
    match reply {
        Reply::Unreachable => Err(ReportError::Fetch),
        Reply::Answered { status, payload } => match payload {
            Some(catalog) => Ok(catalog),
            None => Err(ReportError::Decode),
        },
    }
}

/// Classifies the answer to the detail call for device `id`.
pub fn interpret_detail(id: u64, reply: Reply<DeviceDetail>) -> (outcome: Result<
    DeviceDetail,
    ReportError,
>)
    ensures
        outcome == detail_outcome(id, reply),
{
    match reply {
        Reply::Unreachable => Err(ReportError::Fetch),
        Reply::Answered { status, payload } => {
            if status == NOT_FOUND {
                Err(ReportError::NotFound)
            } else {
                match payload {
                    Some(d) => if d.id == id {
                        Ok(d)
                    } else {
                        Err(ReportError::Decode)
                    },
                    None => Err(ReportError::Decode),
                }
            }
        },
    }
}

} // verus!
