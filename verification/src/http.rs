use vstd::prelude::*;
use vstd::string::{StrSliceExecFns, StringExecFns};
use vstd::utf8::encode_utf8;

verus! {

/// HTTP status of a reply that carries what was asked for.
pub const STATUS_OK: u16 = 200;

/// HTTP status of a reply to a request that is refused as it stands.
pub const STATUS_BAD_REQUEST: u16 = 400;

/// HTTP status of a reply to a request for what is not there.
pub const STATUS_NOT_FOUND: u16 = 404;

/// HTTP status of a reply to a request that failed on this side.
pub const STATUS_INTERNAL_ERROR: u16 = 500;

/// A reply as plain values: what the transport needs to build its own.
#[derive(Debug, PartialEq, Eq)]
pub struct Response {
    pub status: u16,
    pub content_type: String,
    pub body: Vec<u8>,
}

/// `==` on `str` of std, which tells whether two string slices hold the same
/// text.
pub assume_specification[ <str as PartialEq>::eq ](left: &str, right: &str) -> (same: bool)
    ensures
        same == (left@ == right@),
;

/// Calls `str::strip_prefix` of std, which returns what follows `prefix`
/// where `text` starts with it, and `None` where it does not.
#[verifier::external_body]
fn str_strip_prefix<'a>(text: &'a str, prefix: &str) -> (rest: Option<&'a str>)
    ensures
        match rest {
            Some(rest) => text@ == prefix@ + rest@,
            None => !prefix@.is_prefix_of(text@),
        },
{
    text.strip_prefix(prefix)
}

/// Calls `mime_guess::from_path`, which looks the extension of `name` up in
/// a table of media types, and takes the first guess, or
/// `application/octet-stream` where there is none, without parameters.
/// Nothing is claimed of the guess: what counts as the extension is decided
/// by the paths of the platform.
#[verifier::external_body]
fn mime_guess_from_path(name: &str) -> (mime: String) {
    mime_guess::from_path(name).first_or_octet_stream().essence_str().to_owned()
}

/// A reply with the given status, body and media type.
pub fn response(status: u16, body: Vec<u8>, mime: &str) -> (reply: Response)
    ensures
        reply.status == status,
        reply.content_type@ == mime@,
        reply.body@ == body@,
{
    Response { status, content_type: mime.to_owned(), body }
}

/// A reply that is an HTML page.
pub fn html(status: u16, body: String) -> (reply: Response)
    ensures
        reply.status == status,
        reply.content_type@ == "text/html; charset=utf-8"@,
        reply.body@ == encode_utf8(body@),
{
    response(status, body.as_str().as_bytes_vec(), "text/html; charset=utf-8")
}

/// A reply that is a script.
pub fn js(status: u16, body: String) -> (reply: Response)
    ensures
        reply.status == status,
        reply.content_type@ == "text/javascript; charset=utf-8"@,
        reply.body@ == encode_utf8(body@),
{
    response(status, body.as_str().as_bytes_vec(), "text/javascript; charset=utf-8")
}

/// A reply that is the file `name`, with the media type guessed from the
/// name.
pub fn static_file(status: u16, name: &str, body: Vec<u8>) -> (reply: Response)
    ensures
        reply.status == status,
        reply.body@ == body@,
{
    let mime = mime_guess_from_path(name);
    response(status, body, mime.as_str())
}

/// What a request asks for.
#[derive(Debug, PartialEq, Eq)]
pub enum Route {
    /// The front page.
    Homepage,
    /// The script that pages include.
    Script,
    /// The public key.
    Pubkey,
    /// Sealing a value.
    Encrypt,
    /// The page that reveals a sealed value.
    Show,
    /// Revealing a batch of sealed values.
    Decrypt,
    /// The asset of this name.
    Static(String),
    /// Nothing that is served.
    NotFound,
}

/// What a `Route` stands for.
pub enum RouteView {
    Homepage,
    Script,
    Pubkey,
    Encrypt,
    Show,
    Decrypt,
    Static(Seq<char>),
    NotFound,
}

impl View for Route {
    type V = RouteView;

    open spec fn view(&self) -> RouteView {
        match self {
            Route::Homepage => RouteView::Homepage,
            Route::Script => RouteView::Script,
            Route::Pubkey => RouteView::Pubkey,
            Route::Encrypt => RouteView::Encrypt,
            Route::Show => RouteView::Show,
            Route::Decrypt => RouteView::Decrypt,
            Route::Static(name) => RouteView::Static(name@),
            Route::NotFound => RouteView::NotFound,
        }
    }
}

/// The route of a request by its method and path. Everything is asked for
/// with `GET` but the batch, which is asked for with any other method. What
/// follows `/static/` is the name of an asset.
pub open spec fn route_spec(is_get: bool, path: Seq<char>) -> RouteView {
    if !is_get {
        if path == "/v1/decrypt"@ {
            RouteView::Decrypt
        } else {
            RouteView::NotFound
        }
    } else if path == "/"@ {
        RouteView::Homepage
    } else if path == "/v1/script.js"@ {
        RouteView::Script
    } else if path == "/v1/pubkey"@ {
        RouteView::Pubkey
    } else if path == "/v1/encrypt"@ {
        RouteView::Encrypt
    } else if path == "/v1/show"@ {
        RouteView::Show
    } else if path == "/favicon.ico"@ {
        RouteView::Static("favicon.ico"@)
    } else if "/static/"@.is_prefix_of(path) {
        RouteView::Static(path.skip("/static/"@.len() as int))
    } else {
        RouteView::NotFound
    }
}

/// Finds the route of a request.
pub fn route(is_get: bool, path: &str) -> (found: Route)
    ensures
        found@ == route_spec(is_get, path@),
{
    if !is_get {
        if *path == *"/v1/decrypt" {
            Route::Decrypt
        } else {
            Route::NotFound
        }
    } else if *path == *"/" {
        Route::Homepage
    } else if *path == *"/v1/script.js" {
        Route::Script
    } else if *path == *"/v1/pubkey" {
        Route::Pubkey
    } else if *path == *"/v1/encrypt" {
        Route::Encrypt
    } else if *path == *"/v1/show" {
        Route::Show
    } else if *path == *"/favicon.ico" {
        Route::Static("favicon.ico".to_owned())
    } else {
        match str_strip_prefix(path, "/static/") {
            Some(name) => {
                assert(path@.skip("/static/"@.len() as int) =~= name@);
                Route::Static(name.to_owned())
            },
            None => Route::NotFound,
        }
    }
}

/// Why a request got no reply of its own.
#[derive(Clone, Copy, Debug, PartialEq, Eq, Structural)]
pub enum Failure {
    /// Nothing is served under the path.
    NotFound,
    /// The address of the request could not be read.
    BadUrl,
    /// Anything else: a failure on this side.
    Internal,
}

/// The HTTP status that reports a failure.
pub open spec fn failure_status_spec(failure: Failure) -> u16 {
    match failure {
        Failure::NotFound => STATUS_NOT_FOUND,
        Failure::BadUrl => STATUS_BAD_REQUEST,
        Failure::Internal => STATUS_INTERNAL_ERROR,
    }
}

/// The page that reports a failure with `message`.
pub open spec fn error_page_spec(message: Seq<char>) -> Seq<char> {
    "<!DOCTYPE html><html><head><title>"@ + message
        + "</title></head><body><h1>Error occurred</h1><pre>"@ + message
        + "</pre></body></html>"@
}

/// Builds the page that reports a failure with `message`.
pub fn error_page(message: &str) -> (page: String)
    ensures
        page@ == error_page_spec(message@),
{
    let mut page = "<!DOCTYPE html><html><head><title>".to_owned();
    page.append(message);
    page.append("</title></head><body><h1>Error occurred</h1><pre>");
    page.append(message);
    page.append("</pre></body></html>");
    page
}

/// The reply that reports a failure: the page with `message`, under the
/// status of the failure.
pub fn failure_response(failure: Failure, message: &str) -> (reply: Response)
    ensures
        reply.status == failure_status_spec(failure),
        reply.content_type@ == "text/html; charset=utf-8"@,
        reply.body@ == encode_utf8(error_page_spec(message@)),
{
    let status: u16 = match failure {
        Failure::NotFound => STATUS_NOT_FOUND,
        Failure::BadUrl => STATUS_BAD_REQUEST,
        Failure::Internal => STATUS_INTERNAL_ERROR,
    };
    html(status, error_page(message))
}

} // verus!
