use vstd::prelude::*;
use crate::table::RepoError;
use crate::todo::RequestError;

verus! {

pub const STATUS_OK: u16 = 200;

pub const STATUS_NOT_FOUND: u16 = 404;

pub const STATUS_UNPROCESSABLE: u16 = 422;

pub const STATUS_INTERNAL_ERROR: u16 = 500;

/// An HTTP reply: a status code and a body.
#[derive(Debug, Clone)]
pub struct Reply {
    pub status: u16,
    pub body: String,
}

#[verifier::external_type_specification]
#[verifier::external_body]
/// Opaque: the template set.
pub struct ExTera(tera::Tera);

#[verifier::external_type_specification]
#[verifier::external_body]
/// Opaque: the values a template is rendered against.
pub struct ExTeraContext(tera::Context);

#[verifier::external_type_specification]
#[verifier::external_body]
/// Opaque: a template lookup or render failure.
pub struct ExTeraError(tera::Error);

#[verifier::external_type_specification]
#[verifier::external_body]
/// Opaque: a JSON serialisation failure.
pub struct ExJsonError(serde_json::Error);

/// Relies on tera::Tera::render: renders the named template against the context.
#[verifier::external_body]
fn tera_render(tera: &tera::Tera, name: &str, ctx: &tera::Context) -> (r: Result<String, tera::Error>) {
    tera.render(name, ctx)
}

/// Relies on the Debug impl of tera::Error for a description of the failure.
#[verifier::external_body]
fn render_error_text(e: &tera::Error) -> (r: String) {
    format!("{:?}", e)
}

/// What serde_json writes for a string: the string as a quoted JSON literal.
pub uninterp spec fn json_quoted(s: Seq<char>) -> Seq<char>;

/// Relies on serde_json::to_string on a `str`, which writes the quoted,
/// escaped literal into a `Vec` and cannot fail.
#[verifier::external_body]
fn quote_json(s: &str) -> (r: Result<String, serde_json::Error>)
    ensures
        r is Ok,
        r->Ok_0@ == json_quoted(s@),
{
    serde_json::to_string(s)
}

pub open spec fn query_failed_message() -> Seq<char> {
    "Error querying for todos"@
}

pub open spec fn error_page_head() -> Seq<char> {
    "<html><head><title>Oops.</title></head><body><h1>Something really bad happened</h1>"@
}

pub open spec fn error_page_tail() -> Seq<char> {
    "</body></html>"@
}

/// The static page shown when a template cannot be rendered.
pub open spec fn error_page(detail: Seq<char>) -> Seq<char> {
    error_page_head() + detail + error_page_tail()
}

/// The status an HTML reply for a repository failure carries: a missing row
/// is 404, every other failure 500.
pub open spec fn failure_status(err: RepoError) -> u16 {
    match err {
        RepoError::NotFound(_) => STATUS_NOT_FOUND,
        _ => STATUS_INTERNAL_ERROR,
    }
}

/// The JSON body of a failed JSON request: an object whose `error` field
/// holds the description.
pub open spec fn json_error_body(text: Seq<char>) -> Seq<char> {
    "{\"error\":"@ + json_quoted(text) + "}"@
}

/// The reply for the outcome of rendering a template: the rendered text with
/// 200, or the static error page describing the failure with 500.
pub fn reply_for_render(rendered: Result<String, String>) -> (r: Reply)
    ensures
        rendered matches Ok(body) ==> r.status == STATUS_OK && r.body@ == body@,
        rendered matches Err(detail) ==> r.status == STATUS_INTERNAL_ERROR && r.body@
            == error_page(detail@),
{
    match rendered {
        Ok(body) => Reply { status: STATUS_OK, body },
        Err(detail) => {
            proof {
                reveal_strlit(
                    "<html><head><title>Oops.</title></head><body><h1>Something really bad happened</h1>",
                );
                reveal_strlit("</body></html>");
            }
            let page = String::from_str(
                "<html><head><title>Oops.</title></head><body><h1>Something really bad happened</h1>",
            );
            let page = page.concat(detail.as_str());
            let page = page.concat("</body></html>");
            Reply { status: STATUS_INTERNAL_ERROR, body: page }
        },
    }
}

/// Renders the named template against the context; a render failure becomes
/// the static error page, never a partial page.
pub fn render_template(name: &str, ctx: &tera::Context, tera: &tera::Tera) -> (r: Reply)
    ensures
        r.status == STATUS_OK || (r.status == STATUS_INTERNAL_ERROR && exists|d: Seq<char>|
            r.body@ == error_page(d)),
{
    let rendered = match tera_render(tera, name, ctx) {
        Ok(body) => Ok(body),
        Err(e) => Err(render_error_text(&e)),
    };
    reply_for_render(rendered)
}

/// The description of a repository failure.
pub open spec fn description(err: RepoError) -> Seq<char> {
    match err {
        RepoError::NotFound(_) => "todo not found"@,
        RepoError::IdsExhausted => "todo ids exhausted"@,
        RepoError::Database(t) => t@,
    }
}

impl RepoError {
    /// A description of the failure.
    pub fn describe(&self) -> (r: String)
        ensures
            r@ == description(*self),
    {
        match self {
            RepoError::NotFound(_) => {
                proof {
                    reveal_strlit("todo not found");
                }
                String::from_str("todo not found")
            },
            RepoError::IdsExhausted => {
                proof {
                    reveal_strlit("todo ids exhausted");
                }
                String::from_str("todo ids exhausted")
            },
            RepoError::Database(t) => t.clone(),
        }
    }
}

/// The HTML reply for a failed repository operation.
pub fn failure_page(err: &RepoError) -> (r: Reply)
    ensures
        r.status == failure_status(*err),
        r.body@ == query_failed_message(),
{
    proof {
        reveal_strlit("Error querying for todos");
    }
    let body = String::from_str("Error querying for todos");
    match err {
        RepoError::NotFound(_) => Reply { status: STATUS_NOT_FOUND, body },
        _ => Reply { status: STATUS_INTERNAL_ERROR, body },
    }
}

/// The JSON reply for a failed repository operation: always 500, with the
/// failure's description in the `error` field.
pub fn failure_json(err: &RepoError) -> (r: Reply)
    ensures
        r.status == STATUS_INTERNAL_ERROR,
        r.body@ == json_error_body(description(*err)),
{
    let text = err.describe();
    let quoted = match quote_json(text.as_str()) {
        Ok(q) => q,
        Err(_) => String::new(),
    };
    proof {
        reveal_strlit("{\"error\":");
        reveal_strlit("}");
    }
    let body = String::from_str("{\"error\":");
    let body = body.concat(quoted.as_str());
    let body = body.concat("}");
    Reply { status: STATUS_INTERNAL_ERROR, body }
}

/// The HTML reply of a handler: on success the named template rendered
/// against the context, on a repository failure the failure page. Nothing is
/// rendered when the repository failed.
pub fn html_outcome_reply(outcome: Result<tera::Context, RepoError>, name: &str, tera: &tera::Tera) -> (r: Reply)
    ensures
        outcome matches Err(e) ==> r.status == failure_status(e) && r.body@ == query_failed_message(),
        outcome is Ok ==> r.status == STATUS_OK || (r.status == STATUS_INTERNAL_ERROR && exists|
            d: Seq<char>,
        | r.body@ == error_page(d)),
{
    match outcome {
        Ok(ctx) => render_template(name, &ctx, tera),
        Err(e) => failure_page(&e),
    }
}

/// The reply to a request body that was refused before reaching the repository.
pub fn rejection_reply(err: RequestError) -> (r: Reply)
    ensures
        r.status == STATUS_UNPROCESSABLE,
        r.body@ == "Missing title"@,
{
    proof {
        reveal_strlit("Missing title");
    }
    match err {
        RequestError::MissingTitle => Reply { status: STATUS_UNPROCESSABLE, body: String::from_str("Missing title") },
    }
}

} // verus!
