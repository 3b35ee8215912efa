//! The HTTP request that each command sends, with its JSON body.

use vstd::prelude::*;
use vstd::string::*;
use crate::command::{Command, DropCreate, DropEdit, EditValue};
use crate::text::{int_text, int_to_text};

verus! {

/// The JSON text of a string: quoted, with the characters JSON reserves escaped.
pub uninterp spec fn json_string_of(s: Seq<char>) -> Seq<char>;

/// Relies on serde_json::to_string on a `str`: the string written as a JSON
/// string. Serialising into memory does not fail for a `str`.
#[verifier::external_body]
fn json_quote(s: &str) -> (r: String)
    ensures
        r@ == json_string_of(s@),
{
    serde_json::to_string(s).unwrap_or_default()
}

/// Where the service is reached, and the credential header sent with every request.
#[derive(Debug, Clone, PartialEq, Eq)]
pub struct ClientConfig {
    pub lists_endpoint: String,
    pub create_endpoint: String,
    pub edit_endpoint: String,
    pub delete_endpoint: String,
    pub header_name: String,
    pub header_value: String,
}

#[derive(Debug, Clone, PartialEq, Eq)]
pub enum Method {
    Get,
    Post,
}

/// One request to the service. A request with a body sends it as JSON.
#[derive(Debug, Clone, PartialEq, Eq)]
pub struct HttpRequest {
    pub method: Method,
    pub url: String,
    pub header_name: String,
    pub header_value: String,
    pub body: Option<String>,
}

impl ClientConfig {
    /// A service on this machine, on port 3000, with the placeholder credential.
    pub fn local() -> (r: ClientConfig)
        ensures
            r.lists_endpoint@ == "http://localhost:3000/"@,
            r.create_endpoint@ == "http://localhost:3000/"@,
            r.edit_endpoint@ == "http://localhost:3000/"@,
            r.delete_endpoint@ == "http://localhost:3000/"@,
            r.header_name@ == "header"@,
            r.header_value@ == "value"@,
    {
        ClientConfig {
            lists_endpoint: String::from_str("http://localhost:3000/"),
            create_endpoint: String::from_str("http://localhost:3000/"),
            edit_endpoint: String::from_str("http://localhost:3000/"),
            delete_endpoint: String::from_str("http://localhost:3000/"),
            header_name: String::from_str("header"),
            header_value: String::from_str("value"),
        }
    }
}

pub open spec fn create_body(c: DropCreate) -> Seq<char> {
    "{\"name\":"@ + json_string_of(c.name@) + ",\"param\":"@ + json_string_of(c.param@)
        + ",\"secret\":"@ + json_string_of(c.secret@) + ",\"type\":"@ + json_string_of(
        c.drop_type@,
    ) + ",\"stock\":"@ + int_text(c.stock as int) + "}"@
}

/// The JSON text of an edited value: a number for an integer, a string otherwise.
pub open spec fn edit_value_json(v: EditValue) -> Seq<char> {
    match v {
        EditValue::Int(n) => int_text(n as int),
        EditValue::Text(s) => json_string_of(s@),
    }
}

pub open spec fn edit_body(e: DropEdit) -> Seq<char> {
    "{\"name\":"@ + json_string_of(e.name@) + ",\"argument\":"@ + json_string_of(e.argument@)
        + ",\"value\":"@ + edit_value_json(e.value) + "}"@
}

pub open spec fn delete_body(name: Seq<char>) -> Seq<char> {
    "{\"name\":"@ + json_string_of(name) + "}"@
}

/// The JSON body that creates the drop `c`.
pub fn create_body_text(c: &DropCreate) -> (r: String)
    ensures
        r@ == create_body(*c),
{
    let mut out = String::from_str("{\"name\":");
    out.append(json_quote(c.name.as_str()).as_str());
    out.append(",\"param\":");
    out.append(json_quote(c.param.as_str()).as_str());
    out.append(",\"secret\":");
    out.append(json_quote(c.secret.as_str()).as_str());
    out.append(",\"type\":");
    out.append(json_quote(c.drop_type.as_str()).as_str());
    out.append(",\"stock\":");
    out.append(int_to_text(c.stock as i64).as_str());
    out.append("}");
    out
}

/// The JSON body that changes one field of a drop.
pub fn edit_body_text(e: &DropEdit) -> (r: String)
    ensures
        r@ == edit_body(*e),
{
    let mut out = String::from_str("{\"name\":");
    out.append(json_quote(e.name.as_str()).as_str());
    out.append(",\"argument\":");
    out.append(json_quote(e.argument.as_str()).as_str());
    out.append(",\"value\":");
    match &e.value {
        EditValue::Int(n) => out.append(int_to_text(*n as i64).as_str()),
        EditValue::Text(s) => out.append(json_quote(s.as_str()).as_str()),
    }
    out.append("}");
    out
}

/// The JSON body that deletes the drop called `name`.
pub fn delete_body_text(name: &str) -> (r: String)
    ensures
        r@ == delete_body(name@),
{
    let mut out = String::from_str("{\"name\":");
    out.append(json_quote(name).as_str());
    out.append("}");
    out
}

pub open spec fn sends(
    cfg: ClientConfig,
    q: HttpRequest,
    post: bool,
    url: Seq<char>,
    body: Option<Seq<char>>,
) -> bool {
    (if post {
        q.method is Post
    } else {
        q.method is Get
    }) && q.url@ == url && q.header_name@ == cfg.header_name@ && q.header_value@
        == cfg.header_value@ && match body {
        Some(b) => q.body is Some && q.body->0@ == b,
        None => q.body is None,
    }
}

/// The request that `cmd` sends, if it sends one.
pub open spec fn request_spec(cfg: ClientConfig, cmd: Command, r: Option<HttpRequest>) -> bool {
    match cmd {
        Command::Help => r is None,
        _ => r is Some && match cmd {
            Command::List => sends(
                cfg,
                r->0,
                false,
                cfg.lists_endpoint@ + "?all_drops=true"@,
                None,
            ),
            Command::View(n) => sends(cfg, r->0, false, cfg.lists_endpoint@ + "?drop="@ + n@, None),
            Command::Create(c) => sends(cfg, r->0, true, cfg.create_endpoint@, Some(create_body(c))),
            Command::Edit(e) => sends(cfg, r->0, true, cfg.edit_endpoint@, Some(edit_body(e))),
            Command::Delete(n) => sends(cfg, r->0, true, cfg.delete_endpoint@, Some(delete_body(n@))),
            Command::Help => false,
        },
    }
}

fn request(cfg: &ClientConfig, method: Method, url: String, body: Option<String>) -> (r:
    HttpRequest)
    ensures
        r.method == method,
        r.url == url,
        r.body == body,
        r.header_name@ == cfg.header_name@,
        r.header_value@ == cfg.header_value@,
{
    HttpRequest {
        method,
        url,
        header_name: cfg.header_name.clone(),
        header_value: cfg.header_value.clone(),
        body,
    }
}

/// Builds the one request that a command sends; `help` sends none.
pub fn request_for(cfg: &ClientConfig, cmd: &Command) -> (r: Option<HttpRequest>)
    ensures
        request_spec(*cfg, *cmd, r),
{
    match cmd {
        Command::Help => None,
        Command::List => {
            let url = cfg.lists_endpoint.clone().concat("?all_drops=true");
            Some(request(cfg, Method::Get, url, None))
        },
        Command::View(n) => {
            let url = cfg.lists_endpoint.clone().concat("?drop=").concat(n.as_str());
            Some(request(cfg, Method::Get, url, None))
        },
        Command::Create(c) => {
            let url = cfg.create_endpoint.clone();
            Some(request(cfg, Method::Post, url, Some(create_body_text(c))))
        },
        Command::Edit(e) => {
            let url = cfg.edit_endpoint.clone();
            Some(request(cfg, Method::Post, url, Some(edit_body_text(e))))
        },
        Command::Delete(n) => {
            let url = cfg.delete_endpoint.clone();
            Some(request(cfg, Method::Post, url, Some(delete_body_text(n.as_str()))))
        },
    }
}

} // verus!
