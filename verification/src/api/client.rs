//! The upstream service, as far as this crate decides about it: what is
//! sent, and what an answer means. Sending is left to the caller.

use crate::decimal::{digits_text, push_digits};
use crate::errors::{EctusError, Failure};
use crate::json::{json_parse, json_text, Json, JsonView};
use crate::text::opt_text;
use vstd::prelude::*;
use vstd::string::StringExecFns;

verus! {

#[derive(Clone)]
pub struct ApiClient {
    base: String,
    api_key: Option<String>,
}

/// A request to post a JSON body.
#[derive(Debug)]
pub struct HttpRequest {
    pub url: String,
    /// The bearer credential, where there is one.
    pub bearer: Option<String>,
    pub body: String,
}

/// What came of a request.
#[derive(Debug)]
pub enum HttpReply {
    /// An answer arrived: its status code, the phrase that stands for the
    /// code, and its body.
    Answered { status: u16, reason: String, body: String },
    /// The request could not be sent; with the reason.
    Failed(String),
}

/// What a request holds.
pub ghost struct HttpRequestView {
    pub url: Seq<char>,
    pub bearer: Option<Seq<char>>,
    pub body: Seq<char>,
}

impl View for HttpRequest {
    type V = HttpRequestView;

    open spec fn view(&self) -> HttpRequestView {
        HttpRequestView { url: self.url@, bearer: opt_text(self.bearer), body: self.body@ }
    }
}

/// What a reply holds.
pub ghost enum HttpReplyView {
    Answered { status: u16, reason: Seq<char>, body: Seq<char> },
    Failed(Seq<char>),
}

impl View for HttpReply {
    type V = HttpReplyView;

    open spec fn view(&self) -> HttpReplyView {
        match self {
            HttpReply::Answered { status, reason, body } => HttpReplyView::Answered {
                status: *status,
                reason: reason@,
                body: body@,
            },
            HttpReply::Failed(m) => HttpReplyView::Failed(m@),
        }
    }
}

/// What an answer of the upstream service means. An answer with a status
/// from 200 to 299 gives the document in its body, or the body as a string
/// where it holds no document. Every other answer is a failure that tells
/// the status and the body, and so is a request that could not be sent.
pub open spec fn reply_value(reply: HttpReplyView) -> Result<JsonView, Failure> {
    match reply {
        HttpReplyView::Failed(_) => Err(Failure::Http("send request"@)),
        HttpReplyView::Answered { status, reason, body } => if 200 <= status < 300 {
            Ok(
                match json_parse(body) {
                    Ok(j) => j,
                    Err(_) => JsonView::Str(body),
                },
            )
        } else {
            Err(
                Failure::Http(
                    "status "@ + digits_text(status as nat) + " "@ + reason + ": "@ + body,
                ),
            )
        },
    }
}

/// The request that posts `body` to `path` of the service of `client`.
pub open spec fn post(client: ApiClient, path: Seq<char>, body: JsonView) -> HttpRequestView {
    HttpRequestView {
        url: client.base() + path,
        bearer: client.api_key(),
        body: json_text(body),
    }
}

impl ApiClient {
    pub closed spec fn base(&self) -> Seq<char> {
        self.base@
    }

    pub closed spec fn api_key(&self) -> Option<Seq<char>> {
        opt_text(self.api_key)
    }

    pub fn new(base: String, api_key: Option<String>) -> (client: ApiClient)
        ensures
            client.base() == base@,
            client.api_key() == opt_text(api_key),
    {
        ApiClient { base, api_key }
    }

    /// The name under which requests are sent.
    pub fn user_agent() -> (agent: &'static str)
        ensures
            agent@ == "ectusr2/0.1"@,
    {
        "ectusr2/0.1"
    }

    /// The request that posts `body` to `path`: to the base address followed
    /// by the path, with the credential where one is configured.
    pub fn post_json(&self, path: &str, body: &Json) -> (request: HttpRequest)
        ensures
            request@ == post(*self, path@, body@),
    {
        let mut url = self.base.clone();
        url.append(path);
        HttpRequest { url, bearer: self.api_key.clone(), body: body.render() }
    }

    /// What an answer means.
    pub fn read_reply(reply: HttpReply) -> (r: Result<Json, EctusError>)
        ensures
            match r {
                Ok(j) => reply_value(reply@) == Ok::<JsonView, Failure>(j@),
                Err(e) => reply_value(reply@) == Err::<JsonView, Failure>(e@),
            },
    {
        match reply {
            HttpReply::Failed(_) => Err(EctusError::Http("send request".to_owned())),
            HttpReply::Answered { status, reason, body } => {
                if 200 <= status && status < 300 {
                    match Json::parse(body.as_str()) {
                        Ok(j) => Ok(j),
                        Err(_) => Ok(Json::Str(body)),
                    }
                } else {
                    let mut msg = String::new();
                    msg.append("status ");
                    push_digits(&mut msg, status as u128);
                    msg.append(" ");
                    msg.append(reason.as_str());
                    msg.append(": ");
                    msg.append(body.as_str());
                    Err(EctusError::Http(msg))
                }
            },
        }
    }
}

} // verus!
