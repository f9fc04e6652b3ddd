//! Requests to the Twitch API, described as values. The program sends them;
//! the library says what is in them.

use crate::twitch_socket::api_structs::{SubscriptionBody, SubscriptionBodyView};
use vstd::prelude::*;
use vstd::string::*;

verus! {

/// The HTTP method of a request.
#[derive(Clone, Copy, Debug, PartialEq, Eq, Structural)]
pub enum Method {
    Get,
    Post,
}

/// One request to the Twitch API. The token goes into the header
/// `Authorization` after the word `Bearer`, the client id into the header
/// `Client-Id`, and a body is sent as JSON.
#[derive(Debug)]
pub struct ApiRequest {
    pub method: Method,
    pub url: String,
    pub query: Vec<(String, String)>,
    pub bearer: String,
    pub client_id: String,
    pub json: Option<SubscriptionBody>,
}

/// What an [`ApiRequest`] holds, as plain mathematical values.
pub struct ApiRequestView {
    pub method: Method,
    pub url: Seq<char>,
    pub query: Seq<(Seq<char>, Seq<char>)>,
    pub bearer: Seq<char>,
    pub client_id: Seq<char>,
    pub json: Option<SubscriptionBodyView>,
}

impl View for ApiRequest {
    type V = ApiRequestView;

    open spec fn view(&self) -> ApiRequestView {
        ApiRequestView {
            method: self.method,
            url: self.url@,
            query: self.query.deep_view(),
            bearer: self.bearer@,
            client_id: self.client_id@,
            json: match self.json {
                Some(body) => Some(body@),
                None => None,
            },
        }
    }
}

/// The headers that a request carries, in the order in which they are set.
pub open spec fn headers_of(request: ApiRequestView) -> Seq<(Seq<char>, Seq<char>)> {
    let always = seq![
        ("Authorization"@, "Bearer "@ + request.bearer),
        ("Client-Id"@, request.client_id),
    ];
    if request.json.is_some() {
        always.push(("Content-Type"@, "application/json"@))
    } else {
        always
    }
}

/// The request that asks the channel search at `api_url` for `login`: a GET
/// with the login as the query.
pub open spec fn search_request(
    api_url: Seq<char>,
    login: Seq<char>,
    token: Seq<char>,
    client_id: Seq<char>,
) -> ApiRequestView {
    ApiRequestView {
        method: Method::Get,
        url: api_url,
        query: seq![("query"@, login)],
        bearer: token,
        client_id: client_id,
        json: None,
    }
}

/// The request that asks the channel search at `api_url` for `login`.
pub fn search_channels(api_url: &str, login: &str, token: &str, client_id: &str) -> (request:
    ApiRequest)
    ensures
        request@ == search_request(api_url@, login@, token@, client_id@),
{
    let mut query: Vec<(String, String)> = Vec::new();
    query.push((String::from_str("query"), String::from_str(login)));
    let request = ApiRequest {
        method: Method::Get,
        url: String::from_str(api_url),
        query,
        bearer: String::from_str(token),
        client_id: String::from_str(client_id),
        json: None,
    };
    assert(request@.query =~= seq![("query"@, login@)]);
    request
}

impl ApiRequest {
    /// The headers to send: the token, the client id and, with a body, its
    /// type.
    pub fn headers(&self) -> (headers: Vec<(String, String)>)
        ensures
            headers.deep_view() == headers_of(self@),
    {
        let mut authorization = String::from_str("Bearer ");
        authorization.append(self.bearer.as_str());
        let mut headers: Vec<(String, String)> = Vec::new();
        headers.push((String::from_str("Authorization"), authorization));
        headers.push((String::from_str("Client-Id"), self.client_id.clone()));
        if self.json.is_some() {
            headers.push((String::from_str("Content-Type"), String::from_str("application/json")));
        }
        assert(headers.deep_view() =~= headers_of(self@));
        headers
    }
}

} // verus!
