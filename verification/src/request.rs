//! Requests to the Kubernetes API server and what comes back.

use crate::config::{node_user, PcrConfig, PcrConfigView};
use crate::identity::{Error, ErrorView};
use crate::text::{
    is_rid_of_white_ends, law_trimming_takes_only_white_space, lossy_text, read_lossily,
    text_from_utf8, text_from_utf8_lossy, trim, trimmed, utf8_refusal,
};
use vstd::prelude::*;
use vstd::string::*;
use vstd::utf8::*;

verus! {

/// The method of a request.
#[derive(Clone, Copy, Debug, PartialEq, Eq, Structural)]
pub enum Method {
    Get,
    Post,
}

/// The name of a method.
pub open spec fn method_name(method: Method) -> Seq<char> {
    match method {
        Method::Get => "GET"@,
        Method::Post => "POST"@,
    }
}

impl Method {
    /// The name of the method.
    pub fn name(self) -> (out: &'static str)
        ensures
            out@ == method_name(self),
    {
        match self {
            Method::Get => "GET",
            Method::Post => "POST",
        }
    }
}

/// A call to the API server: what is asked of which path.
#[derive(Debug)]
pub struct KubeCall {
    pub method: Method,
    pub path: String,
    pub body: Option<Vec<u8>>,
}

/// What a [`KubeCall`] asks.
pub struct KubeCallView {
    pub method: Method,
    pub path: Seq<char>,
    pub body: Option<Seq<u8>>,
}

impl View for KubeCall {
    type V = KubeCallView;

    open spec fn view(&self) -> KubeCallView {
        KubeCallView {
            method: self.method,
            path: self.path@,
            body: match self.body {
                Some(b) => Some(b@),
                None => None,
            },
        }
    }
}

/// A request in full: its URL, its headers by name and value, and its body.
#[derive(Debug)]
pub struct KubeRequest {
    pub method: Method,
    pub url: String,
    pub headers: [(&'static str, String); 4],
    pub body: Vec<u8>,
}

/// What a [`KubeRequest`] holds.
pub struct KubeRequestView {
    pub method: Method,
    pub url: Seq<char>,
    pub headers: Seq<(Seq<char>, Seq<char>)>,
    pub body: Seq<u8>,
}

/// The names and values of a list of headers.
pub open spec fn header_texts(headers: Seq<(&'static str, String)>) -> Seq<
    (Seq<char>, Seq<char>),
> {
    headers.map_values(|h: (&'static str, String)| (h.0@, h.1@))
}

impl View for KubeRequest {
    type V = KubeRequestView;

    open spec fn view(&self) -> KubeRequestView {
        KubeRequestView {
            method: self.method,
            url: self.url@,
            headers: header_texts(self.headers@),
            body: self.body@,
        }
    }
}

/// The request that carries out `call` with the given bearer token: it goes to the API
/// server, speaks JSON both ways, and impersonates the local node.
pub open spec fn request_of(
    cfg: PcrConfigView,
    token: Seq<char>,
    call: KubeCallView,
) -> KubeRequestView {
    KubeRequestView {
        method: call.method,
        url: cfg.apiserver_url + call.path,
        headers: seq![
            ("authorization"@, "Bearer "@ + token),
            ("accept"@, "application/json"@),
            ("content-type"@, "application/json"@),
            ("Impersonate-User"@, node_user(cfg.node_name)),
        ],
        body: match call.body {
            Some(b) => b,
            None => Seq::empty(),
        },
    }
}

/// The token in the bytes of a token file, or what is reported where there is none.
/// White space around the token does not count.
pub open spec fn token_in(cfg: PcrConfigView, file: Result<Seq<u8>, Seq<char>>) -> Result<
    Seq<char>,
    ErrorView,
> {
    match file {
        Err(e) => Err(ErrorView::Spiffe("reading SA token "@ + cfg.token_path + ": "@ + e)),
        Ok(raw) => if valid_utf8(raw) {
            Ok(trimmed(decode_utf8(raw)))
        } else {
            Err(ErrorView::Spiffe("SA token is not utf-8: "@ + utf8_refusal(raw)))
        },
    }
}

/// What came of reading a file.
pub open spec fn file_view(file: Result<Vec<u8>, String>) -> Result<Seq<u8>, Seq<char>> {
    match file {
        Ok(raw) => Ok(raw@),
        Err(e) => Err(e@),
    }
}

/// The token in the token file. `file` is what came of reading it: its bytes, or the
/// message of the failure.
pub fn read_token(cfg: &PcrConfig, file: Result<Vec<u8>, String>) -> (out: Result<String, Error>)
    ensures
        match out {
            Ok(token) => token_in(cfg@, file_view(file)) == Ok::<Seq<char>, ErrorView>(token@),
            Err(e) => token_in(cfg@, file_view(file)) == Err::<Seq<char>, ErrorView>(e@),
        },
{
    match file {
        Err(e) => Err(
            Error::Spiffe(
                "reading SA token ".to_owned().concat(cfg.token_path.as_str()).concat(": ").concat(
                    e.as_str(),
                ),
            ),
        ),
        Ok(raw) => token_in_text(text_from_utf8(raw)),
    }
}

/// The token in the text of a token file, or what to report where the file is no text.
pub fn token_in_text(text: Result<String, String>) -> (out: Result<String, Error>)
    ensures
        match text {
            Ok(s) => out is Ok && out->Ok_0@ == trimmed(s@),
            Err(e) => out is Err && out->Err_0@ == ErrorView::Spiffe(
                "SA token is not utf-8: "@ + e@,
            ),
        },
{
    match text {
        Ok(s) => Ok(trim(s.as_str()).to_owned()),
        Err(e) => Err(Error::Spiffe("SA token is not utf-8: ".to_owned().concat(e.as_str()))),
    }
}

/// The URL of a path on the API server.
pub fn url_of(cfg: &PcrConfig, path: &str) -> (out: String)
    ensures
        out@ == cfg.apiserver_url@ + path@,
{
    cfg.apiserver_url.clone().concat(path)
}

/// The request that carries out `call` with the given bearer token.
pub fn kube_request(cfg: &PcrConfig, token: &str, call: KubeCall) -> (out: KubeRequest)
    ensures
        out@ == request_of(cfg@, token@, call@),
{
    let headers: [(&'static str, String); 4] = [
        ("authorization", "Bearer ".to_owned().concat(token)),
        ("accept", "application/json".to_owned()),
        ("content-type", "application/json".to_owned()),
        ("Impersonate-User", cfg.impersonate_user()),
    ];
    let url: String = url_of(cfg, call.path.as_str());
    let body: Vec<u8> = match call.body {
        Some(b) => b,
        None => Vec::new(),
    };
    let out = KubeRequest { method: call.method, url, headers, body };
    proof {
        assert(out@.headers =~= request_of(cfg@, token@, call@).headers);
        assert(out@.body =~= request_of(cfg@, token@, call@).body);
    }
    out
}

/// A request of the `http` crate.
#[verifier::external_type_specification]
#[verifier::external_body]
#[verifier::reject_recursive_types(T)]
pub struct ExRequest<T>(http::Request<T>);

/// The request that the `http` crate builds from a method, a URL, headers and a body, or
/// the message with which it refuses them.
pub uninterp spec fn http_request(
    method: Seq<char>,
    url: Seq<char>,
    headers: Seq<(Seq<char>, Seq<char>)>,
    body: Seq<u8>,
) -> Result<http::Request<Vec<u8>>, Seq<char>>;

/// Calls the request builder of the `http` crate with a method, a URL, four headers and a
/// body. Claimed: the request, or the message of the refusal, depends on these alone.
#[verifier::external_body]
fn build_http_request(
    method: &str,
    url: &str,
    headers: &[(&'static str, String); 4],
    body: Vec<u8>,
) -> (out: Result<http::Request<Vec<u8>>, String>)
    ensures
        match out {
            Ok(request) => http_request(method@, url@, header_texts(headers@), body@) == Ok::<
                http::Request<Vec<u8>>,
                Seq<char>,
            >(request),
            Err(e) => http_request(method@, url@, header_texts(headers@), body@) == Err::<
                http::Request<Vec<u8>>,
                Seq<char>,
            >(e@),
        },
{
    http::Request::builder()
        .method(method)
        .uri(url)
        .header(headers[0].0, headers[0].1.as_str())
        .header(headers[1].0, headers[1].1.as_str())
        .header(headers[2].0, headers[2].1.as_str())
        .header(headers[3].0, headers[3].1.as_str())
        .body(body)
        .map_err(|e| e.to_string())
}

/// What came of building a request of the `http` crate.
pub open spec fn build_outcome(built: Result<http::Request<Vec<u8>>, Seq<char>>) -> Result<
    http::Request<Vec<u8>>,
    ErrorView,
> {
    match built {
        Ok(request) => Ok(request),
        Err(e) => Err(ErrorView::Spiffe("building kube request: "@ + e)),
    }
}

/// The request that was built, or what to report where it was refused.
pub fn built_request(built: Result<http::Request<Vec<u8>>, String>) -> (out: Result<
    http::Request<Vec<u8>>,
    Error,
>)
    ensures
        match built {
            Ok(request) => out == Ok::<http::Request<Vec<u8>>, Error>(request),
            Err(e) => out is Err && out->Err_0@ == ErrorView::Spiffe(
                "building kube request: "@ + e@,
            ),
        },
{
    match built {
        Ok(request) => Ok(request),
        Err(e) => Err(Error::Spiffe("building kube request: ".to_owned().concat(e.as_str()))),
    }
}

/// The request that carries out `call`, ready to be sent. `token_file` is what came of
/// reading the token file.
pub fn authorized_request(
    cfg: &PcrConfig,
    token_file: Result<Vec<u8>, String>,
    call: KubeCall,
) -> (out: Result<http::Request<Vec<u8>>, Error>)
    ensures
        match token_in(cfg@, file_view(token_file)) {
            Err(e) => out is Err && out->Err_0@ == e,
            Ok(token) => {
                let r = request_of(cfg@, token, call@);
                let built = http_request(method_name(r.method), r.url, r.headers, r.body);
                match out {
                    Ok(request) => build_outcome(built) == Ok::<
                        http::Request<Vec<u8>>,
                        ErrorView,
                    >(request),
                    Err(e) => build_outcome(built) == Err::<
                        http::Request<Vec<u8>>,
                        ErrorView,
                    >(e@),
                }
            },
        },
{
    match read_token(cfg, token_file) {
        Err(e) => Err(e),
        Ok(token) => {
            let r: KubeRequest = kube_request(cfg, token.as_str(), call);
            built_request(
                build_http_request(r.method.name(), r.url.as_str(), &r.headers, r.body),
            )
        },
    }
}

/// What came of sending a request.
#[derive(Debug)]
pub enum Exchange {
    /// No answer came; the text says why.
    SendFailed(String),
    /// An answer came, but its body could not be read to the end.
    ReadFailed(String),
    /// The status and the body of the answer.
    Answered { status: u16, body: Vec<u8> },
}

/// The status and the body of the answer from `url`, or what to report where there is
/// none.
pub fn answer(url: &str, exchange: Exchange) -> (out: Result<(u16, Vec<u8>), Error>)
    ensures
        match exchange {
            Exchange::SendFailed(e) => out is Err && out->Err_0@ == ErrorView::Spiffe(
                "kube request to "@ + url@ + ": "@ + e@,
            ),
            Exchange::ReadFailed(e) => out is Err && out->Err_0@ == ErrorView::Spiffe(
                "reading kube response: "@ + e@,
            ),
            Exchange::Answered { status, body } => out == Ok::<(u16, Vec<u8>), Error>(
                (status, body),
            ),
        },
{
    match exchange {
        Exchange::SendFailed(e) => Err(
            Error::Spiffe(
                "kube request to ".to_owned().concat(url).concat(": ").concat(e.as_str()),
            ),
        ),
        Exchange::ReadFailed(e) => Err(
            Error::Spiffe("reading kube response: ".to_owned().concat(e.as_str())),
        ),
        Exchange::Answered { status, body } => Ok((status, body)),
    }
}

/// An answer of the API server: its status, its body, and what came of parsing the body
/// as the object that was asked for.
#[derive(Debug)]
pub struct Reply<T> {
    pub status: u16,
    pub body: Vec<u8>,
    pub parsed: Result<T, String>,
}

/// The statuses that mean success.
pub open spec fn success(status: u16) -> bool {
    200 <= status < 300
}

/// How the `http` crate prints a status code, or its refusal of a number that is none.
pub uninterp spec fn status_text(status: u16) -> Seq<char>;

/// Calls `StatusCode::from_u16` of the `http` crate and prints the status code, or the
/// error where the number is no status code. Claimed: the text depends on the number
/// alone.
#[verifier::external_body]
fn print_status(status: u16) -> (out: String)
    ensures
        out@ == status_text(status),
{
    match http::StatusCode::from_u16(status) {
        Ok(code) => code.to_string(),
        Err(e) => e.to_string(),
    }
}

/// The object in a reply, or what is reported where there is none: `asking` says what was
/// asked, `parsing` what the object is.
pub open spec fn reply_outcome<T>(
    reply: Reply<T>,
    asking: Seq<char>,
    parsing: Seq<char>,
) -> Result<T, ErrorView> {
    if !success(reply.status) {
        Err(
            ErrorView::Spiffe(
                asking + ": status "@ + status_text(reply.status) + ", body "@ + read_lossily(
                    reply.body@,
                ),
            ),
        )
    } else {
        match reply.parsed {
            Ok(object) => Ok(object),
            Err(e) => Err(ErrorView::Spiffe("parsing "@ + parsing + ": "@ + e@)),
        }
    }
}

/// What to report of an answer without success, given the texts of its status and body.
pub fn unsuccessful(asking: String, status: &str, body: &str) -> (out: Error)
    ensures
        out@ == ErrorView::Spiffe(asking@ + ": status "@ + status@ + ", body "@ + body@),
{
    Error::Spiffe(asking.concat(": status ").concat(status).concat(", body ").concat(body))
}

/// The object in a reply, or what to report where there is none.
pub fn accept<T>(reply: Reply<T>, asking: String, parsing: &str) -> (out: Result<T, Error>)
    ensures
        match out {
            Ok(object) => reply_outcome(reply, asking@, parsing@) == Ok::<T, ErrorView>(object),
            Err(e) => reply_outcome(reply, asking@, parsing@) == Err::<T, ErrorView>(e@),
        },
{
    if !(200 <= reply.status && reply.status < 300) {
        let status: String = print_status(reply.status);
        let body: String = text_from_utf8_lossy(reply.body.as_slice());
        return Err(unsuccessful(asking, status.as_str(), body.as_str()));
    }
    match reply.parsed {
        Ok(object) => Ok(object),
        Err(e) => Err(
            Error::Spiffe(
                "parsing ".to_owned().concat(parsing).concat(": ").concat(e.as_str()),
            ),
        ),
    }
}

/// Whatever is asked, the request impersonates the local node and no one else, and
/// carries the token as its bearer token.
pub proof fn law_every_request_acts_as_the_node(
    cfg: PcrConfigView,
    token: Seq<char>,
    call: KubeCallView,
)
    ensures
        forall|i: int|
            0 <= i < request_of(cfg, token, call).headers.len() && #[trigger] request_of(
                cfg,
                token,
                call,
            ).headers[i].0 == "Impersonate-User"@ ==> request_of(cfg, token, call).headers[i].1
                == node_user(cfg.node_name),
        request_of(cfg, token, call).headers.contains(
            ("Impersonate-User"@, node_user(cfg.node_name)),
        ),
        request_of(cfg, token, call).headers.contains(("authorization"@, "Bearer "@ + token)),
{
    reveal_strlit("authorization");
    reveal_strlit("accept");
    reveal_strlit("content-type");
    reveal_strlit("Impersonate-User");
    let h = request_of(cfg, token, call).headers;
    assert(h[3] == ("Impersonate-User"@, node_user(cfg.node_name)));
    assert(h[0] == ("authorization"@, "Bearer "@ + token));
    assert(h[0].0[0] != "Impersonate-User"@[0]);
    assert(h[1].0[0] != "Impersonate-User"@[0]);
    assert(h[2].0[0] != "Impersonate-User"@[0]);
}

/// A call that reads is sent as `GET`, a call that creates as `POST`.
pub proof fn law_methods_have_their_names(method: Method, out: &'static str)
    requires
        call_ensures(Method::name, (method,), out),
    ensures
        method == Method::Get ==> out@ == seq!['G', 'E', 'T'],
        method == Method::Post ==> out@ == seq!['P', 'O', 'S', 'T'],
{
    reveal_strlit("GET");
    reveal_strlit("POST");
    assert("GET"@ =~= seq!['G', 'E', 'T']);
    assert("POST"@ =~= seq!['P', 'O', 'S', 'T']);
}

/// A request carries out its call as it stands: the method is that of the call, the URL is
/// the path behind the base URL, the body is that of the call or empty. Of its four headers
/// one holds the token, two name JSON, and one the local node as the user to act as.
pub proof fn law_a_request_carries_out_its_call(
    cfg: PcrConfig,
    token: &str,
    call: KubeCall,
    out: KubeRequest,
)
    requires
        call_ensures(kube_request, (&cfg, token, call), out),
    ensures
        out.method == call.method,
        out.url@.len() == cfg.apiserver_url@.len() + call.path@.len(),
        out.url@.take(cfg.apiserver_url@.len() as int) == cfg.apiserver_url@,
        out.url@.skip(cfg.apiserver_url@.len() as int) == call.path@,
        call.body is Some ==> out.body@ == call.body->0@,
        call.body is None ==> out.body@.len() == 0,
        out.headers@[0].0@ == "authorization"@,
        out.headers@[0].1@ == "Bearer "@ + token@,
        out.headers@[1].0@ == "accept"@,
        out.headers@[1].1@ == "application/json"@,
        out.headers@[2].0@ == "content-type"@,
        out.headers@[2].1@ == "application/json"@,
        out.headers@[3].0@ == "Impersonate-User"@,
        out.headers@[3].1@ == "system:node:"@ + cfg.node_name@,
{
    let n = cfg.apiserver_url@.len() as int;
    assert(out.url@.take(n) =~= cfg.apiserver_url@);
    assert(out.url@.skip(n) =~= call.path@);
    let h = out@.headers;
    assert(h[0] == (out.headers@[0].0@, out.headers@[0].1@));
    assert(h[1] == (out.headers@[1].0@, out.headers@[1].1@));
    assert(h[2] == (out.headers@[2].0@, out.headers@[2].1@));
    assert(h[3] == (out.headers@[3].0@, out.headers@[3].1@));
}

/// The URL of a path is the path behind the base URL.
pub proof fn law_a_path_stands_behind_the_base_url(cfg: PcrConfig, path: &str, out: String)
    requires
        call_ensures(url_of, (&cfg, path), out),
    ensures
        out@ == cfg.apiserver_url@ + path@,
{
}

/// The token is what a readable file in UTF-8 holds, without the white space around it.
/// A file that cannot be read or is not UTF-8 gives no token.
pub proof fn law_the_token_is_what_the_file_holds(
    cfg: PcrConfig,
    file: Result<Vec<u8>, String>,
    out: Result<String, Error>,
)
    requires
        call_ensures(read_token, (&cfg, file), out),
    ensures
        out is Ok <==> file is Ok && valid_utf8(file->Ok_0@),
        out matches Ok(token) ==> is_rid_of_white_ends(token@, decode_utf8(file->Ok_0@)),
        out matches Err(e) ==> e is Spiffe,
        file matches Err(why) ==> out->Err_0->Spiffe_0@ == "reading SA token "@ + cfg.token_path@
            + ": "@ + why@,
        file is Ok && !valid_utf8(file->Ok_0@) ==> out->Err_0->Spiffe_0@
            == "SA token is not utf-8: "@ + utf8_refusal(file->Ok_0@),
{
    if file is Ok && valid_utf8(file->Ok_0@) {
        law_trimming_takes_only_white_space(decode_utf8(file->Ok_0@));
    }
}

/// The token in the text of a file is the text without the white space around it.
pub proof fn law_the_token_is_what_the_text_holds(
    text: Result<String, String>,
    out: Result<String, Error>,
)
    requires
        call_ensures(token_in_text, (text,), out),
    ensures
        out is Ok <==> text is Ok,
        out matches Ok(token) ==> is_rid_of_white_ends(token@, text->Ok_0@),
        out matches Err(e) ==> e is Spiffe && e->Spiffe_0@ == "SA token is not utf-8: "@
            + text->Err_0@,
{
    if text is Ok {
        law_trimming_takes_only_white_space(text->Ok_0@);
    }
}

/// What is sent is built from the method's name, the URL, the four headers and the body of
/// the call, with the token of the token file; where that cannot be built, nothing is sent
/// and the refusal is reported. Without a token nothing is sent either.
pub proof fn law_what_is_sent_is_the_call_with_the_token(
    cfg: PcrConfig,
    file: Result<Vec<u8>, String>,
    call: KubeCall,
    out: Result<http::Request<Vec<u8>>, Error>,
)
    requires
        call_ensures(authorized_request, (&cfg, file, call), out),
    ensures
        file is Err || !valid_utf8(file->Ok_0@) ==> out is Err,
        file is Ok && valid_utf8(file->Ok_0@) ==> exists|token: Seq<char>|
            {
                let built = http_request(
                    if call.method == Method::Post {
                        "POST"@
                    } else {
                        "GET"@
                    },
                    cfg.apiserver_url@ + call.path@,
                    seq![
                        ("authorization"@, "Bearer "@ + token),
                        ("accept"@, "application/json"@),
                        ("content-type"@, "application/json"@),
                        ("Impersonate-User"@, "system:node:"@ + cfg.node_name@),
                    ],
                    if call.body is Some {
                        call.body->0@
                    } else {
                        Seq::<u8>::empty()
                    },
                );
                &&& #[trigger] is_rid_of_white_ends(token, decode_utf8(file->Ok_0@))
                &&& out is Ok <==> built is Ok
                &&& out is Ok ==> out->Ok_0 == built->Ok_0
                &&& out is Err ==> out->Err_0 is Spiffe && out->Err_0->Spiffe_0@
                    == "building kube request: "@ + built->Err_0
            },
{
    if file is Ok && valid_utf8(file->Ok_0@) {
        let text = decode_utf8(file->Ok_0@);
        law_trimming_takes_only_white_space(text);
        assert(is_rid_of_white_ends(trimmed(text), text));
    }
}

/// A request that was built is handed on, and a refusal is reported.
pub proof fn law_a_built_request_is_handed_on(
    built: Result<http::Request<Vec<u8>>, String>,
    out: Result<http::Request<Vec<u8>>, Error>,
)
    requires
        call_ensures(built_request, (built,), out),
    ensures
        out is Ok <==> built is Ok,
        out is Ok ==> out->Ok_0 == built->Ok_0,
        out is Err ==> out->Err_0 is Spiffe && out->Err_0->Spiffe_0@ == "building kube request: "@
            + built->Err_0@,
{
}

/// An answer is handed on with its status and its body, whatever they are; without one, the
/// reason is reported.
pub proof fn law_an_answer_is_handed_on(
    url: &str,
    exchange: Exchange,
    out: Result<(u16, Vec<u8>), Error>,
)
    requires
        call_ensures(answer, (url, exchange), out),
    ensures
        out is Ok <==> exchange is Answered,
        out is Ok ==> out->Ok_0.0 == exchange->status && out->Ok_0.1 == exchange->body,
        exchange matches Exchange::SendFailed(why) ==> out->Err_0 is Spiffe
            && out->Err_0->Spiffe_0@ == "kube request to "@ + url@ + ": "@ + why@,
        exchange matches Exchange::ReadFailed(why) ==> out->Err_0 is Spiffe
            && out->Err_0->Spiffe_0@ == "reading kube response: "@ + why@,
{
}

/// The object is taken from every answer with a status of 200 to 299 whose body could be
/// parsed, and from no other. Another status is reported with what was asked, the status
/// and the body, however the body reads; a body that could not be parsed is reported with
/// the reason.
pub proof fn law_only_success_gives_an_object<T>(
    reply: Reply<T>,
    asking: String,
    parsing: &str,
    out: Result<T, Error>,
)
    requires
        call_ensures(accept::<T>, (reply, asking, parsing), out),
    ensures
        out is Ok <==> 200 <= reply.status <= 299 && reply.parsed is Ok,
        out is Ok ==> out->Ok_0 == reply.parsed->Ok_0,
        out is Err ==> out->Err_0 is Spiffe,
        out is Err && 200 <= reply.status <= 299 ==> out->Err_0->Spiffe_0@ == "parsing "@ + parsing@
            + ": "@ + reply.parsed->Err_0@,
        reply.status < 200 || reply.status > 299 ==> out->Err_0->Spiffe_0@ == asking@ + ": status "@
            + status_text(reply.status) + ", body "@ + if valid_utf8(reply.body@) {
            decode_utf8(reply.body@)
        } else {
            lossy_text(reply.body@)
        },
{
}

/// What is reported of an answer without success holds what was asked, the status and the
/// body.
pub proof fn law_an_unsuccessful_answer_is_shown(
    asking: String,
    status: &str,
    body: &str,
    out: Error,
)
    requires
        call_ensures(unsuccessful, (asking, status, body), out),
    ensures
        out is Spiffe,
        out->Spiffe_0@ == asking@ + ": status "@ + status@ + ", body "@ + body@,
{
}

} // verus!
