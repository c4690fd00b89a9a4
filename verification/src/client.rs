//! The state of one connection: where requests go, what is pending, and what
//! the last reply left behind.

use crate::cookie::{first_segment, first_token};
use crate::escape::xmlencode;
use crate::headers::{
    ascii_lower, bytes_as_chars, clone_headers, empty_headers, first_header_value,
    header_fields, header_value_text, is_visible_text, no_fields,
};
use crate::names::is_valid_name;
use crate::params::{
    attr_views, check_element, close_tag, element_error, open_tag, param_element, param_error,
    render_attributes, wrapped_params, Attributes,
};
use http::header::{HeaderMap, HeaderValue};
use vstd::prelude::*;

verus! {

/// Seconds a request may take unless the caller says otherwise.
pub const DEFAULT_TIMEOUT: u64 = 30;

/// The status that stands for success.
pub const STATUS_OK: u16 = 200;

/// The user agent a new client presents.
pub open spec fn default_user_agent() -> Seq<char> {
    "rust_apilib/1.1"@
}

/// The message of the error for a reply whose status is not 200.
pub open spec fn non_ok_message() -> Seq<char> {
    "Non 200 Status code"@
}

/// The mathematical content of a client.
pub struct ClientState {
    pub server: Seq<char>,
    pub params: Seq<char>,
    pub status: u16,
    pub timeout: u64,
    pub count: u64,
    pub session: Seq<char>,
    pub api_key: Seq<char>,
    pub trace: Seq<char>,
    pub json: bool,
    pub user_agent: Seq<char>,
    pub copy_headers: bool,
    pub headers: Map<Seq<char>, Seq<Seq<u8>>>,
}

impl ClientState {
    /// What `get_params` shows of this state.
    pub open spec fn output(self) -> Seq<char> {
        wrapped_params(self.params)
    }
}

/// One header of a request.
pub struct RequestHeader {
    pub name: String,
    pub value: String,
}

impl View for RequestHeader {
    type V = (Seq<char>, Seq<char>);

    open spec fn view(&self) -> (Seq<char>, Seq<char>) {
        (self.name@, self.value@)
    }
}

/// A request ready to be posted: where to, with which body and headers.
pub struct Request {
    pub url: String,
    pub body: String,
    pub headers: Vec<RequestHeader>,
}

/// The headers of a list as pairs of name and value.
pub open spec fn header_views(headers: Seq<RequestHeader>) -> Seq<(Seq<char>, Seq<char>)> {
    headers.map_values(|h: RequestHeader| h@)
}

/// What the trace attribute holds after `goApi`: nothing without a trace
/// identifier, else a slash and the identifier.
pub open spec fn trace_fragment(trace: Seq<char>) -> Seq<char> {
    if trace.len() == 0 {
        Seq::empty()
    } else {
        "/"@ + trace
    }
}

/// The method-call envelope for a service, a method, a trace identifier and
/// a pending fragment.
pub open spec fn request_body(
    service: Seq<char>,
    method: Seq<char>,
    trace: Seq<char>,
    params: Seq<char>,
) -> Seq<char> {
    let head = "<methodCall service=\""@ + service + "\" method=\""@ + method
        + "\" trace=\"goApi"@ + trace_fragment(trace) + "\">"@;
    if params.len() == 0 {
        head + "</methodCall>"@
    } else {
        head + "\n<params>"@ + params + "\n</params></methodCall>"@
    }
}

/// The address a call of `method` on `service` is posted to.
pub open spec fn request_url(server: Seq<char>, service: Seq<char>, method: Seq<char>) -> Seq<
    char,
> {
    server + "/"@ + service + "/?method="@ + method
}

/// The headers of a request, in the order they are set: content type, user
/// agent and cookie always, authorization only with an API key, accept only
/// where a JSON reply is asked for.
pub open spec fn request_headers(state: ClientState) -> Seq<(Seq<char>, Seq<char>)> {
    let fixed = seq![
        ("Content-Type"@, "text/xmlmc"@),
        ("User-Agent"@, state.user_agent),
        ("Cookie"@, state.session),
    ];
    let auth = if state.api_key.len() == 0 {
        fixed
    } else {
        fixed.push(("Authorization"@, "ESP-APIKEY "@ + state.api_key))
    };
    if state.json {
        auth.push(("Accept"@, "text/json"@))
    } else {
        auth
    }
}

/// The name under which a header map keeps the cookie header.
pub open spec fn set_cookie_key() -> Seq<char> {
    ascii_lower("Set-Cookie"@)
}

/// The session token after a reply with status 200: the first `;`-separated
/// piece of the first cookie header where that header is visible text, else
/// the token as it was.
pub open spec fn session_after(session: Seq<char>, fields: Map<Seq<char>, Seq<Seq<u8>>>) -> Seq<
    char,
> {
    if fields.contains_key(set_cookie_key()) && is_visible_text(fields[set_cookie_key()][0]) {
        first_segment(bytes_as_chars(fields[set_cookie_key()][0]))
    } else {
        session
    }
}

/// The state after a reply with the given status and headers has arrived.
pub open spec fn state_after_reply(
    before: ClientState,
    status: u16,
    fields: Map<Seq<char>, Seq<Seq<u8>>>,
) -> ClientState {
    ClientState {
        count: (before.count + 1) as u64,
        status: status,
        headers: if before.copy_headers {
            fields
        } else {
            before.headers
        },
        params: Seq::empty(),
        session: if status == STATUS_OK {
            session_after(before.session, fields)
        } else {
            before.session
        },
        ..before
    }
}

/// The client for one server.
pub struct Xmlmc {
    server: String,
    paramsxml: String,
    statuscode: u16,
    timeout: u64,
    count: u64,
    session_id: String,
    api_key: String,
    trace: String,
    jsonresp: bool,
    user_agent: String,
    copy_headers: bool,
    headers: HeaderMap<HeaderValue>,
}

impl View for Xmlmc {
    type V = ClientState;

    closed spec fn view(&self) -> ClientState {
        ClientState {
            server: self.server@,
            params: self.paramsxml@,
            status: self.statuscode,
            timeout: self.timeout,
            count: self.count,
            session: self.session_id@,
            api_key: self.api_key@,
            trace: self.trace@,
            json: self.jsonresp,
            user_agent: self.user_agent@,
            copy_headers: self.copy_headers,
            headers: header_fields(self.headers),
        }
    }
}

impl Xmlmc {
    /// A client for the server at `s`, to which a slash is appended. Nothing
    /// is pending, nothing was sent, no session, key or trace is set, and the
    /// timeout and user agent are the defaults.
    pub fn new(s: &str) -> (client: Xmlmc)
        ensures
            client@ == (ClientState {
                server: s@ + "/"@,
                params: Seq::empty(),
                status: 0,
                timeout: DEFAULT_TIMEOUT,
                count: 0,
                session: Seq::empty(),
                api_key: Seq::empty(),
                trace: Seq::empty(),
                json: false,
                user_agent: default_user_agent(),
                copy_headers: false,
                headers: no_fields(),
            }),
    {
        let mut server = s.to_owned();
        server.append("/");
        Xmlmc {
            server,
            paramsxml: String::new(),
            statuscode: 0,
            timeout: DEFAULT_TIMEOUT,
            count: 0,
            session_id: String::new(),
            api_key: String::new(),
            trace: String::new(),
            jsonresp: false,
            user_agent: "rust_apilib/1.1".to_owned(),
            copy_headers: false,
            headers: empty_headers(),
        }
    }

    /// Appends `<key>VALUE</key>` to the pending fragment, VALUE being
    /// `value` escaped. A key that is not a valid name is refused and leaves
    /// the client as it was.
    pub fn set_param(&mut self, key: &str, value: &str) -> (r: Result<(), &'static str>)
        ensures
            r is Ok == is_valid_name(key@),
            match r {
                Ok(_) => final(self)@ == (ClientState {
                    params: old(self)@.params + param_element(key@, Seq::empty(), value@),
                    ..old(self)@
                }),
                Err(e) => final(self)@ == old(self)@ && element_error(key@) == Some(e@),
            },
    {
        if let Some(e) = check_element(key) {
            return Err(e);
        }
        let clean_value = xmlencode(value);
        self.paramsxml.append("<");
        self.paramsxml.append(key);
        self.paramsxml.append(">");
        self.paramsxml.append(clean_value.as_str());
        self.paramsxml.append("</");
        self.paramsxml.append(key);
        self.paramsxml.append(">");
        assert(self.paramsxml@ =~= old(self)@.params + param_element(
            key@,
            Seq::empty(),
            value@,
        ));
        Ok(())
    }

    /// Appends `<key ATTRS>VALUE</key>` to the pending fragment, with every
    /// attribute rendered as ` name="value" ` and all values escaped. The
    /// element name and all attribute keys are judged before anything is
    /// appended: where one is not a valid name the call is refused with the
    /// complaint about the first such name and leaves the client as it was.
    pub fn set_param_attr(&mut self, key: &str, value: &str, attribs: Vec<Attributes>) -> (r:
        Result<(), &'static str>)
        ensures
            r is Ok == param_error(key@, attr_views(attribs@)) is None,
            match r {
                Ok(_) => final(self)@ == (ClientState {
                    params: old(self)@.params + param_element(
                        key@,
                        attr_views(attribs@),
                        value@,
                    ),
                    ..old(self)@
                }),
                Err(e) => final(self)@ == old(self)@ && param_error(key@, attr_views(attribs@))
                    == Some(e@),
            },
    {
        if let Some(e) = check_element(key) {
            return Err(e);
        }
        let clean_value = xmlencode(value);
        let attrs = match render_attributes(&attribs) {
            Ok(text) => text,
            Err(e) => {
                return Err(e);
            },
        };
        self.paramsxml.append("<");
        self.paramsxml.append(key);
        self.paramsxml.append(attrs.as_str());
        self.paramsxml.append(">");
        self.paramsxml.append(clean_value.as_str());
        self.paramsxml.append("</");
        self.paramsxml.append(key);
        self.paramsxml.append(">");
        assert(self.paramsxml@ =~= old(self)@.params + param_element(
            key@,
            attr_views(attribs@),
            value@,
        ));
        Ok(())
    }

    /// Appends `<element>` to the pending fragment. A name that is not valid
    /// is refused and leaves the client as it was.
    pub fn open_element(&mut self, element: &str) -> (r: Result<(), &'static str>)
        ensures
            r is Ok == is_valid_name(element@),
            match r {
                Ok(_) => final(self)@ == (ClientState {
                    params: old(self)@.params + open_tag(element@),
                    ..old(self)@
                }),
                Err(e) => final(self)@ == old(self)@ && element_error(element@) == Some(e@),
            },
    {
        if let Some(e) = check_element(element) {
            return Err(e);
        }
        self.paramsxml.append("<");
        self.paramsxml.append(element);
        self.paramsxml.append(">");
        assert(self.paramsxml@ =~= old(self)@.params + open_tag(element@));
        Ok(())
    }

    /// Appends `</element>` to the pending fragment. A name that is not
    /// valid is refused and leaves the client as it was.
    pub fn close_element(&mut self, element: &str) -> (r: Result<(), &'static str>)
        ensures
            r is Ok == is_valid_name(element@),
            match r {
                Ok(_) => final(self)@ == (ClientState {
                    params: old(self)@.params + close_tag(element@),
                    ..old(self)@
                }),
                Err(e) => final(self)@ == old(self)@ && element_error(element@) == Some(e@),
            },
    {
        if let Some(e) = check_element(element) {
            return Err(e);
        }
        self.paramsxml.append("</");
        self.paramsxml.append(element);
        self.paramsxml.append(">");
        assert(self.paramsxml@ =~= old(self)@.params + close_tag(element@));
        Ok(())
    }

    /// The pending fragment inside `<params>`, or the empty string where
    /// nothing is pending.
    pub fn get_params(&self) -> (xml: String)
        ensures
            xml@ == self@.output(),
    {
        let mut xml = String::new();
        if !self.paramsxml.as_str().is_empty() {
            xml.append("<params>");
            xml.append(self.paramsxml.as_str());
            xml.append("</params>");
            assert(xml@ =~= "<params>"@ + self@.params + "</params>"@);
        }
        xml
    }

    /// Drops the pending fragment.
    pub fn clear_params(&mut self)
        ensures
            final(self)@ == (ClientState { params: Seq::empty(), ..old(self)@ }),
            final(self)@.output() == Seq::<char>::empty(),
    {
        self.paramsxml = String::new();
    }

    /// Sets the user agent that later requests present.
    pub fn set_user_agent(&mut self, user: &str)
        ensures
            final(self)@ == (ClientState { user_agent: user@, ..old(self)@ }),
    {
        self.user_agent = user.to_owned();
    }

    /// Asks for JSON replies, or for the server's default.
    pub fn set_json_response(&mut self, b: bool)
        ensures
            final(self)@ == (ClientState { json: b, ..old(self)@ }),
    {
        self.jsonresp = b;
    }

    /// The current session token.
    pub fn get_session_id(&self) -> (id: String)
        ensures
            id@ == self@.session,
    {
        self.session_id.clone()
    }

    /// Sets the API key sent with later requests.
    pub fn set_apikey(&mut self, s: &str)
        ensures
            final(self)@ == (ClientState { api_key: s@, ..old(self)@ }),
    {
        self.api_key = s.to_owned();
    }

    /// Sets the session token sent with later requests.
    pub fn set_sessionid(&mut self, s: &str)
        ensures
            final(self)@ == (ClientState { session: s@, ..old(self)@ }),
    {
        self.session_id = s.to_owned();
    }

    /// Sets the trace identifier embedded in later requests.
    pub fn set_trace(&mut self, s: &str)
        ensures
            final(self)@ == (ClientState { trace: s@, ..old(self)@ }),
    {
        self.trace = s.to_owned();
    }

    /// Switches the capture of reply headers on or off. Either way the
    /// headers captured so far are dropped at once.
    pub fn set_copy_headers(&mut self, s: bool)
        ensures
            final(self)@ == (ClientState {
                copy_headers: s,
                headers: no_fields(),
                ..old(self)@
            }),
    {
        self.copy_headers = s;
        self.headers = empty_headers();
    }

    /// The status of the last reply, 0 before the first.
    pub fn get_status_code(&self) -> (status: u16)
        ensures
            status == self@.status,
    {
        self.statuscode
    }

    /// The server address, with its trailing slash.
    pub fn get_server_url(&self) -> (url: String)
        ensures
            url@ == self@.server,
    {
        self.server.clone()
    }

    /// The number of replies received so far.
    pub fn get_count(&self) -> (count: u64)
        ensures
            count == self@.count,
    {
        self.count
    }

    /// The timeout in seconds.
    pub fn get_timeout(&self) -> (seconds: u64)
        ensures
            seconds == self@.timeout,
    {
        self.timeout
    }

    /// The user agent that requests present.
    pub fn get_user_agent(&self) -> (agent: String)
        ensures
            agent@ == self@.user_agent,
    {
        self.user_agent.clone()
    }

    /// A copy of the headers captured from the last reply.
    pub fn get_headers(&self) -> (headers: HeaderMap<HeaderValue>)
        ensures
            header_fields(headers) == self@.headers,
    {
        clone_headers(&self.headers)
    }

    /// The request for a call of `method` on `service` with what is pending.
    /// The client itself does not change: the fragment stays pending until a
    /// reply is taken in.
    pub fn build_request(&self, service: &str, method: &str) -> (request: Request)
        ensures
            request.url@ == request_url(self@.server, service@, method@),
            request.body@ == request_body(service@, method@, self@.trace, self@.params),
            header_views(request.headers@) == request_headers(self@),
    {
        let mut body = String::new();
        body.append("<methodCall service=\"");
        body.append(service);
        body.append("\" method=\"");
        body.append(method);
        body.append("\" trace=\"goApi");
        if !self.trace.as_str().is_empty() {
            body.append("/");
            body.append(self.trace.as_str());
        }
        body.append("\">");
        if self.paramsxml.as_str().is_empty() {
            body.append("</methodCall>");
        } else {
            body.append("\n<params>");
            body.append(self.paramsxml.as_str());
            body.append("\n</params></methodCall>");
        }
        assert(body@ =~= request_body(service@, method@, self@.trace, self@.params));

        let mut url = self.server.clone();
        url.append("/");
        url.append(service);
        url.append("/?method=");
        url.append(method);
        assert(url@ =~= request_url(self@.server, service@, method@));

        let mut headers: Vec<RequestHeader> = Vec::new();
        headers.push(
            RequestHeader { name: "Content-Type".to_owned(), value: "text/xmlmc".to_owned() },
        );
        headers.push(
            RequestHeader { name: "User-Agent".to_owned(), value: self.user_agent.clone() },
        );
        headers.push(RequestHeader { name: "Cookie".to_owned(), value: self.session_id.clone() });
        if !self.api_key.as_str().is_empty() {
            let mut value = "ESP-APIKEY ".to_owned();
            value.append(self.api_key.as_str());
            headers.push(RequestHeader { name: "Authorization".to_owned(), value });
        }
        if self.jsonresp {
            headers.push(
                RequestHeader { name: "Accept".to_owned(), value: "text/json".to_owned() },
            );
        }
        assert(header_views(headers@) =~= request_headers(self@));
        Request { url, body, headers }
    }

    /// Takes in a reply: counts it, records its status, replaces the captured
    /// headers where capture is on, and drops the pending fragment. A status
    /// other than 200 is an error, and the session token stays. With status
    /// 200 the token is taken from the reply's cookie header, if it has one
    /// that is visible text.
    pub fn receive(&mut self, status: u16, headers: &HeaderMap<HeaderValue>) -> (r: Result<
        (),
        String,
    >)
        requires
            old(self)@.count < u64::MAX,
        ensures
            final(self)@ == state_after_reply(old(self)@, status, header_fields(*headers)),
            final(self)@.count == old(self)@.count + 1,
            r is Ok == (status == STATUS_OK),
            r is Err ==> r->Err_0@ == non_ok_message(),
    {
        self.count += 1;
        self.statuscode = status;
        if self.copy_headers {
            self.headers = clone_headers(headers);
        }
        self.clear_params();
        if status != STATUS_OK {
            return Err("Non 200 Status code".to_owned());
        }
        if let Some(cookie) = first_header_value(headers, "Set-Cookie") {
            if let Some(text) = header_value_text(cookie) {
                self.session_id = first_token(text.as_str());
            }
        }
        Ok(())
    }
}

} // verus!
