//! The header union and its rendering. Every variant stands for exactly one
//! header name; [`Header::render`] maps a value to its wire-format line
//! through one exhaustive dispatch, and [`spec_render`] states that line's
//! exact text.

use vstd::prelude::*;

use crate::method::method_text;
use crate::method::Method;
use crate::text::dec_digits;
use crate::text::join_comma;
use crate::text::u32_text;
use crate::uri::Uri;
use crate::write::method_texts;
use crate::write::named_value_text;
use crate::write::opt_name_view;
use crate::write::token_texts;
use crate::write::write_int_field;
use crate::write::write_method_array_header;
use crate::write::write_named_header;
use crate::write::write_simple_field;
use crate::write::write_string_array_header;
use crate::write::Param;

verus! {

/// One header of a protocol message: a closed union, one variant per
/// header name. Named-address variants carry an optional display name, an
/// address and a parameter list; scalar variants carry one integer or one
/// pre-formatted text; list variants carry an ordered sequence whose order
/// is render-significant.
pub enum Header {
    To(Option<String>, Uri, Vec<Param>),
    From(Option<String>, Uri, Vec<Param>),
    Contact(Option<String>, Uri, Vec<Param>),
    ReplyTo(Option<String>, Uri, Vec<Param>),
    CSeq(u32, Method),
    MaxForwards(u32),
    Expires(u32),
    Accept(Vec<Method>),
    Allow(Vec<Method>),
    ContentEncoding(String),
    ContentLength(u32),
    ContentType(String),
    UserAgent(String),
    CallId(String),
    ContentLanguage(String),
    AcceptLanguage(String),
    AcceptEncoding(String),
    AlertInfo(String),
    ErrorInfo(String),
    AuthenticationInfo(String),
    Authorization(String),
    CallInfo(String),
    InReplyTo(String),
    ContentDisposition(String),
    Date(String),
    MinExpires(u32),
    MimeVersion(u32),
    Organization(String),
    ProxyAuthenticate(String),
    ProxyAuthorization(String),
    ProxyRequire(String),
    Require(String),
    RetryAfter(String),
    Route(String),
    Subject(String),
    RecordRoute(String),
    Server(String),
    Supported(Vec<String>),
    Timestamp(String),
    Unsupported(String),
    Warning(String),
    Via(String),
    Priority(String),
    WwwAuthenticate(String),
}

/// The fixed header name of a variant; the mapping is total and exhaustive.
pub open spec fn spec_name(h: Header) -> Seq<char> {
    match h {
        Header::To(..) => "To"@,
        Header::From(..) => "From"@,
        Header::Contact(..) => "Contact"@,
        Header::ReplyTo(..) => "Reply-To"@,
        Header::CSeq(..) => "CSeq"@,
        Header::MaxForwards(..) => "Max-Forwards"@,
        Header::Expires(..) => "Expires"@,
        Header::Accept(..) => "Accept"@,
        Header::Allow(..) => "Allow"@,
        Header::ContentEncoding(..) => "Content-Encoding"@,
        Header::ContentLength(..) => "Content-Length"@,
        Header::ContentType(..) => "Content-Type"@,
        Header::UserAgent(..) => "User-Agent"@,
        Header::CallId(..) => "Call-ID"@,
        Header::ContentLanguage(..) => "Content-Language"@,
        Header::AcceptLanguage(..) => "Accept-Language"@,
        Header::AcceptEncoding(..) => "Accept-Encoding"@,
        Header::AlertInfo(..) => "Alert-Info"@,
        Header::ErrorInfo(..) => "Error-Info"@,
        Header::AuthenticationInfo(..) => "Authentication-Info"@,
        Header::Authorization(..) => "Authorization"@,
        Header::CallInfo(..) => "Call-Info"@,
        Header::InReplyTo(..) => "In-Reply-To"@,
        Header::ContentDisposition(..) => "Content-Disposition"@,
        Header::Date(..) => "Date"@,
        Header::MinExpires(..) => "Min-Expires"@,
        Header::MimeVersion(..) => "MIME-Version"@,
        Header::Organization(..) => "Organization"@,
        Header::ProxyAuthenticate(..) => "Proxy-Authenticate"@,
        Header::ProxyAuthorization(..) => "Proxy-Authorization"@,
        Header::ProxyRequire(..) => "Proxy-Require"@,
        Header::Require(..) => "Require"@,
        Header::RetryAfter(..) => "Retry-After"@,
        Header::Route(..) => "Route"@,
        Header::Subject(..) => "Subject"@,
        Header::RecordRoute(..) => "Record-Route"@,
        Header::Server(..) => "Server"@,
        Header::Supported(..) => "Supported"@,
        Header::Timestamp(..) => "Timestamp"@,
        Header::Unsupported(..) => "Unsupported"@,
        Header::Warning(..) => "Warning"@,
        Header::Via(..) => "Via"@,
        Header::Priority(..) => "Priority"@,
        Header::WwwAuthenticate(..) => "WWW-Authenticate"@,
    }
}

/// The value part of a header's line: what follows the name, colon and
/// space. Total and exhaustive over the union.
pub open spec fn spec_value(h: Header) -> Seq<char> {
    match h {
        Header::To(name, uri, params) => named_value_text(opt_name_view(name), uri@, params@),
        Header::From(name, uri, params) => named_value_text(opt_name_view(name), uri@, params@),
        Header::Contact(name, uri, params) => named_value_text(opt_name_view(name), uri@, params@),
        Header::ReplyTo(name, uri, params) => named_value_text(opt_name_view(name), uri@, params@),
        Header::CSeq(num, method) => dec_digits(num as int) + " "@ + method_text(method),
        Header::MaxForwards(num) => dec_digits(num as int),
        Header::Expires(num) => dec_digits(num as int),
        Header::Accept(methods) => join_comma(method_texts(methods@)),
        Header::Allow(methods) => join_comma(method_texts(methods@)),
        Header::ContentEncoding(ty) => ty@,
        Header::ContentLength(len) => dec_digits(len as int),
        Header::ContentType(ty) => ty@,
        Header::UserAgent(agent) => agent@,
        Header::CallId(call_id) => call_id@,
        Header::ContentLanguage(lang) => lang@,
        Header::AcceptLanguage(lang) => lang@,
        Header::AcceptEncoding(ty) => ty@,
        Header::AlertInfo(data) => data@,
        Header::ErrorInfo(data) => data@,
        Header::AuthenticationInfo(data) => data@,
        Header::Authorization(data) => data@,
        Header::CallInfo(data) => data@,
        Header::InReplyTo(data) => data@,
        Header::ContentDisposition(data) => data@,
        Header::Date(string) => string@,
        Header::MinExpires(exp) => dec_digits(exp as int),
        Header::MimeVersion(exp) => dec_digits(exp as int),
        Header::Organization(org) => org@,
        Header::ProxyAuthenticate(data) => data@,
        Header::ProxyAuthorization(data) => data@,
        Header::ProxyRequire(data) => data@,
        Header::Require(data) => data@,
        Header::RetryAfter(data) => data@,
        Header::Route(data) => data@,
        Header::Subject(data) => data@,
        Header::RecordRoute(data) => data@,
        Header::Server(data) => data@,
        Header::Supported(data) => join_comma(token_texts(data@)),
        Header::Timestamp(data) => data@,
        Header::Unsupported(data) => data@,
        Header::Warning(data) => data@,
        Header::Via(data) => data@,
        Header::Priority(data) => data@,
        Header::WwwAuthenticate(data) => data@,
    }
}

/// The whole wire-format line of a header: its fixed name, a colon and a
/// space, then its value text. No trailing line terminator.
pub open spec fn spec_render(h: Header) -> Seq<char> {
    spec_name(h) + ": "@ + spec_value(h)
}

impl Header {
    /// Renders this header's wire-format line. Total over all variants and
    /// pinned to [`spec_render`]; the dispatch is an exhaustive match, so a
    /// new variant without a rendering arm fails the build.
    pub fn render(&self) -> (r: String)
        ensures
            r@ == spec_render(*self),
    {
        match self {
            Header::To(name, uri, params) => write_named_header("To", name, uri, params),
            Header::From(name, uri, params) => write_named_header("From", name, uri, params),
            Header::Contact(name, uri, params) => write_named_header("Contact", name, uri, params),
            Header::ReplyTo(name, uri, params) => write_named_header("Reply-To", name, uri, params),
            Header::CSeq(num, method) => {
                let value = u32_text(*num).concat(" ").concat(method.text());
                write_simple_field("CSeq", value.as_str())
            },
            Header::MaxForwards(num) => write_int_field("Max-Forwards", *num),
            Header::Expires(num) => write_int_field("Expires", *num),
            Header::Accept(methods) => write_method_array_header("Accept", methods),
            Header::Allow(methods) => write_method_array_header("Allow", methods),
            Header::ContentEncoding(ty) => write_simple_field("Content-Encoding", ty.as_str()),
            Header::ContentLength(len) => write_int_field("Content-Length", *len),
            Header::ContentType(ty) => write_simple_field("Content-Type", ty.as_str()),
            Header::UserAgent(agent) => write_simple_field("User-Agent", agent.as_str()),
            Header::CallId(call_id) => write_simple_field("Call-ID", call_id.as_str()),
            Header::ContentLanguage(lang) => write_simple_field("Content-Language", lang.as_str()),
            Header::AcceptLanguage(lang) => write_simple_field("Accept-Language", lang.as_str()),
            Header::AcceptEncoding(ty) => write_simple_field("Accept-Encoding", ty.as_str()),
            Header::AlertInfo(data) => write_simple_field("Alert-Info", data.as_str()),
            Header::ErrorInfo(data) => write_simple_field("Error-Info", data.as_str()),
            Header::AuthenticationInfo(data) => write_simple_field(
                "Authentication-Info",
                data.as_str(),
            ),
            Header::Authorization(data) => write_simple_field("Authorization", data.as_str()),
            Header::CallInfo(data) => write_simple_field("Call-Info", data.as_str()),
            Header::InReplyTo(data) => write_simple_field("In-Reply-To", data.as_str()),
            Header::ContentDisposition(data) => write_simple_field(
                "Content-Disposition",
                data.as_str(),
            ),
            Header::Date(string) => write_simple_field("Date", string.as_str()),
            Header::MinExpires(exp) => write_int_field("Min-Expires", *exp),
            Header::MimeVersion(exp) => write_int_field("MIME-Version", *exp),
            Header::Organization(org) => write_simple_field("Organization", org.as_str()),
            Header::ProxyAuthenticate(data) => write_simple_field(
                "Proxy-Authenticate",
                data.as_str(),
            ),
            Header::ProxyAuthorization(data) => write_simple_field(
                "Proxy-Authorization",
                data.as_str(),
            ),
            Header::ProxyRequire(data) => write_simple_field("Proxy-Require", data.as_str()),
            Header::Require(data) => write_simple_field("Require", data.as_str()),
            Header::RetryAfter(data) => write_simple_field("Retry-After", data.as_str()),
            Header::Route(data) => write_simple_field("Route", data.as_str()),
            Header::Subject(data) => write_simple_field("Subject", data.as_str()),
            Header::RecordRoute(data) => write_simple_field("Record-Route", data.as_str()),
            Header::Server(data) => write_simple_field("Server", data.as_str()),
            Header::Supported(data) => write_string_array_header("Supported", data),
            Header::Timestamp(data) => write_simple_field("Timestamp", data.as_str()),
            Header::Unsupported(data) => write_simple_field("Unsupported", data.as_str()),
            Header::Warning(data) => write_simple_field("Warning", data.as_str()),
            Header::Via(data) => write_simple_field("Via", data.as_str()),
            Header::Priority(data) => write_simple_field("Priority", data.as_str()),
            Header::WwwAuthenticate(data) => write_simple_field("WWW-Authenticate", data.as_str()),
        }
    }
}

/// Every rendered line begins with the variant's fixed header name
/// followed by a colon and a space.
pub proof fn lemma_render_starts_with_name(h: Header)
    ensures
        (spec_name(h) + ": "@).is_prefix_of(spec_render(h)),
{
    let prefix = spec_name(h) + ": "@;
    assert(spec_render(h).subrange(0, prefix.len() as int) =~= prefix);
}

/// Rendering is deterministic: two renders of one header value, with its
/// parameter order held fixed, give byte-identical text, since each render
/// equals the one specified line.
pub proof fn lemma_render_deterministic(h: Header, first: Seq<char>, second: Seq<char>)
    requires
        first == spec_render(h),
        second == spec_render(h),
    ensures
        first == second,
{
}

/// An empty method or token list renders as the header name, a colon and a
/// space, with nothing after them.
pub proof fn lemma_empty_list_renders_bare(h: Header)
    requires
        match h {
            Header::Accept(methods) => methods@.len() == 0,
            Header::Allow(methods) => methods@.len() == 0,
            Header::Supported(tokens) => tokens@.len() == 0,
            _ => false,
        },
    ensures
        spec_render(h) == spec_name(h) + ": "@,
{
    match h {
        Header::Accept(methods) => {
            assert(method_texts(methods@).len() == 0);
        },
        Header::Allow(methods) => {
            assert(method_texts(methods@).len() == 0);
        },
        Header::Supported(tokens) => {
            assert(token_texts(tokens@).len() == 0);
        },
        _ => {
        },
    }
    assert(spec_value(h) == Seq::<char>::empty());
    assert(spec_render(h) =~= spec_name(h) + ": "@);
}

} // verus!
