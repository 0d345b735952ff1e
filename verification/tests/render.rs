use sip_headers::headers::Header;
use sip_headers::method::Method;
use sip_headers::text::contains_space;
use sip_headers::text::u32_text;
use sip_headers::uri::Uri;
use sip_headers::write::write_method_array_header;
use sip_headers::write::write_named_header;
use sip_headers::write::write_simple_field;
use sip_headers::write::write_string_array_header;
use sip_headers::write::Param;

fn uri(s: &str) -> Uri {
    Uri::new(s.to_string())
}

fn param(key: &str, value: &str) -> Param {
    Param { key: key.to_string(), value: value.to_string() }
}

#[test]
fn every_variant_line_begins_with_its_name() {
    let all: Vec<(Header, &str)> = vec![
        (Header::To(None, uri("sip:a@b"), vec![]), "To"),
        (Header::From(None, uri("sip:a@b"), vec![]), "From"),
        (Header::Contact(None, uri("sip:a@b"), vec![]), "Contact"),
        (Header::ReplyTo(None, uri("sip:a@b"), vec![]), "Reply-To"),
        (Header::CSeq(1, Method::Invite), "CSeq"),
        (Header::MaxForwards(70), "Max-Forwards"),
        (Header::Expires(60), "Expires"),
        (Header::Accept(vec![]), "Accept"),
        (Header::Allow(vec![]), "Allow"),
        (Header::ContentEncoding("gzip".to_string()), "Content-Encoding"),
        (Header::ContentLength(0), "Content-Length"),
        (Header::ContentType("text/plain".to_string()), "Content-Type"),
        (Header::UserAgent("softphone".to_string()), "User-Agent"),
        (Header::CallId("abc@host".to_string()), "Call-ID"),
        (Header::ContentLanguage("en".to_string()), "Content-Language"),
        (Header::AcceptLanguage("en".to_string()), "Accept-Language"),
        (Header::AcceptEncoding("gzip".to_string()), "Accept-Encoding"),
        (Header::AlertInfo("<http://a>".to_string()), "Alert-Info"),
        (Header::ErrorInfo("<http://e>".to_string()), "Error-Info"),
        (Header::AuthenticationInfo("nextnonce=\"x\"".to_string()), "Authentication-Info"),
        (Header::Authorization("Digest username=\"u\"".to_string()), "Authorization"),
        (Header::CallInfo("<http://c>".to_string()), "Call-Info"),
        (Header::InReplyTo("x@y".to_string()), "In-Reply-To"),
        (Header::ContentDisposition("session".to_string()), "Content-Disposition"),
        (Header::Date("Sat, 13 Nov 2010 23:29:00 GMT".to_string()), "Date"),
        (Header::MinExpires(60), "Min-Expires"),
        (Header::MimeVersion(1), "MIME-Version"),
        (Header::Organization("Acme".to_string()), "Organization"),
        (Header::ProxyAuthenticate("Digest realm=\"r\"".to_string()), "Proxy-Authenticate"),
        (Header::ProxyAuthorization("Digest username=\"u\"".to_string()), "Proxy-Authorization"),
        (Header::ProxyRequire("sec-agree".to_string()), "Proxy-Require"),
        (Header::Require("100rel".to_string()), "Require"),
        (Header::RetryAfter("120".to_string()), "Retry-After"),
        (Header::Route("<sip:p@q>".to_string()), "Route"),
        (Header::Subject("call".to_string()), "Subject"),
        (Header::RecordRoute("<sip:p@q>".to_string()), "Record-Route"),
        (Header::Server("proxy".to_string()), "Server"),
        (Header::Supported(vec![]), "Supported"),
        (Header::Timestamp("54".to_string()), "Timestamp"),
        (Header::Unsupported("foo".to_string()), "Unsupported"),
        (Header::Warning("307 example".to_string()), "Warning"),
        (Header::Via("SIP/2.0/UDP host".to_string()), "Via"),
        (Header::Priority("urgent".to_string()), "Priority"),
        (Header::WwwAuthenticate("Digest realm=\"r\"".to_string()), "WWW-Authenticate"),
    ];
    assert_eq!(all.len(), 44);
    for (header, name) in all.iter() {
        let line = header.render();
        let prefix = format!("{}: ", name);
        assert!(
            line.starts_with(&prefix),
            "line {:?} does not begin with {:?}",
            line,
            prefix
        );
    }
}

#[test]
fn named_address_with_spaced_display_name_is_quoted() {
    let h = Header::To(Some("John Doe".to_string()), uri("sip:jd@example.com"), vec![]);
    assert_eq!(h.render(), "To: \"John Doe\" <sip:jd@example.com>");
}

#[test]
fn named_address_with_plain_display_name_is_unquoted() {
    let h = Header::From(Some("Alice".to_string()), uri("sip:alice@example.com"), vec![]);
    assert_eq!(h.render(), "From: Alice <sip:alice@example.com>");
}

#[test]
fn named_address_without_display_name_is_bare_brackets() {
    let h = Header::Contact(None, uri("sip:bob@example.com"), vec![]);
    assert_eq!(h.render(), "Contact: <sip:bob@example.com>");
}

#[test]
fn reply_to_renders_with_its_hyphenated_name() {
    let h = Header::ReplyTo(None, uri("sip:bob@example.com"), vec![]);
    assert_eq!(h.render(), "Reply-To: <sip:bob@example.com>");
}

#[test]
fn single_parameter_renders_as_semicolon_suffix() {
    let h = Header::To(
        Some("Bob".to_string()),
        uri("sip:bob@example.com"),
        vec![param("tag", "abc")],
    );
    assert_eq!(h.render(), "To: Bob <sip:bob@example.com>;tag=abc");
}

#[test]
fn every_parameter_appears_once_each_behind_a_semicolon() {
    let h = Header::Contact(
        None,
        uri("sip:bob@example.com"),
        vec![param("tag", "abc"), param("expires", "60"), param("q", "0.7")],
    );
    let line = h.render();
    assert_eq!(line, "Contact: <sip:bob@example.com>;tag=abc;expires=60;q=0.7");
    assert_eq!(line.matches(";tag=").count(), 1);
    assert_eq!(line.matches(";expires=").count(), 1);
    assert_eq!(line.matches(";q=").count(), 1);
    assert_eq!(line.matches(';').count(), 3);
}

#[test]
fn cseq_renders_number_space_method() {
    let h = Header::CSeq(314159, Method::Invite);
    assert_eq!(h.render(), "CSeq: 314159 INVITE");
}

#[test]
fn method_list_joins_with_commas_and_no_whitespace() {
    let h = Header::Allow(vec![Method::Invite, Method::Ack, Method::Bye]);
    assert_eq!(h.render(), "Allow: INVITE,ACK,BYE");
}

#[test]
fn empty_method_list_leaves_nothing_after_the_space() {
    let h = Header::Allow(vec![]);
    assert_eq!(h.render(), "Allow: ");
    let h = Header::Accept(vec![]);
    assert_eq!(h.render(), "Accept: ");
}

#[test]
fn accept_renders_method_list() {
    let h = Header::Accept(vec![Method::Options, Method::Refer]);
    assert_eq!(h.render(), "Accept: OPTIONS,REFER");
}

#[test]
fn token_list_joins_with_commas() {
    let h = Header::Supported(vec!["100rel".to_string(), "replaces".to_string()]);
    assert_eq!(h.render(), "Supported: 100rel,replaces");
}

#[test]
fn empty_token_list_leaves_nothing_after_the_space() {
    let h = Header::Supported(vec![]);
    assert_eq!(h.render(), "Supported: ");
}

#[test]
fn rendering_twice_is_byte_identical() {
    let h = Header::From(
        Some("John Doe".to_string()),
        uri("sip:jd@example.com"),
        vec![param("tag", "9fxced76sl"), param("epid", "x7")],
    );
    assert_eq!(h.render(), h.render());
    let h = Header::Allow(vec![Method::Register, Method::Cancel]);
    assert_eq!(h.render(), h.render());
}

#[test]
fn integer_headers_render_in_decimal() {
    assert_eq!(Header::MaxForwards(70).render(), "Max-Forwards: 70");
    assert_eq!(Header::Expires(0).render(), "Expires: 0");
    assert_eq!(Header::MinExpires(60).render(), "Min-Expires: 60");
    assert_eq!(Header::MimeVersion(1).render(), "MIME-Version: 1");
    assert_eq!(Header::ContentLength(4294967295).render(), "Content-Length: 4294967295");
}

#[test]
fn opaque_text_headers_render_verbatim() {
    assert_eq!(
        Header::Via("SIP/2.0/UDP pc33.example.com;branch=z9hG4bK776asdhds".to_string()).render(),
        "Via: SIP/2.0/UDP pc33.example.com;branch=z9hG4bK776asdhds"
    );
    assert_eq!(
        Header::WwwAuthenticate("Digest realm=\"atlanta.com\"".to_string()).render(),
        "WWW-Authenticate: Digest realm=\"atlanta.com\""
    );
    assert_eq!(Header::ContentType("application/sdp".to_string()).render(), "Content-Type: application/sdp");
}

#[test]
fn every_method_has_its_upper_case_text() {
    let methods: Vec<(Method, &str)> = vec![
        (Method::Invite, "INVITE"),
        (Method::Ack, "ACK"),
        (Method::Bye, "BYE"),
        (Method::Cancel, "CANCEL"),
        (Method::Register, "REGISTER"),
        (Method::Options, "OPTIONS"),
        (Method::PRack, "PRACK"),
        (Method::Publish, "PUBLISH"),
        (Method::Info, "INFO"),
        (Method::Subscribe, "SUBSCRIBE"),
        (Method::Notify, "NOTIFY"),
        (Method::Update, "UPDATE"),
        (Method::Message, "MESSAGE"),
        (Method::Refer, "REFER"),
    ];
    for (m, text) in methods.iter() {
        assert_eq!(m.text(), *text);
    }
}

#[test]
fn simple_field_strategy_joins_name_and_value() {
    assert_eq!(write_simple_field("Subject", "lunch"), "Subject: lunch");
    assert_eq!(write_simple_field("Subject", ""), "Subject: ");
}

#[test]
fn named_header_strategy_handles_all_three_address_shapes() {
    let no_params: Vec<Param> = vec![];
    assert_eq!(
        write_named_header("To", &Some("Carol Lee".to_string()), &uri("sip:c@d"), &no_params),
        "To: \"Carol Lee\" <sip:c@d>"
    );
    assert_eq!(
        write_named_header("To", &Some("Carol".to_string()), &uri("sip:c@d"), &no_params),
        "To: Carol <sip:c@d>"
    );
    assert_eq!(write_named_header("To", &None, &uri("sip:c@d"), &no_params), "To: <sip:c@d>");
}

#[test]
fn method_array_strategy_handles_one_and_many() {
    assert_eq!(write_method_array_header("Allow", &vec![Method::Bye]), "Allow: BYE");
    assert_eq!(
        write_method_array_header("Allow", &vec![Method::Bye, Method::Info]),
        "Allow: BYE,INFO"
    );
}

#[test]
fn string_array_strategy_handles_one_and_many() {
    assert_eq!(
        write_string_array_header("Supported", &vec!["timer".to_string()]),
        "Supported: timer"
    );
    assert_eq!(
        write_string_array_header(
            "Supported",
            &vec!["timer".to_string(), "100rel".to_string()]
        ),
        "Supported: timer,100rel"
    );
}

#[test]
fn decimal_text_is_exact() {
    assert_eq!(u32_text(0), "0");
    assert_eq!(u32_text(7), "7");
    assert_eq!(u32_text(10), "10");
    assert_eq!(u32_text(314159), "314159");
    assert_eq!(u32_text(4294967295), "4294967295");
}

#[test]
fn space_search_decides_quoting() {
    assert!(contains_space("John Doe"));
    assert!(!contains_space("Alice"));
    assert!(!contains_space(""));
    assert!(contains_space(" "));
}

#[test]
fn uri_text_is_kept_verbatim() {
    let u = uri("sips:secure@example.com;transport=tls");
    assert_eq!(u.as_str(), "sips:secure@example.com;transport=tls");
}
