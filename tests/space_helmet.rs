use space_helmet::{
    decimal_text, ExpectCTPolicy, FramePolicy, HSTSPolicy, HeaderSink, Helmet, NoSniffPolicy,
    PolicyHeader, PolicyUri, ReferrerPolicy, XSSPolicy, EXPECTCT_MAX_AGE_DEFAULT,
    HSTS_MAX_AGE_DEFAULT,
};

fn check_header(sink: &HeaderSink, name: &str, value: &str) {
    match sink.get(name) {
        Some(v) => assert_eq!(v, value),
        None => panic!("missing header parameters"),
    }
}

fn pair(h: &PolicyHeader) -> (&str, &str) {
    (h.name.as_str(), h.value.as_str())
}

#[test]
fn defaults_test() {
    let helmet = Helmet::new()
        .hsts(Some(HSTSPolicy::default()))
        .expect_ct(Some(ExpectCTPolicy::default()))
        .referrer_policy(Some(ReferrerPolicy::default()));
    let mut sink = HeaderSink::new();
    helmet.apply(&mut sink);

    check_header(&sink, "X-XSS-Protection", "1; mode=block");
    check_header(&sink, "X-Frame-Options", "SAMEORIGIN");
    check_header(&sink, "X-Content-Type-Options", "nosniff");
    check_header(
        &sink,
        "Strict-Transport-Security",
        &format!("max-age={}", HSTS_MAX_AGE_DEFAULT),
    );
    check_header(
        &sink,
        "Expect-CT",
        &format!("max-age={}, enforce", EXPECTCT_MAX_AGE_DEFAULT),
    );
    check_header(&sink, "Referrer-Policy", "no-referrer");
}

#[test]
fn uri_test() {
    let allow_uri = PolicyUri::parse("https://www.google.com").unwrap();
    let report_uri = PolicyUri::parse("https://www.google.com").unwrap();
    let enforce_uri = PolicyUri::parse("https://www.google.com").unwrap();
    let helmet = Helmet::new()
        .frameguard(Some(FramePolicy::AllowFrom(allow_uri)))
        .xss_protect(Some(XSSPolicy::EnableReport(report_uri)))
        .expect_ct(Some(ExpectCTPolicy::ReportAndEnforce(30, enforce_uri)));
    let mut sink = HeaderSink::new();
    helmet.apply(&mut sink);
    check_header(&sink, "X-Frame-Options", "ALLOW-FROM https://www.google.com");
    check_header(&sink, "X-XSS-Protection", "1; report=https://www.google.com");
    check_header(
        &sink,
        "Expect-CT",
        "max-age=30, enforce, report-uri=\"https://www.google.com\"",
    );
}

#[test]
fn default_set_on_empty_sink() {
    let helmet = Helmet::default();
    let mut sink = HeaderSink::new();
    let overwritten = helmet.apply(&mut sink);
    assert!(overwritten.is_empty());
    check_header(&sink, "X-XSS-Protection", "1; mode=block");
    check_header(&sink, "X-Frame-Options", "SAMEORIGIN");
    check_header(&sink, "X-Content-Type-Options", "nosniff");
    assert!(!sink.has_header("Strict-Transport-Security"));
    assert!(!sink.has_header("Expect-CT"));
    assert!(!sink.has_header("Referrer-Policy"));
    assert!(!helmet.forcing_hsts());
}

#[test]
fn default_headers_in_order() {
    let hs = Helmet::new().headers();
    let got: Vec<(&str, &str)> = hs.iter().map(pair).collect();
    assert_eq!(
        got,
        vec![
            ("X-Content-Type-Options", "nosniff"),
            ("X-XSS-Protection", "1; mode=block"),
            ("X-Frame-Options", "SAMEORIGIN"),
        ]
    );
}

#[test]
fn all_headers_in_order() {
    let helmet = Helmet::new()
        .hsts(Some(HSTSPolicy::Preload(10)))
        .expect_ct(Some(ExpectCTPolicy::Enforce(5)))
        .referrer_policy(Some(ReferrerPolicy::Origin));
    let hs = helmet.headers();
    let names: Vec<&str> = hs.iter().map(|h| h.name.as_str()).collect();
    assert_eq!(
        names,
        vec![
            "X-Content-Type-Options",
            "X-XSS-Protection",
            "X-Frame-Options",
            "Expect-CT",
            "Referrer-Policy",
            "Strict-Transport-Security",
        ]
    );
}

#[test]
fn hsts_values() {
    assert_eq!(pair(&HSTSPolicy::Enable(31536000).header()), ("Strict-Transport-Security", "max-age=31536000"));
    assert_eq!(HSTSPolicy::default().header().value, "max-age=31536000");
    assert_eq!(HSTSPolicy::IncludeSubDomains(60).header().value, "max-age=60 ; includeSubDomains");
    assert_eq!(HSTSPolicy::Preload(0).header().value, "max-age=0 ; preload");
}

#[test]
fn expect_ct_values() {
    assert_eq!(pair(&ExpectCTPolicy::Enforce(2592000).header()), ("Expect-CT", "max-age=2592000, enforce"));
    assert_eq!(ExpectCTPolicy::default().header().value, "max-age=2592000, enforce");
    let u = PolicyUri::parse("https://example.com/report").unwrap();
    assert_eq!(
        ExpectCTPolicy::Report(7, u).header().value,
        "max-age=7, report-uri=\"https://example.com/report\""
    );
    let u = PolicyUri::parse("https://www.google.com").unwrap();
    assert_eq!(
        ExpectCTPolicy::ReportAndEnforce(30, u).header().value,
        "max-age=30, enforce, report-uri=\"https://www.google.com\""
    );
}

#[test]
fn frame_values() {
    assert_eq!(pair(&FramePolicy::SameOrigin.header()), ("X-Frame-Options", "SAMEORIGIN"));
    assert_eq!(FramePolicy::Deny.header().value, "DENY");
    assert_eq!(FramePolicy::default().header().value, "SAMEORIGIN");
    let u = PolicyUri::parse("https://www.google.com").unwrap();
    assert_eq!(FramePolicy::AllowFrom(u).header().value, "ALLOW-FROM https://www.google.com");
}

#[test]
fn xss_values() {
    assert_eq!(pair(&XSSPolicy::Disable.header()), ("X-XSS-Protection", "0"));
    assert_eq!(XSSPolicy::Enable.header().value, "1");
    assert_eq!(XSSPolicy::EnableBlock.header().value, "1; mode=block");
    assert_eq!(XSSPolicy::default().header().value, "1; mode=block");
    let u = PolicyUri::parse("https://www.google.com").unwrap();
    assert_eq!(XSSPolicy::EnableReport(u).header().value, "1; report=https://www.google.com");
}

#[test]
fn no_sniff_value() {
    assert_eq!(pair(&NoSniffPolicy::Enable.header()), ("X-Content-Type-Options", "nosniff"));
    assert_eq!(pair(&NoSniffPolicy::default().header()), ("X-Content-Type-Options", "nosniff"));
}

#[test]
fn referrer_values() {
    let cases = vec![
        (ReferrerPolicy::NoReferrer, "no-referrer"),
        (ReferrerPolicy::NoReferrerWhenDowngrade, "no-referrer-when-downgrade"),
        (ReferrerPolicy::Origin, "origin"),
        (ReferrerPolicy::OriginWhenCrossOrigin, "origin-when-cross-origin"),
        (ReferrerPolicy::SameOrigin, "same-origin"),
        (ReferrerPolicy::StrictOrigin, "strict-origin"),
        (ReferrerPolicy::StrictOriginWhenCrossOrigin, "strict-origin-when-cross-origin"),
        (ReferrerPolicy::UnsafeUrl, "unsafe-url"),
    ];
    for (p, v) in cases {
        assert_eq!(pair(&p.header()), ("Referrer-Policy", v));
    }
    assert_eq!(ReferrerPolicy::default().header().value, "no-referrer");
}

#[test]
fn encoding_twice_is_equal() {
    let p = ExpectCTPolicy::Report(12, PolicyUri::parse("https://a.example/x").unwrap());
    let a = p.header();
    let b = p.header();
    assert_eq!(pair(&a), pair(&b));
    let q = ReferrerPolicy::StrictOrigin;
    assert_eq!(pair(&q.header()), pair(&q.header()));
}

#[test]
fn decimal_values() {
    assert_eq!(decimal_text(0), "0");
    assert_eq!(decimal_text(7), "7");
    assert_eq!(decimal_text(30), "30");
    assert_eq!(decimal_text(100), "100");
    assert_eq!(decimal_text(31536000), "31536000");
    assert_eq!(decimal_text(u32::MAX), "4294967295");
}

#[test]
fn invalid_uri_is_rejected() {
    assert!(PolicyUri::parse("foo bar").is_none());
    let u = PolicyUri::parse("https://www.google.com").unwrap();
    assert_eq!(u.as_str(), "https://www.google.com");
}

#[test]
fn apply_twice_is_idempotent() {
    let helmet = Helmet::new()
        .hsts(Some(HSTSPolicy::IncludeSubDomains(100)))
        .referrer_policy(Some(ReferrerPolicy::SameOrigin));
    let mut sink = HeaderSink::new();
    let first = helmet.apply(&mut sink);
    assert!(first.is_empty());
    let names = [
        "X-Content-Type-Options",
        "X-XSS-Protection",
        "X-Frame-Options",
        "Referrer-Policy",
        "Strict-Transport-Security",
    ];
    let before: Vec<Option<String>> = names.iter().map(|n| sink.get(n)).collect();
    let second = helmet.apply(&mut sink);
    let after: Vec<Option<String>> = names.iter().map(|n| sink.get(n)).collect();
    assert_eq!(before, after);
    assert_eq!(second.len(), 5);
}

#[test]
fn existing_header_is_overwritten() {
    let mut sink = HeaderSink::new();
    assert!(!sink.set_header("X-Frame-Options".to_string(), "DENY".to_string()));
    sink.set_header("Server".to_string(), "test".to_string());
    let overwritten = Helmet::new().apply(&mut sink);
    assert_eq!(overwritten.len(), 1);
    assert_eq!(pair(&overwritten[0]), ("X-Frame-Options", "SAMEORIGIN"));
    check_header(&sink, "X-Frame-Options", "SAMEORIGIN");
    check_header(&sink, "Server", "test");
}

#[test]
fn disabled_headers_are_not_set() {
    let helmet = Helmet::new().no_sniff(None).frameguard(None).xss_protect(None);
    assert!(helmet.headers().is_empty());
    let mut sink = HeaderSink::new();
    helmet.apply(&mut sink);
    assert!(!sink.has_header("X-Content-Type-Options"));
    assert!(!sink.has_header("X-Frame-Options"));
    assert!(!sink.has_header("X-XSS-Protection"));
}

#[test]
fn guard_activates_only_with_tls_outside_dev_without_hsts() {
    for tls in [false, true] {
        for dev in [false, true] {
            for configured in [false, true] {
                let mut helmet = Helmet::new();
                if configured {
                    helmet = helmet.hsts(Some(HSTSPolicy::Preload(5)));
                }
                let forced = helmet.on_launch(tls, dev);
                let expected = tls && !dev && !configured;
                assert_eq!(forced, expected);
                assert_eq!(helmet.forcing_hsts(), expected);
                let mut sink = HeaderSink::new();
                helmet.apply(&mut sink);
                let sts = sink.get("Strict-Transport-Security");
                if configured {
                    assert_eq!(sts.as_deref(), Some("max-age=5 ; preload"));
                } else if expected {
                    assert_eq!(sts.as_deref(), Some("max-age=31536000"));
                } else {
                    assert_eq!(sts, None);
                }
            }
        }
    }
}

#[test]
fn forced_and_explicit_never_both() {
    let mut helmet = Helmet::new();
    assert!(helmet.on_launch(true, false));
    let helmet = helmet.hsts(Some(HSTSPolicy::Enable(42)));
    assert!(helmet.forcing_hsts());
    let hs = helmet.headers();
    let sts: Vec<&str> = hs
        .iter()
        .filter(|h| h.name == "Strict-Transport-Security")
        .map(|h| h.value.as_str())
        .collect();
    assert_eq!(sts, vec!["max-age=42"]);
}
