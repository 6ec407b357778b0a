use context_mw::auth::api_key_from_header;
use context_mw::auth::AuthData;
use context_mw::AddContextMakeService;
use context_mw::AddContextService;
use context_mw::AllowAllAuthenticator;
use context_mw::Authorization;
use context_mw::ContextBuilder;
use context_mw::EmptyContext;
use context_mw::Has;
use context_mw::IntoMakeService;
use context_mw::MakeAllowAllAuthenticator;
use context_mw::Push;
use context_mw::Scopes;
use context_mw::XSpanIdString;

fn granted(subject: &str) -> Option<Authorization> {
    Some(Authorization {
        subject: subject.to_string(),
        scopes: Scopes::All,
        issuer: None,
    })
}

fn uuid_shaped(s: &str) -> bool {
    let chars: Vec<char> = s.chars().collect();
    chars.len() == 36
        && chars.iter().enumerate().all(|(j, c)| {
            if j == 8 || j == 13 || j == 18 || j == 23 {
                *c == '-'
            } else {
                c.is_ascii_hexdigit() && !c.is_ascii_uppercase()
            }
        })
        && chars[14] == '4'
        && "89ab".contains(chars[19])
}

#[test]
fn test_make_service() {
    let a: MakeAllowAllAuthenticator<(), EmptyContext> = MakeAllowAllAuthenticator::new((), "foo");

    let service = a.wrap::<(), String>(Ok(())).unwrap();

    let request = hyper::Request::get("http://localhost").body(()).unwrap();
    let context = service.authorize(EmptyContext::default());

    let auth: &Option<Authorization> = context.get();
    let expected = granted("foo");
    let response: Result<&str, String> = if *auth == expected {
        Ok("")
    } else {
        Err(format!("{:?} != {:?}", auth, expected))
    };
    response.unwrap();
    drop(request);
}

#[test]
fn span_id_taken_from_header() {
    let req = hyper::Request::get("http://localhost")
        .header("X-Span-Id", "abc-123")
        .body(())
        .unwrap();
    let id = XSpanIdString::from_header_map(req.headers());
    assert_eq!(id.0, "abc-123");
    let id2 = XSpanIdString::get_or_generate(&req);
    assert_eq!(id2.0, "abc-123");
}

#[test]
fn span_id_lookup_is_case_insensitive() {
    let req = hyper::Request::get("http://localhost")
        .header("x-span-id", "lower-9")
        .body(())
        .unwrap();
    assert_eq!(XSpanIdString::get_or_generate(&req).0, "lower-9");
}

#[test]
fn span_id_generated_when_header_absent() {
    let req = hyper::Request::get("http://localhost").body(()).unwrap();
    let id = XSpanIdString::get_or_generate(&req);
    assert!(uuid_shaped(&id.0));
}

#[test]
fn span_id_generated_when_header_empty() {
    let req = hyper::Request::get("http://localhost")
        .header("X-Span-Id", "")
        .body(())
        .unwrap();
    let id = XSpanIdString::get_or_generate(&req);
    assert!(uuid_shaped(&id.0));
}

#[test]
fn span_id_generated_when_header_unreadable() {
    let mut req = hyper::Request::get("http://localhost").body(()).unwrap();
    req.headers_mut().insert(
        "x-span-id",
        hyper::header::HeaderValue::from_bytes(&[0x80, 0x81]).unwrap(),
    );
    let id = XSpanIdString::get_or_generate(&req);
    assert!(uuid_shaped(&id.0));
}

#[test]
fn generated_ids_differ_and_are_well_formed() {
    let a = XSpanIdString::generate();
    let b = XSpanIdString::generate();
    assert!(uuid_shaped(&a.0));
    assert!(uuid_shaped(&b.0));
    assert_ne!(a.0, b.0);
    let d = XSpanIdString::default();
    assert!(uuid_shaped(&d.0));
}

#[test]
fn format_uuid_exact_values() {
    assert_eq!(
        context_mw::xspan::format_uuid(0),
        "00000000-0000-4000-8000-000000000000"
    );
    assert_eq!(
        context_mw::xspan::format_uuid(0x0123_4567_89ab_cdef_0123_4567_89ab_cdef),
        "01234567-89ab-4def-8123-456789abcdef"
    );
    assert_eq!(
        context_mw::xspan::format_uuid(u128::MAX),
        "ffffffff-ffff-4fff-bfff-ffffffffffff"
    );
}

#[test]
fn push_then_get_returns_pushed_value() {
    let ctx = EmptyContext.push(XSpanIdString("one".to_string()));
    let id: &XSpanIdString = ctx.get();
    assert_eq!(id.0, "one");
}

#[test]
fn second_push_of_same_type_shadows_first() {
    let ctx = EmptyContext
        .push(XSpanIdString("one".to_string()))
        .push(XSpanIdString("two".to_string()));
    let id: &XSpanIdString = ctx.get();
    assert_eq!(id.0, "two");
}

#[test]
fn frames_of_different_types_are_both_readable() {
    let ctx = EmptyContext
        .push(XSpanIdString("one".to_string()))
        .push(granted("bar"));
    let id: &XSpanIdString = ctx.get();
    let auth: &Option<Authorization> = ctx.get();
    assert_eq!(id.0, "one");
    assert_eq!(*auth, granted("bar"));
}

#[test]
fn authorize_grants_configured_subject_regardless_of_context() {
    let svc: AllowAllAuthenticator<(), EmptyContext> = AllowAllAuthenticator::new((), "someone");
    let ctx = svc.authorize(EmptyContext);
    let auth: &Option<Authorization> = ctx.get();
    assert_eq!(*auth, granted("someone"));

    let svc2: AllowAllAuthenticator<(), ContextBuilder<XSpanIdString, EmptyContext>> =
        AllowAllAuthenticator::new((), "someone");
    let base = EmptyContext.push(XSpanIdString("id-1".to_string()));
    let ctx2 = svc2.authorize(base);
    let auth2: &Option<Authorization> = ctx2.get();
    assert_eq!(*auth2, granted("someone"));
}

#[test]
fn authorize_shadows_earlier_authorization_frame() {
    let svc: AllowAllAuthenticator<(), ContextBuilder<Option<Authorization>, EmptyContext>> =
        AllowAllAuthenticator::new((), "late");
    let base = EmptyContext.push(granted("early"));
    let ctx = svc.authorize(base);
    let auth: &Option<Authorization> = ctx.get();
    assert_eq!(*auth, granted("late"));
}

#[test]
fn end_to_end_chain_grants_foo_and_propagates_response() {
    let make_ctx: AddContextMakeService<(), EmptyContext> = AddContextMakeService::new(());
    let ctx_service = make_ctx.wrap::<(), String>(Ok(())).unwrap();
    drop(ctx_service);

    let req = hyper::Request::get("http://localhost").body(()).unwrap();
    let ctx = AddContextService::<(), EmptyContext>::context_for(&req, EmptyContext::default());

    let auth_svc: AllowAllAuthenticator<(), ContextBuilder<XSpanIdString, EmptyContext>> =
        AllowAllAuthenticator::new((), "foo");
    let ctx = auth_svc.authorize(ctx);

    // Terminal handler: checks the authorization frame and responds success.
    let auth: &Option<Authorization> = ctx.get();
    let response: Result<&str, String> = if *auth == granted("foo") {
        Ok("success")
    } else {
        Err("unexpected authorization".to_string())
    };
    assert_eq!(response, Ok("success"));
}

#[test]
fn injected_context_carries_header_span_id() {
    let req = hyper::Request::get("http://localhost")
        .header("X-Span-Id", "abc-123")
        .body(())
        .unwrap();
    let ctx =
        AddContextService::<(), EmptyContext>::context_from_headers(req.headers(), EmptyContext);
    let id: &XSpanIdString = ctx.get();
    assert_eq!(id.0, "abc-123");
}

#[test]
fn factory_adapter_duplicates_the_one_service() {
    let factory = IntoMakeService::new("the-service".to_string());
    let s1 = factory.make();
    let s2 = factory.make();
    assert_eq!(s1, "the-service");
    assert_eq!(s2, "the-service");
    assert_eq!(factory.service, "the-service");
}

#[test]
fn make_service_wrap_propagates_errors_unchanged() {
    let a: MakeAllowAllAuthenticator<(), EmptyContext> = MakeAllowAllAuthenticator::new((), "foo");
    let err = a.wrap::<(), String>(Err("inner failed".to_string()));
    assert_eq!(err.unwrap_err(), "inner failed");

    let m: AddContextMakeService<(), EmptyContext> = AddContextMakeService::new(());
    let err = m.wrap::<(), String>(Err("inner failed".to_string()));
    assert_eq!(err.unwrap_err(), "inner failed");
}

#[test]
fn wrapped_services_carry_the_inner_service_and_subject() {
    let a: MakeAllowAllAuthenticator<(), EmptyContext> = MakeAllowAllAuthenticator::new((), "foo");
    let svc = a.wrap::<u32, String>(Ok(9)).unwrap();
    assert_eq!(svc.inner, 9);
    assert_eq!(svc.subject, "foo");
    let copy = svc.clone();
    assert_eq!(copy.inner, 9);
    assert_eq!(copy.subject, "foo");

    let m: AddContextMakeService<u32, EmptyContext> = AddContextMakeService::new(4);
    assert_eq!(m.inner, 4);
    let svc = m.wrap::<u32, String>(Ok(8)).unwrap();
    assert_eq!(svc.inner, 8);
    let copy = svc.clone();
    assert_eq!(copy.inner, 8);
}

#[test]
fn api_key_read_from_named_header() {
    let req = hyper::Request::get("http://localhost")
        .header("X-API-Key", "key-abc-123")
        .body(())
        .unwrap();
    assert_eq!(
        api_key_from_header(req.headers(), "X-API-Key"),
        Some("key-abc-123".to_string())
    );
    assert_eq!(api_key_from_header(req.headers(), "X-Other"), None);
}

#[test]
fn auth_data_constructors() {
    let basic = AuthData::basic("user", "pass");
    assert_eq!(
        basic,
        AuthData::Basic(headers::authorization::Authorization::basic("user", "pass").0)
    );

    let bearer = AuthData::bearer("tok-123");
    assert_eq!(
        bearer,
        AuthData::Bearer(
            headers::authorization::Authorization::bearer("tok-123")
                .unwrap()
                .0
        )
    );

    let key = AuthData::apikey("k-1");
    assert_eq!(key, AuthData::ApiKey("k-1".to_string()));
}

#[test]
fn first_span_header_value_wins_when_repeated() {
    let req = hyper::Request::get("http://localhost")
        .header("X-Span-Id", "first-1")
        .header("X-Span-Id", "second-2")
        .body(())
        .unwrap();
    assert_eq!(XSpanIdString::get_or_generate(&req).0, "first-1");
}

#[test]
fn bearer_accepts_printable_non_ascii_tokens() {
    let token = "tok\u{e9}n-\u{b5}";
    let bearer = AuthData::bearer(token);
    assert_eq!(
        bearer,
        AuthData::Bearer(
            headers::authorization::Authorization::bearer(token)
                .unwrap()
                .0
        )
    );
}
