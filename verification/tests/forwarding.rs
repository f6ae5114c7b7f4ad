use http::header::HeaderValue;
use http::Request;
use jars::forwarding::set_proxy_headers;

#[test]
fn xff_header_is_added_ipv4() {
    let mut req = Request::new(());
    set_proxy_headers(req.headers_mut(), "127.0.0.1").unwrap();
    assert_eq!(
        req.headers().get("X-Forwarded-For"),
        Some(&HeaderValue::from_static("127.0.0.1"))
    );
}

#[test]
fn xff_header_is_added_ipv6() {
    let mut req = Request::new(());
    set_proxy_headers(req.headers_mut(), "::1").unwrap();
    assert_eq!(
        req.headers().get("X-Forwarded-For"),
        Some(&HeaderValue::from_static("::1"))
    );
}

#[test]
fn xff_header_can_append() {
    let mut req = Request::new(());
    req.headers_mut()
        .insert("X-Forwarded-For", HeaderValue::from_static("127.0.1.1"));
    set_proxy_headers(req.headers_mut(), "127.0.0.1").unwrap();
    assert_eq!(
        req.headers().get("X-Forwarded-For"),
        Some(&HeaderValue::from_static("127.0.1.1,127.0.0.1"))
    );
}

#[test]
fn xff_header_not_visible_ascii_is_replaced() {
    let mut req = Request::new(());
    req.headers_mut().insert(
        "X-Forwarded-For",
        HeaderValue::from_bytes(&[b'1', 0xe9, b'2']).unwrap(),
    );
    set_proxy_headers(req.headers_mut(), "10.0.0.7").unwrap();
    assert_eq!(
        req.headers().get("X-Forwarded-For"),
        Some(&HeaderValue::from_static("10.0.0.7"))
    );
}

#[test]
fn xff_header_name_is_case_insensitive_and_extra_values_dropped() {
    let mut req = Request::new(());
    req.headers_mut()
        .append("x-forwarded-for", HeaderValue::from_static("1.1.1.1"));
    req.headers_mut()
        .append("x-forwarded-for", HeaderValue::from_static("2.2.2.2"));
    set_proxy_headers(req.headers_mut(), "3.3.3.3").unwrap();
    let values: Vec<&HeaderValue> = req.headers().get_all("X-Forwarded-For").iter().collect();
    assert_eq!(values, vec![&HeaderValue::from_static("1.1.1.1,3.3.3.3")]);
}

#[test]
fn xff_other_headers_are_kept() {
    let mut req = Request::new(());
    req.headers_mut()
        .insert("Host", HeaderValue::from_static("example.com"));
    set_proxy_headers(req.headers_mut(), "127.0.0.1").unwrap();
    assert_eq!(
        req.headers().get("host"),
        Some(&HeaderValue::from_static("example.com"))
    );
    assert_eq!(req.headers().len(), 2);
}

#[test]
fn xff_chain_of_two_proxies() {
    let mut req = Request::new(());
    set_proxy_headers(req.headers_mut(), "192.168.0.1").unwrap();
    set_proxy_headers(req.headers_mut(), "10.1.2.3").unwrap();
    assert_eq!(
        req.headers().get("X-Forwarded-For"),
        Some(&HeaderValue::from_static("192.168.0.1,10.1.2.3"))
    );
}


#[test]
fn xff_set_on_a_map_with_many_names() {
    let mut req = Request::new(());
    for i in 0..6_000u32 {
        let name = http::header::HeaderName::from_bytes(format!("x-h{}", i).as_bytes()).unwrap();
        req.headers_mut().insert(name, HeaderValue::from_static("v"));
    }
    assert!(set_proxy_headers(req.headers_mut(), "127.0.0.1").is_ok());
    assert_eq!(
        req.headers().get("X-Forwarded-For"),
        Some(&HeaderValue::from_static("127.0.0.1"))
    );
    assert_eq!(req.headers().keys_len(), 6_001);
}
