use flair::args::args_impl;
use flair::client::NameServiceClient;
use flair::http::Method;
use flair::text::{parse_u64, same_text, IntError};

#[test]
fn parse_u64_follows_decimal_rules() {
    assert_eq!(parse_u64("0"), Ok(0));
    assert_eq!(parse_u64("+12"), Ok(12));
    assert_eq!(parse_u64("18446744073709551615"), Ok(u64::MAX));
    assert_eq!(parse_u64("18446744073709551616"), Err(IntError::Overflow));
    assert_eq!(parse_u64(""), Err(IntError::Empty));
    assert_eq!(parse_u64("+"), Err(IntError::InvalidDigit));
    assert_eq!(parse_u64("-1"), Err(IntError::InvalidDigit));
    assert_eq!(parse_u64("1a"), Err(IntError::InvalidDigit));
    assert_eq!(IntError::Empty.message(), "cannot parse integer from empty string");
}

#[test]
fn same_text_compares_characters() {
    assert!(same_text("héllo", "héllo"));
    assert!(!same_text("a", "ab"));
    assert!(!same_text("ab", "ac"));
}

#[test]
fn args_are_read_after_program_name() {
    let input: Vec<String> = vec!["prog".into(), "-server_addr=127.0.0.1:80".into(), "-x=a=b".into()];
    let args = args_impl(&input).unwrap();
    assert_eq!(args.len(), 2);
    assert_eq!(args[0].name, "server_addr");
    assert_eq!(args[0].value, "127.0.0.1:80");
    assert_eq!(args[1].name, "x");
    assert_eq!(args[1].value, "a=b");
    assert!(args_impl(&vec!["prog".into(), "nodash=1".into()]).is_none());
    assert!(args_impl(&vec!["prog".into(), "-noequals".into()]).is_none());
    assert_eq!(args_impl(&vec![]).unwrap().len(), 0);
}

#[test]
fn client_describes_the_name_service() {
    let c = NameServiceClient::new();
    assert_eq!(c.name(), "flair_mtls");
    assert_eq!(c.addr(), "localhost:3053");
    let h = c.additional_headers();
    assert_eq!((h[0].name.as_str(), h[0].value.as_str()), ("host", "localhost"));
    assert_eq!(c.cert_path(None), "./flair_mtls/rsa/end.chain");
    assert_eq!(c.cert_path(Some("/etc/certs")), "/etc/certs/flair_mtls/rsa/end.chain");
}

#[test]
fn client_builds_lookup_and_create() {
    let c = NameServiceClient::new();
    let r = c.lookup("web", Some("/c"));
    assert_eq!(r.method, Method::Get);
    assert_eq!(r.path, "/1/services/web");
    assert_eq!(r.body, b"null".to_vec());
    assert_eq!(r.cert_path, "/c/flair_mtls/rsa/end.chain");
    let r = c.create_service_entry("web".into(), "10.0.0.1".into(), 8080, None);
    assert_eq!(r.method, Method::Post);
    assert_eq!(r.path, "/1/services");
    assert_eq!(String::from_utf8(r.body).unwrap(), r#"{"name":"web","ip":"10.0.0.1","port":8080}"#);
    assert_eq!(r.addr, "localhost:3053");
}
