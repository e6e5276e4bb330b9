use xpuctl::redfish::rest::{Method, Reply, Request, RestClient, RestConfig, RestError};
use xpuctl::text::{decimal_string, trim_matches};

fn config(address: &str) -> RestConfig {
    RestConfig {
        address: address.to_string(),
        username: "admin".to_string(),
        password: "secret".to_string(),
    }
}

fn client(address: &str) -> RestClient {
    match RestClient::new(&config(address)) {
        Ok(c) => c,
        Err(e) => panic!("no client for {}: {:?}", address, e),
    }
}

fn error_of(address: &str) -> RestError {
    match RestClient::new(&config(address)) {
        Ok(_) => panic!("a client for {}", address),
        Err(e) => e,
    }
}

#[test]
fn construction_fails_without_a_url() {
    assert_eq!(error_of("not a url"), RestError::InvalidConfig("invalid BMC url".to_string()));
    assert_eq!(error_of(""), RestError::InvalidConfig("invalid BMC url".to_string()));
    assert_eq!(
        error_of("192.168.1.10:443"),
        RestError::InvalidConfig("invalid BMC url".to_string())
    );
}

#[test]
fn construction_fails_without_a_host() {
    assert_eq!(
        error_of("unix:/run/foo.socket"),
        RestError::InvalidConfig("invalid BMC host".to_string())
    );
    assert_eq!(
        error_of("data:text/plain,Stuff"),
        RestError::InvalidConfig("invalid BMC host".to_string())
    );
}

#[test]
fn secure_address_defaults_to_port_443() {
    let r = client("https://10.0.0.1").get("redfish/v1");
    assert_eq!(r.url, "https://10.0.0.1:443/redfish/v1");
}

#[test]
fn plain_address_defaults_to_port_80() {
    let r = client("http://bmc.example.com").get("redfish/v1");
    assert_eq!(r.url, "http://bmc.example.com:80/redfish/v1");
}

#[test]
fn explicit_port_is_kept() {
    assert_eq!(client("https://10.0.0.1:8443").get("a").url, "https://10.0.0.1:8443/a");
    assert_eq!(client("http://10.0.0.1:8080/").get("a").url, "http://10.0.0.1:8080/a");
    assert_eq!(client("https://10.0.0.1:65535").get("a").url, "https://10.0.0.1:65535/a");
    assert_eq!(client("https://10.0.0.1:7").get("a").url, "https://10.0.0.1:7/a");
}

#[test]
fn host_is_read_by_the_parser() {
    assert_eq!(client("https://user:pw@BMC.Example.COM/x?y#z").get("a").url,
        "https://bmc.example.com:443/a");
    assert_eq!(client("https://[::1]:9443").get("a").url, "https://[::1]:9443/a");
}

#[test]
fn other_schemes_are_taken_as_secure() {
    assert_eq!(client("redfish://10.0.0.1").get("a").url, "https://10.0.0.1:443/a");
}

#[test]
fn path_loses_the_slashes_at_its_ends() {
    let c = client("https://h");
    assert_eq!(c.get("/redfish/v1/").url, "https://h:443/redfish/v1");
    assert_eq!(c.get("///a//b///").url, "https://h:443/a//b");
    assert_eq!(c.get("").url, "https://h:443/");
    assert_eq!(c.get("////").url, "https://h:443/");
    assert_eq!(c.get("a").url, "https://h:443/a");
}

#[test]
fn get_request_is_complete() {
    let r = client("https://h").get("/x");
    assert_eq!(
        r,
        Request {
            method: Method::Get,
            url: "https://h:443/x".to_string(),
            accept: "application/json".to_string(),
            content_type: "application/json".to_string(),
            username: "admin".to_string(),
            password: "secret".to_string(),
            body: String::new(),
            accept_invalid_certs: true,
            timeout_secs: 30,
        }
    );
}

#[test]
fn each_verb_makes_its_request() {
    let c = client("https://h");
    let put = c.put("x", "{}".to_string());
    assert_eq!(put.method, Method::Put);
    assert_eq!(put.body, "{}");
    let patch = c.patch("x", "{\"a\":1}".to_string());
    assert_eq!(patch.method, Method::Patch);
    assert_eq!(patch.body, "{\"a\":1}");
    let delete = c.delete("x");
    assert_eq!(delete.method, Method::Delete);
    assert_eq!(delete.body, "");
    assert_eq!(delete.url, "https://h:443/x");
}

#[test]
fn success_status_gives_the_body() {
    for status in [200u16, 201, 204, 299] {
        let reply = Reply::Answered { status, body: "text".to_string() };
        assert_eq!(RestClient::response(reply), Ok("text".to_string()));
    }
}

#[test]
fn other_status_is_an_http_error_with_the_status() {
    let reply = |status: u16| Reply::Answered { status, body: "text".to_string() };
    assert_eq!(RestClient::response(reply(401)), Err(RestError::Http("HTTP status 401".to_string())));
    assert_eq!(RestClient::response(reply(404)), Err(RestError::Http("HTTP status 404".to_string())));
    assert_eq!(RestClient::response(reply(500)), Err(RestError::Http("HTTP status 500".to_string())));
    assert_eq!(RestClient::response(reply(199)), Err(RestError::Http("HTTP status 199".to_string())));
    assert_eq!(RestClient::response(reply(300)), Err(RestError::Http("HTTP status 300".to_string())));
    assert_eq!(RestClient::response(reply(0)), Err(RestError::Http("HTTP status 0".to_string())));
}

#[test]
fn transport_failure_is_an_http_error() {
    assert_eq!(
        RestClient::response(Reply::Failed("connection refused".to_string())),
        Err(RestError::Http("connection refused".to_string()))
    );
}

#[test]
fn unbuildable_request_is_a_configuration_error() {
    assert_eq!(
        RestClient::response(Reply::Rejected("relative URL without a base".to_string())),
        Err(RestError::InvalidConfig("relative URL without a base".to_string()))
    );
}

#[test]
fn rest_errors_read_as_their_kind_says() {
    assert_eq!(RestError::Internal("x".to_string()).to_string(), "x");
    assert_eq!(RestError::Json("x".to_string()).to_string(), "x");
    assert_eq!(RestError::Http("x".to_string()).to_string(), "x");
    assert_eq!(RestError::NotFound("x".to_string()).to_string(), "'x' not found");
    assert_eq!(RestError::AuthFailure("x".to_string()).to_string(), "failed to auth 'x'");
    assert_eq!(RestError::InvalidConfig("x".to_string()).to_string(), "invalid configuration 'x'");
}

#[test]
fn decimal_string_writes_base_ten() {
    assert_eq!(decimal_string(0), "0");
    assert_eq!(decimal_string(7), "7");
    assert_eq!(decimal_string(10), "10");
    assert_eq!(decimal_string(443), "443");
    assert_eq!(decimal_string(1905), "1905");
    assert_eq!(decimal_string(65535), "65535");
}

#[test]
fn trim_matches_drops_both_runs() {
    assert_eq!(trim_matches("/a/b/", '/'), "a/b");
    assert_eq!(trim_matches("a", '/'), "a");
    assert_eq!(trim_matches("", '/'), "");
    assert_eq!(trim_matches("//", '/'), "");
    assert_eq!(trim_matches("/", '/'), "");
    assert_eq!(trim_matches("//a", '/'), "a");
    assert_eq!(trim_matches("a//", '/'), "a");
    assert_eq!(trim_matches("xxaxbxx", 'x'), "axb");
    assert_eq!(trim_matches("/é/ü/", '/'), "é/ü");
}
