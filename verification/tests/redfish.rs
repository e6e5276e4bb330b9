use xpuctl::redfish::bluefield::Bluefield;
use xpuctl::redfish::json::{string_field, Member};
use xpuctl::redfish::rest::{Method, Reply, RestError};
use xpuctl::redfish::xpu::{DiscoverState, XPUStatus};
use xpuctl::redfish::{discover, BMCVersion, Redfish, RedfishError, XPU};
use xpuctl::types::BMC;

const VERSION_BODY: &str = "{\"Description\":\"d\",\"Id\":\"BMC_Firmware\",\"Version\":\"1.2.3\"}";
const VERSION_URL: &str =
    "https://10.0.0.1:443/redfish/v1/UpdateService/FirmwareInventory/BMC_Firmware";
const ACCOUNT_URL: &str = "https://10.0.0.1:443/redfish/v1/AccountService/Accounts/root";

fn bmc(address: &str) -> BMC {
    BMC {
        name: "xpu0".to_string(),
        vendor: "bluefield".to_string(),
        address: address.to_string(),
        username: Some("admin".to_string()),
        password: Some("secret".to_string()),
    }
}

fn bluefield() -> Bluefield {
    match Bluefield::new(&bmc("https://10.0.0.1")) {
        Ok(b) => b,
        Err(e) => panic!("no client: {:?}", e),
    }
}

fn answered(status: u16, body: &str) -> Reply {
    Reply::Answered { status, body: body.to_string() }
}

fn rest(message: &str) -> RedfishError {
    RedfishError::RestError(message.to_string())
}

#[test]
fn bmc_version_round_trip() {
    let v = bluefield().bmc_version(answered(200, VERSION_BODY));
    assert_eq!(
        v,
        Ok(BMCVersion {
            description: "d".to_string(),
            id: "BMC_Firmware".to_string(),
            version: "1.2.3".to_string(),
        })
    );
}

#[test]
fn bmc_version_twice_gives_the_same() {
    let b = bluefield();
    assert_eq!(b.bmc_version_request(), b.bmc_version_request());
    let first = b.bmc_version(answered(200, VERSION_BODY));
    let second = b.bmc_version(answered(200, VERSION_BODY));
    assert_eq!(first, second);
    let first = b.bmc_version(answered(401, ""));
    let second = b.bmc_version(answered(401, ""));
    assert_eq!(first, second);
}

#[test]
fn bmc_version_passes_over_other_members() {
    let body = "{\"@odata.id\":\"/x\",\"Version\":\"24.01\",\"Updateable\":true,\
                \"Id\":\"BMC_Firmware\",\"Status\":{\"State\":\"Enabled\"},\"Description\":\"BMC image\"}";
    let v = bluefield().bmc_version(answered(200, body));
    assert_eq!(
        v,
        Ok(BMCVersion {
            description: "BMC image".to_string(),
            id: "BMC_Firmware".to_string(),
            version: "24.01".to_string(),
        })
    );
}

#[test]
fn bmc_version_reads_escapes() {
    let body = "{\"Description\":\"a\\\"b\\u00e9\\n\",\"Id\":\"\",\"Version\":\"\\\\\"}";
    let v = bluefield().bmc_version(answered(200, body));
    assert_eq!(
        v,
        Ok(BMCVersion {
            description: "a\"b\u{e9}\n".to_string(),
            id: String::new(),
            version: "\\".to_string(),
        })
    );
}

#[test]
fn bmc_version_needs_all_three_members() {
    let b = bluefield();
    assert_eq!(
        b.bmc_version(answered(200, "{\"Id\":\"i\",\"Version\":\"v\"}")),
        Err(rest("missing field `Description`"))
    );
    assert_eq!(
        b.bmc_version(answered(200, "{\"Description\":\"d\",\"Version\":\"v\"}")),
        Err(rest("missing field `Id`"))
    );
    assert_eq!(
        b.bmc_version(answered(200, "{\"Description\":\"d\",\"Id\":\"i\"}")),
        Err(rest("missing field `Version`"))
    );
    assert_eq!(b.bmc_version(answered(200, "{}")), Err(rest("missing field `Description`")));
}

#[test]
fn bmc_version_needs_strings() {
    let b = bluefield();
    assert_eq!(
        b.bmc_version(answered(200, "{\"Description\":\"d\",\"Id\":\"i\",\"Version\":3}")),
        Err(rest("invalid type for field `Version`, expected a string"))
    );
    assert_eq!(
        b.bmc_version(answered(200, "{\"Description\":null,\"Id\":\"i\",\"Version\":\"v\"}")),
        Err(rest("invalid type for field `Description`, expected a string"))
    );
}

#[test]
fn bmc_version_of_a_malformed_body_is_a_json_error() {
    let b = bluefield();
    assert_eq!(
        b.bmc_version(answered(200, "")),
        Err(rest("EOF while parsing a value at line 1 column 0"))
    );
    assert_eq!(
        b.bmc_version(answered(200, "<html>")),
        Err(rest("expected value at line 1 column 1"))
    );
    assert_eq!(
        b.bmc_version(answered(200, "[1]")),
        Err(rest("invalid type: sequence, expected a map at line 1 column 0"))
    );
    assert_eq!(
        b.bmc_version(answered(200, "{\"Version\":\"v\"} x")),
        Err(rest("trailing characters at line 1 column 17"))
    );
}

#[test]
fn bmc_version_of_a_refusal_is_an_http_error() {
    let b = bluefield();
    assert_eq!(b.bmc_version(answered(401, VERSION_BODY)), Err(rest("HTTP status 401")));
    assert_eq!(
        b.bmc_version(Reply::Failed("timed out".to_string())),
        Err(rest("timed out"))
    );
    assert_eq!(
        b.bmc_version(Reply::Rejected("bad request".to_string())),
        Err(rest("invalid configuration 'bad request'"))
    );
}

#[test]
fn bmc_version_request_reads_the_firmware_inventory() {
    let r = bluefield().bmc_version_request();
    assert_eq!(r.method, Method::Get);
    assert_eq!(r.url, VERSION_URL);
    assert_eq!(r.username, "admin");
    assert_eq!(r.password, "secret");
    assert_eq!(r.body, "");
    assert_eq!(r.accept, "application/json");
    assert_eq!(r.content_type, "application/json");
    assert!(r.accept_invalid_certs);
    assert_eq!(r.timeout_secs, 30);
}

#[test]
fn change_password_request_patches_the_account() {
    let r = bluefield().change_password_request("n3w".to_string());
    assert_eq!(r.method, Method::Patch);
    assert_eq!(r.url, ACCOUNT_URL);
    assert_eq!(r.body, "{\"Password\":\"n3w\"}");
    assert_eq!(r.username, "admin");
    assert_eq!(r.password, "secret");
}

#[test]
fn change_password_request_encodes_the_password() {
    let r = bluefield().change_password_request("a\"b\\c\n\u{e9}".to_string());
    assert_eq!(r.body, "{\"Password\":\"a\\\"b\\\\c\\n\u{e9}\"}");
}

#[test]
fn change_password_goes_by_the_status() {
    let b = bluefield();
    assert_eq!(b.change_password(answered(200, "{}")), Ok(()));
    assert_eq!(b.change_password(answered(204, "")), Ok(()));
    assert_eq!(b.change_password(answered(200, "no json at all")), Ok(()));
    assert_eq!(b.change_password(answered(401, "")), Err(rest("HTTP status 401")));
    assert_eq!(
        b.change_password(Reply::Failed("connection reset".to_string())),
        Err(rest("connection reset"))
    );
}

#[test]
fn bluefield_client_needs_an_address_with_a_host() {
    assert_eq!(
        Bluefield::new(&bmc("not a url")).err(),
        Some(rest("invalid configuration 'invalid BMC url'"))
    );
    assert_eq!(
        Bluefield::new(&bmc("mailto:root@example.com")).err(),
        Some(rest("invalid configuration 'invalid BMC host'"))
    );
}

#[test]
fn bluefield_client_falls_back_to_vendor_credentials() {
    let mut d = bmc("https://10.0.0.1");
    d.username = None;
    d.password = None;
    let r = Bluefield::new(&d).map(|b| b.bmc_version_request()).map(|r| (r.username, r.password));
    assert_eq!(r, Ok(("root".to_string(), "0penBmc".to_string())));
}

#[test]
fn default_bmc_has_the_vendor_credentials() {
    let d = Bluefield::default_bmc("xpu7", "https://10.0.0.7");
    assert_eq!(d.name, "xpu7");
    assert_eq!(d.address, "https://10.0.0.7");
    assert_eq!(d.vendor, "bluefield");
    assert_eq!(d.username, Some("root".to_string()));
    assert_eq!(d.password, Some("0penBmc".to_string()));
}

#[test]
fn redfish_error_wraps_the_text() {
    assert_eq!(RedfishError::from(RestError::Http("x".to_string())), rest("x"));
    assert_eq!(RedfishError::from(RestError::NotFound("x".to_string())), rest("'x' not found"));
    assert_eq!(
        RedfishError::from(RestError::AuthFailure("x".to_string())),
        rest("failed to auth 'x'")
    );
    assert_eq!(rest("x").to_string(), "x");
    assert_eq!(RedfishError::IOError("y".to_string()).to_string(), "y");
    assert_eq!(RedfishError::IOError("y".to_string()).clone(), RedfishError::IOError("y".to_string()));
}

#[test]
fn string_field_takes_the_first_member_of_that_key() {
    let members = vec![
        Member { key: "a".to_string(), text: Some("1".to_string()) },
        Member { key: "b".to_string(), text: None },
        Member { key: "a".to_string(), text: Some("2".to_string()) },
    ];
    assert_eq!(string_field(&members, "a"), Ok("1".to_string()));
    assert_eq!(
        string_field(&members, "b"),
        Err(RestError::Json("invalid type for field `b`, expected a string".to_string()))
    );
    assert_eq!(
        string_field(&members, "c"),
        Err(RestError::Json("missing field `c`".to_string()))
    );
    assert_eq!(
        string_field(&Vec::new(), "a"),
        Err(RestError::Json("missing field `a`".to_string()))
    );
}

#[test]
fn version_from_members_reads_the_three() {
    let members = vec![
        Member { key: "Version".to_string(), text: Some("v".to_string()) },
        Member { key: "Id".to_string(), text: Some("i".to_string()) },
        Member { key: "Description".to_string(), text: Some("d".to_string()) },
    ];
    assert_eq!(
        BMCVersion::from_members(&members),
        Ok(BMCVersion { description: "d".to_string(), id: "i".to_string(), version: "v".to_string() })
    );
    assert_eq!(
        BMCVersion::from_decoded(Err("broken".to_string())),
        Err(rest("broken"))
    );
    assert_eq!(
        BMCVersion::from_decoded(Ok(Vec::new())),
        Err(rest("missing field `Description`"))
    );
}

#[test]
fn status_reads_as_its_name() {
    assert_eq!(XPUStatus::Ready.to_string(), "Ready");
    assert_eq!(XPUStatus::Error.to_string(), "Error");
    assert_eq!(XPUStatus::Unknown.to_string(), "Unknown");
}

#[test]
fn xpu_is_ready_when_the_version_is_read() {
    let d = bmc("https://10.0.0.1");
    assert_eq!(XPU::probe(&d).map(|r| r.url), Ok(VERSION_URL.to_string()));
    let x = match XPU::new(&d, answered(200, VERSION_BODY)) {
        Ok(x) => x,
        Err(e) => panic!("no record: {:?}", e),
    };
    assert_eq!(x.status, XPUStatus::Ready);
    assert_eq!(x.vendor, "bluefield");
    assert_eq!(x.serial_number, "-");
    assert_eq!(x.firmware_version, "-");
    assert_eq!(x.bmc_version, "1.2.3");
    assert_eq!(x.bmc.address, "https://10.0.0.1");
    assert_eq!(x.bmc.name, "xpu0");
    assert_eq!(x.redfish.bmc_version_request().url, VERSION_URL);
}

#[test]
fn xpu_hands_on_any_failure() {
    let d = bmc("https://10.0.0.1");
    assert_eq!(XPU::new(&d, answered(401, "")).err(), Some(rest("HTTP status 401")));
    assert_eq!(
        XPU::new(&d, answered(200, "{}")).err(),
        Some(rest("missing field `Description`"))
    );
    let bad = bmc("not a url");
    assert_eq!(XPU::probe(&bad), Err(rest("invalid configuration 'invalid BMC url'")));
    assert_eq!(
        XPU::new(&bad, answered(200, VERSION_BODY)).err(),
        Some(rest("invalid configuration 'invalid BMC url'"))
    );
}

#[test]
fn discovery_is_done_when_the_probe_succeeds() {
    let d = discover(&bmc("https://10.0.0.1")).expect("a discovery");
    assert_eq!(*d.state(), DiscoverState::Probing);
    let q = d.request().expect("a request");
    assert_eq!(q.method, Method::Get);
    assert_eq!(q.url, VERSION_URL);
    assert_eq!((q.username.as_str(), q.password.as_str()), ("admin", "secret"));
    let d = d.step(answered(200, VERSION_BODY));
    assert_eq!(*d.state(), DiscoverState::Ready);
    assert_eq!(d.request(), None);
}

#[test]
fn discovery_success_path() {
    let d = discover(&bmc("https://10.0.0.1")).expect("a discovery");
    let d = d.step(answered(401, ""));
    assert_eq!(*d.state(), DiscoverState::Resetting);
    let q = d.request().expect("a request");
    assert_eq!(q.method, Method::Patch);
    assert_eq!(q.url, ACCOUNT_URL);
    assert_eq!((q.username.as_str(), q.password.as_str()), ("root", "0penBmc"));
    assert_eq!(q.body, "{\"Password\":\"secret\"}");
    let d = d.step(answered(200, "{}"));
    assert_eq!(*d.state(), DiscoverState::Verifying);
    let q = d.request().expect("a request");
    assert_eq!(q.method, Method::Get);
    assert_eq!(q.url, VERSION_URL);
    assert_eq!((q.username.as_str(), q.password.as_str()), ("admin", "secret"));
    let d = d.step(answered(200, VERSION_BODY));
    assert_eq!(*d.state(), DiscoverState::Ready);
    assert_eq!(d.request(), None);
}

#[test]
fn discovery_fails_when_the_defaults_are_rejected() {
    let d = discover(&bmc("https://10.0.0.1")).expect("a discovery");
    let d = d.step(answered(401, "")).step(answered(403, ""));
    assert_eq!(*d.state(), DiscoverState::Failed(rest("HTTP status 403")));
    assert_eq!(d.request(), None);
    let d = d.step(answered(200, VERSION_BODY));
    assert_eq!(*d.state(), DiscoverState::Failed(rest("HTTP status 403")));
}

#[test]
fn discovery_fails_when_the_change_does_not_hold() {
    let d = discover(&bmc("https://10.0.0.1")).expect("a discovery");
    let d = d.step(Reply::Failed("timed out".to_string())).step(answered(200, "")).step(answered(401, ""));
    assert_eq!(*d.state(), DiscoverState::Failed(rest("HTTP status 401")));
    let d = discover(&bmc("https://10.0.0.1")).expect("a discovery");
    let d = d.step(answered(401, "")).step(answered(200, "")).step(Reply::Failed("gone".to_string()));
    assert_eq!(*d.state(), DiscoverState::Failed(rest("gone")));
}

#[test]
fn discovery_probe_fails_on_a_body_without_version() {
    let d = discover(&bmc("https://10.0.0.1")).expect("a discovery");
    let d = d.step(answered(200, "{}"));
    assert_eq!(*d.state(), DiscoverState::Resetting);
}

#[test]
fn discovery_needs_an_address_with_a_host() {
    assert_eq!(
        discover(&bmc("not a url")).err(),
        Some(rest("invalid configuration 'invalid BMC url'"))
    );
}

#[test]
fn discovery_without_a_password_sets_the_vendor_password() {
    let mut b = bmc("https://10.0.0.1");
    b.password = None;
    let d = discover(&b).expect("a discovery").step(answered(401, ""));
    let q = d.request().expect("a request");
    assert_eq!(q.body, "{\"Password\":\"0penBmc\"}");
}
