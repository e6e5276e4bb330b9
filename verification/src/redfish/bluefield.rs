use crate::redfish::json::{encode_member, json_member};
use crate::redfish::rest::{
    client_for, parsed_address, Method, Reply, Request, RequestView, RestClient, RestClientView,
    RestConfig, RestErrorView,
};
use crate::redfish::xpu::BMCVersion;
use crate::redfish::{Redfish, RedfishError, RedfishErrorView};
use crate::types::{BMCView, BMC};
use vstd::prelude::*;

verus! {

/// The password that a controller of this vendor ships with.
pub const DEFAULT_PASSWORD: &'static str = "0penBmc";

/// The administrator that a controller of this vendor ships with.
pub const DEFAULT_USER: &'static str = "root";

/// The vendor tag.
pub const VENDOR: &'static str = "bluefield";

/// The account whose password is changed.
pub const ACCOUNT_PATH: &'static str = "/redfish/v1/AccountService/Accounts/root";

/// The firmware inventory entry of the controller itself.
pub const FIRMWARE_PATH: &'static str = "redfish/v1/UpdateService/FirmwareInventory/BMC_Firmware";

/// The member of the account resource that holds the password.
pub const PASSWORD_FIELD: &'static str = "Password";

/// The Redfish client of a BlueField controller.
pub struct Bluefield {
    rest: RestClient,
}

impl View for Bluefield {
    type V = RestClientView;

    closed spec fn view(&self) -> RestClientView {
        self.rest@
    }
}

/// The client that a descriptor asks for: one for its address, with its
/// credentials, and the vendor's where it has none.
pub open spec fn client_of(bmc: BMCView) -> Result<RestClientView, RestErrorView> {
    client_for(
        parsed_address(bmc.address),
        match bmc.username {
            Some(u) => u,
            None => DEFAULT_USER@,
        },
        match bmc.password {
            Some(p) => p,
            None => DEFAULT_PASSWORD@,
        },
    )
}

/// The request that asks a controller for its firmware version.
pub open spec fn version_request(client: RestClientView) -> RequestView {
    client.request(Method::Get, FIRMWARE_PATH@, None)
}

/// The request that sets the administrator's password to `passwd`.
pub open spec fn password_request(client: RestClientView, passwd: Seq<char>) -> RequestView {
    client.request(Method::Patch, ACCOUNT_PATH@, Some(json_member(PASSWORD_FIELD@, passwd)))
}

impl Bluefield {
    /// The client for the controller that `bmc` describes. Fails exactly
    /// where the address of `bmc` is no URL or names no host.
    pub fn new(bmc: &BMC) -> (r: Result<Bluefield, RedfishError>)
        ensures
            match r {
                Ok(b) => client_of(bmc@) == Ok::<RestClientView, RestErrorView>(b@),
                Err(e) => client_of(bmc@) is Err && e@ == RedfishErrorView::of(
                    client_of(bmc@)->Err_0,
                ),
            },
    {
        let config = RestConfig {
            address: bmc.address.clone(),
            password: match &bmc.password {
                Some(p) => p.clone(),
                None => String::from_str(DEFAULT_PASSWORD),
            },
            username: match &bmc.username {
                Some(u) => u.clone(),
                None => String::from_str(DEFAULT_USER),
            },
        };
        match RestClient::new(&config) {
            Ok(rest) => Ok(Bluefield { rest }),
            Err(e) => Err(RedfishError::from(e)),
        }
    }

    /// The descriptor of the controller at `addr` as it comes from the
    /// vendor: with the vendor's tag and credentials.
    pub fn default_bmc(name: &str, addr: &str) -> (r: BMC)
        ensures
            r@ == (BMCView {
                name: name@,
                address: addr@,
                vendor: VENDOR@,
                password: Some(DEFAULT_PASSWORD@),
                username: Some(DEFAULT_USER@),
            }),
    {
        BMC {
            name: String::from_str(name),
            address: String::from_str(addr),
            vendor: String::from_str(VENDOR),
            password: Some(String::from_str(DEFAULT_PASSWORD)),
            username: Some(String::from_str(DEFAULT_USER)),
        }
    }
}

impl Redfish for Bluefield {
    open spec fn client(&self) -> RestClientView {
        self@
    }

    open spec fn account_path(&self) -> Seq<char> {
        ACCOUNT_PATH@
    }

    open spec fn firmware_path(&self) -> Seq<char> {
        FIRMWARE_PATH@
    }

    open spec fn password_field(&self) -> Seq<char> {
        PASSWORD_FIELD@
    }

    fn change_password_request(&self, passwd: String) -> (r: Request) {
        let data = encode_member(PASSWORD_FIELD, passwd.as_str());
        self.rest.patch(ACCOUNT_PATH, data)
    }

    fn change_password(&self, reply: Reply) -> (r: Result<(), RedfishError>) {
        match RestClient::response(reply) {
            Ok(_) => Ok(()),
            Err(e) => Err(RedfishError::from(e)),
        }
    }

    fn bmc_version_request(&self) -> (r: Request) {
        self.rest.get(FIRMWARE_PATH)
    }

    fn bmc_version(&self, reply: Reply) -> (r: Result<BMCVersion, RedfishError>) {
        BMCVersion::from_reply(reply)
    }
}

} // verus!
