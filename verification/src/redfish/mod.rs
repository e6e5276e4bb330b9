use crate::redfish::json::json_member;
use crate::redfish::rest::{
    response_of, Method, Reply, ReplyView, Request, RestClientView, RestError, RestErrorView,
};
use crate::redfish::xpu::{same_version, version_reply};
use vstd::prelude::*;

pub mod bluefield;
pub mod json;
pub mod rest;
pub mod xpu;

pub use crate::redfish::xpu::{discover, BMCVersion, XPU};

verus! {

/// What the client of any vendor's controller can do. Each operation is a
/// request to send and a reading of the reply; the vendors differ in the
/// resources that they address.
pub trait Redfish {
    /// The client that the requests are made with.
    spec fn client(&self) -> RestClientView;

    /// The account whose password is changed.
    spec fn account_path(&self) -> Seq<char>;

    /// The firmware inventory entry of the controller itself.
    spec fn firmware_path(&self) -> Seq<char>;

    /// The member of the account that holds the password.
    spec fn password_field(&self) -> Seq<char>;

    /// The request that sets the administrator's password to `passwd`.
    fn change_password_request(&self, passwd: String) -> (r: Request)
        ensures
            r@ == self.client().request(
                Method::Patch,
                self.account_path(),
                Some(json_member(self.password_field(), passwd@)),
            ),
    ;

    /// What the reply to `change_password_request` means: the password is
    /// changed where the controller answered with a success status.
    fn change_password(&self, reply: Reply) -> (r: Result<(), RedfishError>)
        ensures
            match r {
                Ok(_) => password_reply(reply@) is Ok,
                Err(e) => password_reply(reply@) == Err::<(), RedfishErrorView>(e@),
            },
    ;

    /// The request that asks the controller for its firmware version.
    fn bmc_version_request(&self) -> (r: Request)
        ensures
            r@ == self.client().request(Method::Get, self.firmware_path(), None),
    ;

    /// What the reply to `bmc_version_request` means: the version that the
    /// controller reported, where it answered with a success status and a
    /// body that holds one.
    fn bmc_version(&self, reply: Reply) -> (r: Result<BMCVersion, RedfishError>)
        ensures
            same_version(r, version_reply(reply@)),
    ;
}

/// What went wrong in an operation on a controller.
#[derive(Debug, PartialEq, Eq)]
pub enum RedfishError {
    /// The text of an error from the layer below.
    RestError(String),
    /// The text of an error of local input or output.
    IOError(String),
}

/// A `RedfishError` as a mathematical value.
pub enum RedfishErrorView {
    RestError(Seq<char>),
    IOError(Seq<char>),
}

impl View for RedfishError {
    type V = RedfishErrorView;

    open spec fn view(&self) -> RedfishErrorView {
        match self {
            RedfishError::RestError(m) => RedfishErrorView::RestError(m@),
            RedfishError::IOError(m) => RedfishErrorView::IOError(m@),
        }
    }
}

impl RedfishErrorView {
    /// The text that the error is reported with.
    pub open spec fn message(self) -> Seq<char> {
        match self {
            RedfishErrorView::RestError(m) => m,
            RedfishErrorView::IOError(m) => m,
        }
    }

    /// The error of the layer below, one layer up: its text is kept.
    pub open spec fn of(e: RestErrorView) -> RedfishErrorView {
        RedfishErrorView::RestError(e.message())
    }
}

impl RedfishError {
    /// The text that the error is reported with.
    pub fn to_string(&self) -> (r: String)
        ensures
            r@ == self@.message(),
    {
        match self {
            RedfishError::RestError(m) => m.clone(),
            RedfishError::IOError(m) => m.clone(),
        }
    }

    /// Wraps an error of the layer below.
    pub fn from(value: RestError) -> (r: RedfishError)
        ensures
            r@ == RedfishErrorView::of(value@),
    {
        RedfishError::RestError(value.to_string())
    }
}

impl Clone for RedfishError {
    fn clone(&self) -> (r: Self)
        ensures
            r == *self,
    {
        match self {
            RedfishError::RestError(m) => RedfishError::RestError(m.clone()),
            RedfishError::IOError(m) => RedfishError::IOError(m.clone()),
        }
    }
}

/// What the reply to a password change means: done, or the error of the
/// layer below.
pub open spec fn password_reply(reply: ReplyView) -> Result<(), RedfishErrorView> {
    match response_of(reply) {
        Ok(_) => Ok(()),
        Err(e) => Err(RedfishErrorView::of(e)),
    }
}

} // verus!
