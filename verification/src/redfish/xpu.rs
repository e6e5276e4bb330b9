use crate::redfish::bluefield::{
    client_of, password_request, version_request, Bluefield, DEFAULT_PASSWORD, DEFAULT_USER,
};
use crate::redfish::json::{
    decode_object, field, json_object, members_of, string_field, Member, MemberView,
};
use crate::redfish::rest::{
    response_of, Reply, ReplyView, Request, RequestView, RestClient, RestClientView, RestError,
    RestErrorView,
};
use crate::redfish::{password_reply, Redfish, RedfishError, RedfishErrorView};
use crate::types::{BMCView, BMC};
use vstd::prelude::*;

verus! {

/// The firmware that a controller reports of itself.
#[derive(Debug, PartialEq, Eq)]
pub struct BMCVersion {
    pub description: String,
    pub id: String,
    pub version: String,
}

/// A `BMCVersion` as a mathematical value.
pub struct BMCVersionView {
    pub description: Seq<char>,
    pub id: Seq<char>,
    pub version: Seq<char>,
}

impl View for BMCVersion {
    type V = BMCVersionView;

    open spec fn view(&self) -> BMCVersionView {
        BMCVersionView { description: self.description@, id: self.id@, version: self.version@ }
    }
}

/// The member that describes the firmware.
pub const DESCRIPTION_FIELD: &'static str = "Description";

/// The member that identifies the inventory entry.
pub const ID_FIELD: &'static str = "Id";

/// The member that holds the version.
pub const VERSION_FIELD: &'static str = "Version";

/// The version that the members of a firmware inventory entry hold, or the
/// error for the first of the three strings that is not there.
pub open spec fn version_of(members: Seq<MemberView>) -> Result<BMCVersionView, RestErrorView> {
    match field(members, DESCRIPTION_FIELD@) {
        Err(e) => Err(e),
        Ok(description) => match field(members, ID_FIELD@) {
            Err(e) => Err(e),
            Ok(id) => match field(members, VERSION_FIELD@) {
                Err(e) => Err(e),
                Ok(version) => Ok(BMCVersionView { description, id, version }),
            },
        },
    }
}

/// The version in a decoded body, or the error of the layer below.
pub open spec fn version_in(decoded: Result<Seq<MemberView>, Seq<char>>) -> Result<
    BMCVersionView,
    RedfishErrorView,
> {
    match decoded {
        Err(m) => Err(RedfishErrorView::of(RestErrorView::Json(m))),
        Ok(members) => match version_of(members) {
            Ok(v) => Ok(v),
            Err(e) => Err(RedfishErrorView::of(e)),
        },
    }
}

/// What the reply to a version request means: the version that its body
/// holds, or the error of the layer below.
pub open spec fn version_reply(reply: ReplyView) -> Result<BMCVersionView, RedfishErrorView> {
    match response_of(reply) {
        Ok(body) => version_in(json_object(body)),
        Err(e) => Err(RedfishErrorView::of(e)),
    }
}

/// Whether a result and its model say the same.
pub open spec fn same_version(
    r: Result<BMCVersion, RedfishError>,
    m: Result<BMCVersionView, RedfishErrorView>,
) -> bool {
    match r {
        Ok(v) => m == Ok::<BMCVersionView, RedfishErrorView>(v@),
        Err(e) => m == Err::<BMCVersionView, RedfishErrorView>(e@),
    }
}

impl BMCVersion {
    /// The version that the members of a firmware inventory entry hold.
    /// Members besides the three that it reads are passed over.
    pub fn from_members(members: &Vec<Member>) -> (r: Result<BMCVersion, RestError>)
        ensures
            match r {
                Ok(v) => version_of(members_of(members@)) == Ok::<BMCVersionView, RestErrorView>(
                    v@,
                ),
                Err(e) => version_of(members_of(members@)) == Err::<BMCVersionView, RestErrorView>(
                    e@,
                ),
            },
    {
        let description = match string_field(members, DESCRIPTION_FIELD) {
            Ok(t) => t,
            Err(e) => {
                return Err(e);
            },
        };
        let id = match string_field(members, ID_FIELD) {
            Ok(t) => t,
            Err(e) => {
                return Err(e);
            },
        };
        let version = match string_field(members, VERSION_FIELD) {
            Ok(t) => t,
            Err(e) => {
                return Err(e);
            },
        };
        Ok(BMCVersion { description, id, version })
    }

    /// The version that a decoded body holds.
    pub fn from_decoded(decoded: Result<Vec<Member>, String>) -> (r: Result<BMCVersion, RedfishError>)
        ensures
            same_version(
                r,
                version_in(
                    match decoded {
                        Ok(members) => Ok(members_of(members@)),
                        Err(m) => Err(m@),
                    },
                ),
            ),
    {
        match decoded {
            Err(m) => Err(RedfishError::from(RestError::Json(m))),
            Ok(members) => match BMCVersion::from_members(&members) {
                Ok(v) => Ok(v),
                Err(e) => Err(RedfishError::from(e)),
            },
        }
    }

    /// The version that the reply to a version request holds: the controller
    /// answered with a success status, and the body is an object with the
    /// three strings.
    pub fn from_reply(reply: Reply) -> (r: Result<BMCVersion, RedfishError>)
        ensures
            same_version(r, version_reply(reply@)),
    {
        match RestClient::response(reply) {
            Ok(body) => BMCVersion::from_decoded(decode_object(body.as_str())),
            Err(e) => Err(RedfishError::from(e)),
        }
    }
}

/// Whether a controller can be worked with.
#[derive(Clone, Copy, Debug, PartialEq, Eq, Structural)]
pub enum XPUStatus {
    Ready,
    Error,
    Unknown,
}

impl XPUStatus {
    /// The status as it is shown.
    pub open spec fn text(self) -> Seq<char> {
        match self {
            XPUStatus::Error => "Error"@,
            XPUStatus::Ready => "Ready"@,
            XPUStatus::Unknown => "Unknown"@,
        }
    }
}

impl ToString for XPUStatus {
    fn to_string(&self) -> (r: String)
        ensures
            r@ == self.text(),
    {
        match self {
            XPUStatus::Error => String::from_str("Error"),
            XPUStatus::Ready => String::from_str("Ready"),
            XPUStatus::Unknown => String::from_str("Unknown"),
        }
    }
}

/// What stands for a serial number or a firmware version that is not read
/// from the device.
pub const UNKNOWN: &'static str = "-";

/// One accelerator card, as its controller showed it.
pub struct XPU {
    /// The client that the record was made with.
    pub redfish: Bluefield,
    pub vendor: String,
    pub serial_number: String,
    pub firmware_version: String,
    pub bmc: BMC,
    pub bmc_version: String,
    pub status: XPUStatus,
}

/// An `XPU` as a mathematical value.
pub struct XPUView {
    pub client: RestClientView,
    pub vendor: Seq<char>,
    pub serial_number: Seq<char>,
    pub firmware_version: Seq<char>,
    pub bmc: BMCView,
    pub bmc_version: Seq<char>,
    pub status: XPUStatus,
}

impl View for XPU {
    type V = XPUView;

    open spec fn view(&self) -> XPUView {
        XPUView {
            client: self.redfish@,
            vendor: self.vendor@,
            serial_number: self.serial_number@,
            firmware_version: self.firmware_version@,
            bmc: self.bmc@,
            bmc_version: self.bmc_version@,
            status: self.status,
        }
    }
}

/// The request that a card's record is made from: none where no client can
/// be made for the descriptor.
pub open spec fn probe_of(bmc: BMCView) -> Result<RequestView, RedfishErrorView> {
    match client_of(bmc) {
        Ok(client) => Ok(version_request(client)),
        Err(e) => Err(RedfishErrorView::of(e)),
    }
}

/// The record of the card that `bmc` describes, given the reply to its
/// version request. Any failure is the record's failure.
pub open spec fn xpu_of(bmc: BMCView, reply: ReplyView) -> Result<XPUView, RedfishErrorView> {
    match client_of(bmc) {
        Err(e) => Err(RedfishErrorView::of(e)),
        Ok(client) => match version_reply(reply) {
            Err(e) => Err(e),
            Ok(v) => Ok(
                XPUView {
                    client,
                    vendor: bmc.vendor,
                    serial_number: UNKNOWN@,
                    firmware_version: UNKNOWN@,
                    bmc,
                    bmc_version: v.version,
                    status: XPUStatus::Ready,
                },
            ),
        },
    }
}

impl XPU {
    /// The request whose reply `new` makes a record of.
    pub fn probe(bmc: &BMC) -> (r: Result<Request, RedfishError>)
        ensures
            match r {
                Ok(q) => probe_of(bmc@) == Ok::<RequestView, RedfishErrorView>(q@),
                Err(e) => probe_of(bmc@) == Err::<RequestView, RedfishErrorView>(e@),
            },
    {
        match Bluefield::new(bmc) {
            Ok(redfish) => Ok(redfish.bmc_version_request()),
            Err(e) => Err(e),
        }
    }

    /// The record of the card that `bmc` describes, from the reply to the
    /// request of `probe`. A card whose controller reported its version is
    /// ready; any failure is handed on.
    pub fn new(bmc: &BMC, reply: Reply) -> (r: Result<XPU, RedfishError>)
        ensures
            match r {
                Ok(x) => xpu_of(bmc@, reply@) == Ok::<XPUView, RedfishErrorView>(x@),
                Err(e) => xpu_of(bmc@, reply@) == Err::<XPUView, RedfishErrorView>(e@),
            },
    {
        let redfish = match Bluefield::new(bmc) {
            Ok(redfish) => redfish,
            Err(e) => {
                return Err(e);
            },
        };
        let bmc_ver = match redfish.bmc_version(reply) {
            Ok(v) => v,
            Err(e) => {
                return Err(e);
            },
        };
        Ok(
            XPU {
                redfish,
                vendor: bmc.vendor.clone(),
                serial_number: String::from_str(UNKNOWN),
                firmware_version: String::from_str(UNKNOWN),
                bmc_version: bmc_ver.version,
                bmc: bmc.clone(),
                status: XPUStatus::Ready,
            },
        )
    }
}

/// Where the onboarding of one controller stands.
#[derive(Debug, PartialEq, Eq)]
pub enum DiscoverState {
    /// The configured credentials are being tried.
    Probing,
    /// The vendor's credentials are being used to set the configured password.
    Resetting,
    /// The configured credentials are being tried again.
    Verifying,
    /// The controller takes the configured credentials.
    Ready,
    /// The controller could not be brought to take them.
    Failed(RedfishError),
}

/// A `DiscoverState` as a mathematical value.
pub enum DiscoverStateView {
    Probing,
    Resetting,
    Verifying,
    Ready,
    Failed(RedfishErrorView),
}

impl View for DiscoverState {
    type V = DiscoverStateView;

    open spec fn view(&self) -> DiscoverStateView {
        match self {
            DiscoverState::Probing => DiscoverStateView::Probing,
            DiscoverState::Resetting => DiscoverStateView::Resetting,
            DiscoverState::Verifying => DiscoverStateView::Verifying,
            DiscoverState::Ready => DiscoverStateView::Ready,
            DiscoverState::Failed(e) => DiscoverStateView::Failed(e@),
        }
    }
}

/// The onboarding of one controller: it says what to send next and takes
/// the reply.
pub struct Discovery {
    target: Bluefield,
    fallback: Bluefield,
    password: String,
    state: DiscoverState,
}

/// A `Discovery` as a mathematical value.
pub struct DiscoveryView {
    /// The client with the configured credentials.
    pub target: RestClientView,
    /// The client with the vendor's credentials.
    pub fallback: RestClientView,
    /// The password that the controller is to take.
    pub password: Seq<char>,
    pub state: DiscoverStateView,
}

impl View for Discovery {
    type V = DiscoveryView;

    closed spec fn view(&self) -> DiscoveryView {
        DiscoveryView {
            target: self.target@,
            fallback: self.fallback@,
            password: self.password@,
            state: self.state@,
        }
    }
}

impl DiscoveryView {
    /// Whether the onboarding has come to its end.
    pub open spec fn done(self) -> bool {
        self.state is Ready || self.state is Failed
    }

    /// What is to be sent next: nothing once the onboarding is done.
    pub open spec fn request(self) -> Option<RequestView> {
        match self.state {
            DiscoverStateView::Probing => Some(version_request(self.target)),
            DiscoverStateView::Resetting => Some(password_request(self.fallback, self.password)),
            DiscoverStateView::Verifying => Some(version_request(self.target)),
            DiscoverStateView::Ready => None,
            DiscoverStateView::Failed(_) => None,
        }
    }

    /// The state after the reply to `request`. A failed probe leads to the
    /// reset; a failed reset and a failed second probe are final. Once done,
    /// nothing changes.
    pub open spec fn next(self, reply: ReplyView) -> DiscoverStateView {
        match self.state {
            DiscoverStateView::Probing => match version_reply(reply) {
                Ok(_) => DiscoverStateView::Ready,
                Err(_) => DiscoverStateView::Resetting,
            },
            DiscoverStateView::Resetting => match password_reply(reply) {
                Ok(_) => DiscoverStateView::Verifying,
                Err(e) => DiscoverStateView::Failed(e),
            },
            DiscoverStateView::Verifying => match version_reply(reply) {
                Ok(_) => DiscoverStateView::Ready,
                Err(e) => DiscoverStateView::Failed(e),
            },
            DiscoverStateView::Ready => DiscoverStateView::Ready,
            DiscoverStateView::Failed(e) => DiscoverStateView::Failed(e),
        }
    }

    /// The onboarding after the reply to `request`.
    pub open spec fn step(self, reply: ReplyView) -> DiscoveryView {
        DiscoveryView { state: self.next(reply), ..self }
    }
}

/// The onboarding of the controller that `bmc` describes, at its start. The
/// second client differs from the first in its credentials alone; the
/// password to set is the one that the first client holds.
pub open spec fn discovery_of(bmc: BMCView) -> Result<DiscoveryView, RedfishErrorView> {
    match client_of(bmc) {
        Err(e) => Err(RedfishErrorView::of(e)),
        Ok(target) => Ok(
            DiscoveryView {
                target,
                fallback: RestClientView {
                    user: DEFAULT_USER@,
                    password: DEFAULT_PASSWORD@,
                    ..target
                },
                password: target.password,
                state: DiscoverStateView::Probing,
            },
        ),
    }
}

/// Starts the onboarding of the controller that `bmc` describes. Fails
/// exactly where no client can be made for its address.
pub fn discover(bmc: &BMC) -> (r: Result<Discovery, RedfishError>)
    ensures
        match r {
            Ok(d) => discovery_of(bmc@) == Ok::<DiscoveryView, RedfishErrorView>(d@),
            Err(e) => discovery_of(bmc@) == Err::<DiscoveryView, RedfishErrorView>(e@),
        },
{
    let target = match Bluefield::new(bmc) {
        Ok(target) => target,
        Err(e) => {
            return Err(e);
        },
    };
    let default_bmc = Bluefield::default_bmc(bmc.name.as_str(), bmc.address.as_str());
    let fallback = match Bluefield::new(&default_bmc) {
        Ok(fallback) => fallback,
        // The address is the one that the first client was made for.
        Err(e) => {
            assert(false);
            return Err(e);
        },
    };
    let password = match &bmc.password {
        Some(p) => p.clone(),
        None => String::from_str(DEFAULT_PASSWORD),
    };
    Ok(Discovery { target, fallback, password, state: DiscoverState::Probing })
}

impl Discovery {
    /// Where the onboarding stands.
    pub fn state(&self) -> (r: &DiscoverState)
        ensures
            r@ == self@.state,
    {
        &self.state
    }

    /// What is to be sent next: nothing once the onboarding is done.
    pub fn request(&self) -> (r: Option<Request>)
        ensures
            match r {
                Some(q) => self@.request() == Some(q@),
                None => self@.request() is None,
            },
    {
        match &self.state {
            DiscoverState::Probing => Some(self.target.bmc_version_request()),
            DiscoverState::Resetting => Some(
                self.fallback.change_password_request(self.password.clone()),
            ),
            DiscoverState::Verifying => Some(self.target.bmc_version_request()),
            DiscoverState::Ready => None,
            DiscoverState::Failed(_) => None,
        }
    }

    /// Takes the reply to `request`.
    pub fn step(self, reply: Reply) -> (r: Discovery)
        ensures
            r@ == self@.step(reply@),
    {
        let Discovery { target, fallback, password, state } = self;
        let state = match state {
            DiscoverState::Probing => match target.bmc_version(reply) {
                Ok(_) => DiscoverState::Ready,
                Err(_) => DiscoverState::Resetting,
            },
            DiscoverState::Resetting => match fallback.change_password(reply) {
                Ok(_) => DiscoverState::Verifying,
                Err(e) => DiscoverState::Failed(e),
            },
            DiscoverState::Verifying => match target.bmc_version(reply) {
                Ok(_) => DiscoverState::Ready,
                Err(e) => DiscoverState::Failed(e),
            },
            DiscoverState::Ready => DiscoverState::Ready,
            DiscoverState::Failed(e) => DiscoverState::Failed(e),
        };
        Discovery { target, fallback, password, state }
    }
}

/// There is one fallback and no retry: whatever the replies, the third
/// ends an onboarding.
pub proof fn lemma_discovery_ends(d: DiscoveryView, r1: ReplyView, r2: ReplyView, r3: ReplyView)
    ensures
        d.step(r1).step(r2).step(r3).done(),
        d.done() ==> d.step(r1) == d,
{
}

/// An onboarding ends well in two ways: the probe succeeds; or it fails,
/// the password is set with the vendor's credentials, and the second probe
/// succeeds. What is sent is the version request of the configured
/// credentials, the password request of the vendor's, and the version
/// request again.
pub proof fn lemma_discovery_converges(
    bmc: BMCView,
    r1: ReplyView,
    r2: ReplyView,
    r3: ReplyView,
)
    requires
        discovery_of(bmc) is Ok,
    ensures
        ({
            let d = discovery_of(bmc)->Ok_0;
            let target = client_of(bmc)->Ok_0;
            let fallback = client_of(
                BMCView { username: Some(DEFAULT_USER@), password: Some(DEFAULT_PASSWORD@), ..bmc },
            )->Ok_0;
            &&& client_of(bmc) is Ok
            &&& d.request() == Some(version_request(target))
            &&& version_reply(r1) is Ok ==> d.step(r1).state is Ready
            &&& version_reply(r1) is Err ==> d.step(r1).request() == Some(
                password_request(fallback, target.password),
            )
            &&& version_reply(r1) is Err && password_reply(r2) is Ok ==> d.step(r1).step(
                r2,
            ).request() == Some(version_request(target))
            &&& version_reply(r1) is Err && password_reply(r2) is Ok && version_reply(r3) is Ok
                ==> d.step(r1).step(r2).step(r3).state is Ready
        }),
{
}

/// An onboarding fails at two points and with the error of that point: the
/// password request, and the second probe. The error of the first probe is
/// not reported.
pub proof fn lemma_discovery_fails(d: DiscoveryView, r1: ReplyView, r2: ReplyView, r3: ReplyView)
    requires
        d.state is Probing,
        version_reply(r1) is Err,
    ensures
        password_reply(r2) matches Err(e) ==> d.step(r1).step(r2).state
            == DiscoverStateView::Failed(e),
        password_reply(r2) is Ok ==> (version_reply(r3) matches Err(e) ==> d.step(r1).step(
            r2,
        ).step(r3).state == DiscoverStateView::Failed(e)),
{
}

/// Asking again changes nothing: two results that were read from equal
/// replies are equal.
pub proof fn lemma_version_repeats(
    first: Reply,
    second: Reply,
    a: Result<BMCVersion, RedfishError>,
    b: Result<BMCVersion, RedfishError>,
)
    requires
        first@ == second@,
        same_version(a, version_reply(first@)),
        same_version(b, version_reply(second@)),
    ensures
        a is Ok <==> b is Ok,
        a matches Ok(v) ==> b matches Ok(w) && v@ == w@,
        a matches Err(e) ==> b matches Err(f) && e@ == f@,
{
}

} // verus!
