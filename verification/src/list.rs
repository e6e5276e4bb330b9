use crate::redfish::bluefield::client_of;
use crate::redfish::rest::{
    Reply, ReplyView, Request, RequestView, RestClientView, RestErrorView,
};
use crate::redfish::xpu::{probe_of, xpu_of, XPUStatus, XPUView, UNKNOWN, XPU};
use crate::redfish::{RedfishError, RedfishErrorView};
use crate::types::{descriptors_of, BMCView, Context, BMC};
use vstd::prelude::*;

verus! {

/// The records of a list, each as a mathematical value.
pub open spec fn records_of(rows: Seq<XPU>) -> Seq<XPUView> {
    Seq::new(rows.len(), |i: int| rows[i]@)
}

/// The listing of all cards of a context, one after the other, up to the
/// first that fails.
pub struct Listing {
    bmc: Vec<BMC>,
    rows: Vec<XPU>,
    failure: Option<RedfishError>,
}

/// A `Listing` as a mathematical value.
pub struct ListingView {
    /// The controllers, in the order of the context.
    pub bmc: Seq<BMCView>,
    /// The records of the cards that were listed.
    pub rows: Seq<XPUView>,
    /// The error that ended the listing, if one did.
    pub failure: Option<RedfishErrorView>,
}

impl View for Listing {
    type V = ListingView;

    closed spec fn view(&self) -> ListingView {
        ListingView {
            bmc: descriptors_of(self.bmc@),
            rows: records_of(self.rows@),
            failure: match self.failure {
                Some(e) => Some(e@),
                None => None,
            },
        }
    }
}

/// Whether a record is one of the card that `bmc` describes: made with the
/// client for `bmc`, of a card that is ready, with nothing but the version
/// left open.
pub open spec fn record_of(row: XPUView, bmc: BMCView) -> bool {
    &&& client_of(bmc) == Ok::<RestClientView, RestErrorView>(row.client)
    &&& row.bmc == bmc
    &&& row.vendor == bmc.vendor
    &&& row.serial_number == UNKNOWN@
    &&& row.firmware_version == UNKNOWN@
    &&& row.status == XPUStatus::Ready
}

/// Whether the records are those of the first controllers, in order.
pub open spec fn listed(rows: Seq<XPUView>, bmc: Seq<BMCView>) -> bool {
    &&& rows.len() <= bmc.len()
    &&& forall|i: int| 0 <= i < rows.len() ==> record_of(#[trigger] rows[i], bmc[i])
}

impl ListingView {
    /// Whether the listing has come to its end: with a failure, or with all
    /// cards listed.
    pub open spec fn done(self) -> bool {
        self.failure is Some || self.rows.len() >= self.bmc.len()
    }

    /// How the listing ended, once it has.
    pub open spec fn result(self) -> Option<Result<(), RedfishErrorView>> {
        match self.failure {
            Some(e) => Some(Err(e)),
            None => if self.rows.len() >= self.bmc.len() {
                Some(Ok(()))
            } else {
                None
            },
        }
    }

    /// What is to be sent next: nothing once the listing is done.
    pub open spec fn request(self) -> Option<RequestView> {
        if self.done() {
            None
        } else {
            match probe_of(self.bmc[self.rows.len() as int]) {
                Ok(q) => Some(q),
                Err(_) => None,
            }
        }
    }

    /// Ends the listing where nothing can be sent to the controller in turn.
    pub open spec fn settle(self) -> ListingView {
        if self.done() {
            self
        } else {
            match probe_of(self.bmc[self.rows.len() as int]) {
                Ok(_) => self,
                Err(e) => ListingView { failure: Some(e), ..self },
            }
        }
    }

    /// The listing of `bmc` before anything was sent.
    pub open spec fn start(bmc: Seq<BMCView>) -> ListingView {
        ListingView { bmc, rows: Seq::empty(), failure: None }.settle()
    }

    /// The listing after the reply to `request`. The first failure ends it:
    /// no record is added, and no later controller is turned to.
    pub open spec fn step(self, reply: ReplyView) -> ListingView {
        if self.done() {
            self
        } else {
            match xpu_of(self.bmc[self.rows.len() as int], reply) {
                Ok(x) => ListingView { rows: self.rows.push(x), ..self }.settle(),
                Err(e) => ListingView { failure: Some(e), ..self },
            }
        }
    }

    /// What holds of every listing: the records are those of the first
    /// controllers, in order; a failure leaves a controller without record;
    /// and while the listing goes on, there is something to send.
    pub open spec fn wf(self) -> bool {
        &&& listed(self.rows, self.bmc)
        &&& self.failure is Some ==> self.rows.len() < self.bmc.len()
        &&& !self.done() ==> probe_of(self.bmc[self.rows.len() as int]) is Ok
    }
}

/// A listing starts as every listing is.
pub proof fn lemma_start_wf(bmc: Seq<BMCView>)
    ensures
        ListingView::start(bmc).wf(),
        ListingView::start(bmc).bmc == bmc,
{
}

/// A reply leaves a listing as every listing is: the controllers are the
/// same, and the records that were there stay.
pub proof fn lemma_step_wf(s: ListingView, reply: ReplyView)
    requires
        s.wf(),
    ensures
        s.step(reply).wf(),
        s.step(reply).bmc == s.bmc,
        s.step(reply).rows.len() >= s.rows.len(),
        s.step(reply).rows.take(s.rows.len() as int) == s.rows,
{
    assert(s.step(reply).rows.take(s.rows.len() as int) =~= s.rows);
}

/// The first failure ends the listing: the cards before it have their
/// record and no other, nothing more is sent, and a reply changes nothing.
pub proof fn lemma_failure_is_final(s: ListingView, reply: ReplyView)
    requires
        s.wf(),
        s.failure is Some,
    ensures
        s.done(),
        s.request() is None,
        s.result() == Some(Err::<(), RedfishErrorView>(s.failure->0)),
        s.rows.len() < s.bmc.len(),
        s.step(reply) == s,
{
}

/// A reply that gives no record ends the listing with its error, and adds
/// no record.
pub proof fn lemma_fails_fast(s: ListingView, reply: ReplyView)
    requires
        s.wf(),
        !s.done(),
        xpu_of(s.bmc[s.rows.len() as int], reply) is Err,
    ensures
        s.step(reply).failure == Some(xpu_of(s.bmc[s.rows.len() as int], reply)->Err_0),
        s.step(reply).rows == s.rows,
{
}

/// A listing that ended well has a record for every controller.
pub proof fn lemma_success_lists_all(s: ListingView)
    requires
        s.wf(),
        s.result() == Some(Ok::<(), RedfishErrorView>(())),
    ensures
        s.rows.len() == s.bmc.len(),
        listed(s.rows, s.bmc),
{
}

/// The listing of `bmc` with the records `rows`, ended where nothing can be
/// sent to the controller in turn.
fn settle(bmc: Vec<BMC>, rows: Vec<XPU>) -> (r: Listing)
    requires
        listed(records_of(rows@), descriptors_of(bmc@)),
    ensures
        r@ == (ListingView {
            bmc: descriptors_of(bmc@),
            rows: records_of(rows@),
            failure: None,
        }).settle(),
{
    if rows.len() >= bmc.len() {
        return Listing { bmc, rows, failure: None };
    }
    let probe = XPU::probe(&bmc[rows.len()]);
    match probe {
        Ok(_) => Listing { bmc, rows, failure: None },
        Err(e) => Listing { bmc, rows, failure: Some(e) },
    }
}

/// Starts the listing of all cards of `cxt`, in their order.
pub fn run(cxt: &Context) -> (r: Listing)
    ensures
        r@ == ListingView::start(cxt@.bmc),
        r@.wf(),
{
    let bmc = cxt.descriptors();
    assert(records_of(Seq::<XPU>::empty()) =~= Seq::<XPUView>::empty());
    settle(bmc, Vec::new())
}

impl Listing {
    #[verifier::type_invariant]
    spec fn inv(self) -> bool {
        self@.wf()
    }

    /// Whether the listing has come to its end.
    pub fn done(&self) -> (r: bool)
        ensures
            r == self@.done(),
            self@.wf(),
    {
        proof {
            use_type_invariant(self);
        }
        self.failure.is_some() || self.rows.len() >= self.bmc.len()
    }

    /// How the listing ended, once it has.
    pub fn result(&self) -> (r: Option<Result<(), RedfishError>>)
        ensures
            match r {
                Some(Ok(_)) => self@.result() == Some(Ok::<(), RedfishErrorView>(())),
                Some(Err(e)) => self@.result() == Some(Err::<(), RedfishErrorView>(e@)),
                None => self@.result() is None,
            },
            self@.wf(),
    {
        proof {
            use_type_invariant(self);
        }
        match &self.failure {
            Some(e) => Some(Err(e.clone())),
            None => if self.rows.len() >= self.bmc.len() {
                Some(Ok(()))
            } else {
                None
            },
        }
    }

    /// The records of the cards that were listed, in their order.
    pub fn rows(&self) -> (r: &Vec<XPU>)
        ensures
            records_of(r@) == self@.rows,
            self@.wf(),
    {
        proof {
            use_type_invariant(self);
        }
        &self.rows
    }

    /// What is to be sent next: nothing once the listing is done.
    pub fn request(&self) -> (r: Option<Request>)
        ensures
            match r {
                Some(q) => self@.request() == Some(q@),
                None => self@.request() is None,
            },
            r is None <==> self@.done(),
            self@.wf(),
    {
        proof {
            use_type_invariant(self);
        }
        if self.failure.is_some() || self.rows.len() >= self.bmc.len() {
            return None;
        }
        match XPU::probe(&self.bmc[self.rows.len()]) {
            Ok(q) => Some(q),
            Err(_) => None,
        }
    }

    /// Takes the reply to `request`.
    pub fn step(self, reply: Reply) -> (r: Listing)
        ensures
            r@ == self@.step(reply@),
            r@.wf(),
    {
        proof {
            use_type_invariant(&self);
            lemma_step_wf(self@, reply@);
        }
        let ghost before = self@;
        let Listing { bmc, rows, failure } = self;
        if failure.is_some() || rows.len() >= bmc.len() {
            return Listing { bmc, rows, failure };
        }
        let made = XPU::new(&bmc[rows.len()], reply);
        match made {
            Ok(x) => {
                let mut rows = rows;
                rows.push(x);
                assert(records_of(rows@) =~= before.rows.push(x@));
                settle(bmc, rows)
            },
            Err(e) => Listing { bmc, rows, failure: Some(e) },
        }
    }
}

} // verus!
