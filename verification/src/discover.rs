use crate::redfish::rest::{Reply, ReplyView, Request, RequestView};
use crate::redfish::xpu::{
    discover, discovery_of, DiscoverState, DiscoverStateView, Discovery, DiscoveryView,
};
use crate::types::{descriptors_of, BMCView, Context, BMC};
use vstd::prelude::*;

verus! {

/// The status of a controller that was brought to take its credentials.
pub const OK: &'static str = "Ok";

/// What is reported of one controller.
#[derive(Debug, PartialEq, Eq)]
pub struct Row {
    pub name: String,
    pub address: String,
    /// `Ok`, or the text of the error that ended the onboarding.
    pub status: String,
}

/// A `Row` as a mathematical value.
pub struct RowView {
    pub name: Seq<char>,
    pub address: Seq<char>,
    pub status: Seq<char>,
}

impl View for Row {
    type V = RowView;

    open spec fn view(&self) -> RowView {
        RowView { name: self.name@, address: self.address@, status: self.status@ }
    }
}

/// The rows of a list, each as a mathematical value.
pub open spec fn rows_of(rows: Seq<Row>) -> Seq<RowView> {
    Seq::new(rows.len(), |i: int| rows[i]@)
}

/// The onboarding of all controllers of a context, one after the other.
pub struct Sweep {
    bmc: Vec<BMC>,
    rows: Vec<Row>,
    current: Option<Discovery>,
}

/// A `Sweep` as a mathematical value.
pub struct SweepView {
    /// The controllers, in the order of the context.
    pub bmc: Seq<BMCView>,
    /// The rows of the controllers that are done with.
    pub rows: Seq<RowView>,
    /// The onboarding that a reply is awaited for, if there is one.
    pub current: Option<DiscoveryView>,
}

impl View for Sweep {
    type V = SweepView;

    closed spec fn view(&self) -> SweepView {
        SweepView {
            bmc: descriptors_of(self.bmc@),
            rows: rows_of(self.rows@),
            current: match self.current {
                Some(d) => Some(d@),
                None => None,
            },
        }
    }
}

/// Whether the rows are those of the first controllers, in order: each
/// under the name and address of its controller.
pub open spec fn aligned(rows: Seq<RowView>, bmc: Seq<BMCView>) -> bool {
    &&& rows.len() <= bmc.len()
    &&& forall|i: int|
        0 <= i < rows.len() ==> (#[trigger] rows[i]).name == bmc[i].name && rows[i].address
            == bmc[i].address
}

/// How a finished onboarding is reported.
pub open spec fn status_of(state: DiscoverStateView) -> Seq<char> {
    match state {
        DiscoverStateView::Failed(e) => e.message(),
        _ => OK@,
    }
}

impl SweepView {
    /// Whether every controller is done with.
    pub open spec fn done(self) -> bool {
        self.current is None
    }

    /// What is to be sent next: nothing once the sweep is done.
    pub open spec fn request(self) -> Option<RequestView> {
        match self.current {
            Some(d) => d.request(),
            None => None,
        }
    }

    /// The sweep with the controller in turn reported as `status`.
    pub open spec fn close(self, status: Seq<char>) -> SweepView {
        let bmc = self.bmc[self.rows.len() as int];
        SweepView {
            rows: self.rows.push(RowView { name: bmc.name, address: bmc.address, status }),
            current: None,
            ..self
        }
    }

    /// Moves on to the first controller, from the one in turn, whose
    /// onboarding can start. One that cannot is reported with the reason
    /// and passed over.
    pub open spec fn settle(self) -> SweepView
        decreases self.bmc.len() - self.rows.len(),
    {
        if self.rows.len() >= self.bmc.len() {
            SweepView { current: None, ..self }
        } else {
            match discovery_of(self.bmc[self.rows.len() as int]) {
                Ok(d) => SweepView { current: Some(d), ..self },
                Err(e) => self.close(e.message()).settle(),
            }
        }
    }

    /// The sweep over `bmc` before anything was sent.
    pub open spec fn start(bmc: Seq<BMCView>) -> SweepView {
        SweepView { bmc, rows: Seq::empty(), current: None }.settle()
    }

    /// The sweep after the reply to `request`. An onboarding that comes to
    /// its end, well or badly, is reported, and the sweep moves on.
    pub open spec fn step(self, reply: ReplyView) -> SweepView {
        match self.current {
            None => self,
            Some(d) => {
                let d = d.step(reply);
                if d.done() {
                    self.close(status_of(d.state)).settle()
                } else {
                    SweepView { current: Some(d), ..self }
                }
            },
        }
    }

    /// What holds of every sweep: the rows are those of the first
    /// controllers, in order; while one is in turn its onboarding is that
    /// controller's and not at its end; when none is, all have their row.
    pub open spec fn wf(self) -> bool {
        &&& aligned(self.rows, self.bmc)
        &&& match self.current {
            None => self.rows.len() == self.bmc.len(),
            Some(d) => {
                &&& self.rows.len() < self.bmc.len()
                &&& !d.done()
                &&& discovery_of(self.bmc[self.rows.len() as int]) matches Ok(d0)
                &&& d.target == d0.target
                &&& d.fallback == d0.fallback
                &&& d.password == d0.password
            },
        }
    }
}

/// Moving on keeps what holds of every sweep, and the rows that were there.
pub proof fn lemma_settle_wf(s: SweepView)
    requires
        aligned(s.rows, s.bmc),
    ensures
        s.settle().wf(),
        s.settle().bmc == s.bmc,
        s.settle().rows.len() >= s.rows.len(),
        s.settle().rows.take(s.rows.len() as int) == s.rows,
    decreases s.bmc.len() - s.rows.len(),
{
    let n = s.rows.len() as int;
    if s.rows.len() < s.bmc.len() {
        match discovery_of(s.bmc[n]) {
            Ok(d) => {
                assert(s.settle().rows.take(n) =~= s.rows);
            },
            Err(e) => {
                let c = s.close(e.message());
                lemma_settle_wf(c);
                assert(c.settle().rows.take(n) =~= c.settle().rows.take(n + 1).take(n));
                assert(c.rows.take(n) =~= s.rows);
            },
        }
    } else {
        assert(s.settle().rows.take(n) =~= s.rows);
    }
}

/// A sweep starts as every sweep is.
pub proof fn lemma_start_wf(bmc: Seq<BMCView>)
    ensures
        SweepView::start(bmc).wf(),
        SweepView::start(bmc).bmc == bmc,
{
    lemma_settle_wf(SweepView { bmc, rows: Seq::empty(), current: None });
}

/// A reply leaves a sweep as every sweep is: the controllers are the same,
/// and the rows that were there stay.
pub proof fn lemma_step_wf(s: SweepView, reply: ReplyView)
    requires
        s.wf(),
    ensures
        s.step(reply).wf(),
        s.step(reply).bmc == s.bmc,
        s.step(reply).rows.len() >= s.rows.len(),
        s.step(reply).rows.take(s.rows.len() as int) == s.rows,
{
    let n = s.rows.len() as int;
    match s.current {
        None => {
            assert(s.rows.take(n) =~= s.rows);
        },
        Some(d) => {
            let d = d.step(reply);
            if d.done() {
                let c = s.close(status_of(d.state));
                lemma_settle_wf(c);
                assert(c.settle().rows.take(n) =~= c.settle().rows.take(n + 1).take(n));
                assert(c.rows.take(n) =~= s.rows);
            } else {
                assert(s.rows.take(n) =~= s.rows);
            }
        },
    }
}

/// One failure stops nothing: when the sweep is done, every controller has
/// its row, in the order of the context, under its own name and address.
pub proof fn lemma_done_all_rows(s: SweepView)
    requires
        s.wf(),
        s.done(),
    ensures
        s.rows.len() == s.bmc.len(),
        aligned(s.rows, s.bmc),
{
}

/// How many replies an onboarding can still take.
pub open spec fn replies_left(state: DiscoverStateView) -> nat {
    match state {
        DiscoverStateView::Probing => 3,
        DiscoverStateView::Resetting => 2,
        DiscoverStateView::Verifying => 1,
        DiscoverStateView::Ready => 0,
        DiscoverStateView::Failed(_) => 0,
    }
}

/// A reply brings a row, or brings the onboarding in turn nearer to its end.
pub proof fn lemma_step_progress(s: SweepView, reply: ReplyView)
    requires
        s.wf(),
        !s.done(),
    ensures
        s.step(reply).rows.len() > s.rows.len() || (s.step(reply).current is Some && replies_left(
            s.step(reply).current->0.state,
        ) < replies_left(s.current->0.state)),
{
    let d = s.current->0.step(reply);
    if d.done() {
        lemma_settle_wf(s.close(status_of(d.state)));
    }
}

/// No controller takes more than three replies: after three, a sweep that
/// was not done has a row more.
pub proof fn lemma_three_replies(s: SweepView, r1: ReplyView, r2: ReplyView, r3: ReplyView)
    requires
        s.wf(),
        !s.done(),
    ensures
        s.step(r1).step(r2).step(r3).rows.len() > s.rows.len(),
{
    let s1 = s.step(r1);
    let s2 = s1.step(r2);
    lemma_step_wf(s, r1);
    lemma_step_wf(s1, r2);
    lemma_step_wf(s2, r3);
    lemma_step_progress(s, r1);
    if !s1.done() {
        lemma_step_progress(s1, r2);
        if !s2.done() {
            lemma_step_progress(s2, r3);
        }
    }
}

/// A controller that fails has its error in its own row and in no other,
/// and the sweep turns to the next: where that one's onboarding can start,
/// its probe is what is sent next.
pub proof fn lemma_failure_goes_on(s: SweepView, reply: ReplyView)
    requires
        s.wf(),
        s.current is Some,
        s.current->0.step(reply).state is Failed,
    ensures
        ({
            let n = s.rows.len() as int;
            let e = s.current->0.step(reply).state->Failed_0;
            let after = s.step(reply);
            &&& after.rows.len() > n
            &&& after.rows.take(n) == s.rows
            &&& after.rows[n] == (RowView {
                name: s.bmc[n].name,
                address: s.bmc[n].address,
                status: e.message(),
            })
            &&& n + 1 < s.bmc.len() && discovery_of(s.bmc[n + 1]) is Ok ==> after.rows.len() == n
                + 1 && after.current == Some(discovery_of(s.bmc[n + 1])->Ok_0)
        }),
{
    let n = s.rows.len() as int;
    let e = s.current->0.step(reply).state->Failed_0;
    let c = s.close(e.message());
    lemma_step_wf(s, reply);
    lemma_settle_wf(c);
    assert(c.settle().rows.take(n + 1)[n] == c.rows[n]);
}

/// The sweep over `bmc` with the rows `done`, moved on to the first
/// controller whose onboarding can start.
#[verifier::loop_isolation(false)]
fn settle(bmc: Vec<BMC>, done: Vec<Row>) -> (r: Sweep)
    requires
        aligned(rows_of(done@), descriptors_of(bmc@)),
    ensures
        r@ == (SweepView {
            bmc: descriptors_of(bmc@),
            rows: rows_of(done@),
            current: None,
        }).settle(),
{
    let ghost goal = (SweepView {
        bmc: descriptors_of(bmc@),
        rows: rows_of(done@),
        current: None,
    }).settle();
    let mut rows = done;
    loop
        invariant
            aligned(rows_of(rows@), descriptors_of(bmc@)),
            goal == (SweepView {
                bmc: descriptors_of(bmc@),
                rows: rows_of(rows@),
                current: None,
            }).settle(),
        decreases bmc@.len() - rows@.len(),
    {
        let ghost here = SweepView {
            bmc: descriptors_of(bmc@),
            rows: rows_of(rows@),
            current: None,
        };
        proof {
            lemma_settle_wf(here);
        }
        if rows.len() >= bmc.len() {
            return Sweep { bmc, rows, current: None };
        }
        let started = discover(&bmc[rows.len()]);
        match started {
            Ok(d) => {
                return Sweep { bmc, rows, current: Some(d) };
            },
            Err(e) => {
                let row = Row {
                    name: bmc[rows.len()].name.clone(),
                    address: bmc[rows.len()].address.clone(),
                    status: e.to_string(),
                };
                rows.push(row);
                assert(rows_of(rows@) =~= here.close(e@.message()).rows);
            },
        }
    }
}

/// Starts the onboarding of all controllers of `cxt`, in their order.
pub fn run(cxt: &Context) -> (r: Sweep)
    ensures
        r@ == SweepView::start(cxt@.bmc),
        r@.wf(),
{
    proof {
        lemma_start_wf(cxt@.bmc);
    }
    let bmc = cxt.descriptors();
    assert(rows_of(Seq::<Row>::empty()) =~= Seq::<RowView>::empty());
    settle(bmc, Vec::new())
}

impl Sweep {
    #[verifier::type_invariant]
    spec fn inv(self) -> bool {
        self@.wf()
    }

    /// Whether every controller is done with.
    pub fn done(&self) -> (r: bool)
        ensures
            r == self@.done(),
            self@.wf(),
    {
        proof {
            use_type_invariant(self);
        }
        self.current.is_none()
    }

    /// The rows of the controllers that are done with, in their order.
    pub fn rows(&self) -> (r: &Vec<Row>)
        ensures
            rows_of(r@) == self@.rows,
            self@.wf(),
    {
        proof {
            use_type_invariant(self);
        }
        &self.rows
    }

    /// What is to be sent next: nothing once the sweep is done.
    pub fn request(&self) -> (r: Option<Request>)
        ensures
            match r {
                Some(q) => self@.request() == Some(q@),
                None => self@.request() is None,
            },
            r is None <==> self@.done(),
            self@.wf(),
    {
        proof {
            use_type_invariant(self);
        }
        match &self.current {
            Some(d) => d.request(),
            None => None,
        }
    }

    /// Takes the reply to `request`.
    pub fn step(self, reply: Reply) -> (r: Sweep)
        ensures
            r@ == self@.step(reply@),
            r@.wf(),
    {
        proof {
            use_type_invariant(&self);
            lemma_step_wf(self@, reply@);
        }
        let ghost before = self@;
        let Sweep { bmc, rows, current } = self;
        let d = match current {
            Some(d) => d.step(reply),
            None => {
                return Sweep { bmc, rows, current: None };
            },
        };
        let status = match d.state() {
            DiscoverState::Ready => String::from_str(OK),
            DiscoverState::Failed(e) => e.to_string(),
            _ => {
                return Sweep { bmc, rows, current: Some(d) };
            },
        };
        let row = Row {
            name: bmc[rows.len()].name.clone(),
            address: bmc[rows.len()].address.clone(),
            status,
        };
        let mut rows = rows;
        rows.push(row);
        assert(rows_of(rows@) =~= before.close(status_of(d@.state)).rows);
        settle(bmc, rows)
    }
}

} // verus!
