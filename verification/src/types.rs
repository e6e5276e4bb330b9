use vstd::prelude::*;

verus! {

/// What is configured of one baseboard management controller.
pub struct BMC {
    pub name: String,
    pub vendor: String,
    pub address: String,
    pub username: Option<String>,
    pub password: Option<String>,
}

/// A `BMC` as a mathematical value.
pub struct BMCView {
    pub name: Seq<char>,
    pub vendor: Seq<char>,
    pub address: Seq<char>,
    pub username: Option<Seq<char>>,
    pub password: Option<Seq<char>>,
}

/// The text that an optional string holds, if it holds one.
pub open spec fn text_of(s: Option<String>) -> Option<Seq<char>> {
    match s {
        Some(t) => Some(t@),
        None => None,
    }
}

impl View for BMC {
    type V = BMCView;

    open spec fn view(&self) -> BMCView {
        BMCView {
            name: self.name@,
            vendor: self.vendor@,
            address: self.address@,
            username: text_of(self.username),
            password: text_of(self.password),
        }
    }
}

impl BMCView {
    /// The descriptor with each missing credential taken from the given defaults.
    pub open spec fn inherit(self, username: Seq<char>, password: Seq<char>) -> BMCView {
        BMCView {
            username: Some(
                match self.username {
                    Some(u) => u,
                    None => username,
                },
            ),
            password: Some(
                match self.password {
                    Some(p) => p,
                    None => password,
                },
            ),
            ..self
        }
    }
}

impl Clone for BMC {
    fn clone(&self) -> (r: Self)
        ensures
            r == *self,
    {
        BMC {
            name: self.name.clone(),
            vendor: self.vendor.clone(),
            address: self.address.clone(),
            username: match &self.username {
                Some(u) => Some(u.clone()),
                None => None,
            },
            password: match &self.password {
                Some(p) => Some(p.clone()),
                None => None,
            },
        }
    }
}

/// The service-wide credentials and the controllers to manage, in order.
pub struct Context {
    pub username: String,
    pub password: String,
    pub bmc: Vec<BMC>,
}

/// A `Context` as a mathematical value.
pub struct ContextView {
    pub username: Seq<char>,
    pub password: Seq<char>,
    pub bmc: Seq<BMCView>,
}

/// The descriptors of a list, each as a mathematical value.
pub open spec fn descriptors_of(bmc: Seq<BMC>) -> Seq<BMCView> {
    Seq::new(bmc.len(), |i: int| bmc[i]@)
}

impl View for Context {
    type V = ContextView;

    open spec fn view(&self) -> ContextView {
        ContextView {
            username: self.username@,
            password: self.password@,
            bmc: descriptors_of(self.bmc@),
        }
    }
}

impl ContextView {
    /// The context with every descriptor's missing credentials filled in from
    /// the context's own.
    pub open spec fn merged(self) -> ContextView {
        ContextView {
            bmc: Seq::new(
                self.bmc.len(),
                |i: int| self.bmc[i].inherit(self.username, self.password),
            ),
            ..self
        }
    }
}

impl Context {
    /// A copy of the descriptors, in their order.
    pub fn descriptors(&self) -> (r: Vec<BMC>)
        ensures
            r@ == self.bmc@,
    {
        let mut r: Vec<BMC> = Vec::new();
        let mut i: usize = 0;
        while i < self.bmc.len()
            invariant
                i <= self.bmc@.len(),
                r@ == self.bmc@.take(i as int),
            decreases self.bmc@.len() - i,
        {
            r.push(self.bmc[i].clone());
            assert(r@ =~= self.bmc@.take(i as int + 1));
            i = i + 1;
        }
        assert(self.bmc@.take(self.bmc@.len() as int) =~= self.bmc@);
        r
    }

    /// Fills in the credentials that a descriptor leaves out from the
    /// context's own. Descriptors keep their order and everything else.
    pub fn merge(&mut self)
        ensures
            final(self)@ == old(self)@.merged(),
    {
        let mut i: usize = 0;
        while i < self.bmc.len()
            invariant
                i <= self.bmc@.len(),
                self.bmc@.len() == old(self).bmc@.len(),
                self.username == old(self).username,
                self.password == old(self).password,
                forall|j: int|
                    0 <= j < i ==> self.bmc@[j]@ == (#[trigger] old(self).bmc@[j])@.inherit(
                        old(self).username@,
                        old(self).password@,
                    ),
                forall|j: int| i <= j < self.bmc@.len() ==> self.bmc@[j] == old(self).bmc@[j],
            decreases self.bmc@.len() - i,
        {
            if self.bmc[i].password.is_none() {
                self.bmc[i].password = Some(self.password.clone());
            }
            if self.bmc[i].username.is_none() {
                self.bmc[i].username = Some(self.username.clone());
            }
            i = i + 1;
        }
        assert(self@.bmc =~= old(self)@.merged().bmc);
    }
}

/// After the merge a descriptor that lacked a credential has the context's,
/// and one that had it has kept it; so a descriptor with both is unchanged.
pub proof fn lemma_merge_fills(c: ContextView, i: int)
    requires
        0 <= i < c.bmc.len(),
    ensures
        c.merged().bmc.len() == c.bmc.len(),
        c.bmc[i].username is None ==> c.merged().bmc[i].username == Some(c.username),
        c.bmc[i].password is None ==> c.merged().bmc[i].password == Some(c.password),
        c.bmc[i].username is Some ==> c.merged().bmc[i].username == c.bmc[i].username,
        c.bmc[i].password is Some ==> c.merged().bmc[i].password == c.bmc[i].password,
        c.bmc[i].username is Some && c.bmc[i].password is Some ==> c.merged().bmc[i] == c.bmc[i],
        c.merged().bmc[i].name == c.bmc[i].name,
        c.merged().bmc[i].vendor == c.bmc[i].vendor,
        c.merged().bmc[i].address == c.bmc[i].address,
{
}

/// A merged context has no descriptor without credentials, and a second
/// merge changes nothing, whatever the context's own credentials are then.
pub proof fn lemma_merge_once(c: ContextView, username: Seq<char>, password: Seq<char>)
    ensures
        forall|i: int|
            0 <= i < c.bmc.len() ==> (#[trigger] c.merged().bmc[i]).username is Some
                && c.merged().bmc[i].password is Some,
        (ContextView { username, password, ..c.merged() }).merged().bmc == c.merged().bmc,
{
    assert((ContextView { username, password, ..c.merged() }).merged().bmc =~= c.merged().bmc);
}

} // verus!
