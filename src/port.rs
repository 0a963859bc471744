use vstd::prelude::*;

verus! {

/// An I/O port address.
pub type ID = u16;

/// Number of I/O port addresses.
pub const PORT_COUNT: usize = 0x10000;

/// The claimed ports after an attempt to claim `port`, and whether the
/// attempt succeeded: it fails exactly when `port` is already claimed.
pub open spec fn claim(claimed: Set<ID>, port: ID) -> (Set<ID>, bool) {
    if claimed.contains(port) {
        (claimed, false)
    } else {
        (claimed.insert(port), true)
    }
}

/// The claimed ports after the owner of `port` gave it up.
pub open spec fn release(claimed: Set<ID>, port: ID) -> Set<ID> {
    claimed.remove(port)
}

/// Registry of the I/O ports that have an owner.
pub struct Manager {
    used: Vec<bool>,
}

/// Proof of exclusive ownership of one I/O port. Only the registry makes
/// one, and only for a port that had no owner. The port is given up only by
/// handing the handle to `Manager::release`, not when the handle goes out of
/// scope: a handle that is dropped instead leaves its port claimed.
pub struct Handle {
    port: ID,
}

impl View for Manager {
    type V = Set<ID>;

    /// The claimed ports.
    closed spec fn view(&self) -> Set<ID> {
        Set::new(|p: ID| self.used@[p as int])
    }
}

impl Manager {
    /// One flag per port address.
    pub closed spec fn wf(&self) -> bool {
        self.used@.len() == PORT_COUNT
    }

    /// A registry in which no port is claimed.
    pub fn new() -> (r: Self)
        ensures
            r.wf(),
            r@ == Set::<ID>::empty(),
    {
        let mut used: Vec<bool> = Vec::new();
        let mut i: usize = 0;
        while i < PORT_COUNT
            invariant
                i <= PORT_COUNT,
                used@.len() == i,
                forall|k: int| 0 <= k < i ==> !#[trigger] used@[k],
            decreases PORT_COUNT - i,
        {
            used.push(false);
            i = i + 1;
        }
        let r = Manager { used };
        assert(r@ =~= Set::<ID>::empty());
        r
    }

    /// Claims `port`: a handle for it, or an error when it already has an
    /// owner.
    pub fn try_aquire(&mut self, port: ID) -> (r: Result<Handle, ()>)
        requires
            old(self).wf(),
        ensures
            final(self).wf(),
            (final(self)@, r is Ok) == claim(old(self)@, port),
            r is Ok ==> r->Ok_0.port() == port,
    {
        if self.used[port as usize] {
            Err(())
        } else {
            self.used.set(port as usize, true);
            assert(self@ =~= old(self)@.insert(port));
            Ok(Handle { port })
        }
    }

    /// Gives up the port of `handle`, which may then be claimed again.
    pub fn release(&mut self, handle: Handle)
        requires
            old(self).wf(),
        ensures
            final(self).wf(),
            final(self)@ == release(old(self)@, handle.port()),
    {
        self.used.set(handle.port as usize, false);
        assert(self@ =~= old(self)@.remove(handle.port));
    }
}

impl Handle {
    /// The port that the handle owns.
    pub closed spec fn port(&self) -> ID {
        self.port
    }

    pub fn id(&self) -> (r: ID)
        ensures
            r == self.port(),
    {
        self.port
    }
}

/// A claimed port cannot be claimed a second time, so two handles for one
/// port never exist together; once released, it can be claimed again.
pub proof fn lemma_claim_exclusive(claimed: Set<ID>, port: ID)
    ensures
        claim(claimed, port).0.contains(port),
        !claim(claim(claimed, port).0, port).1,
        claim(release(claim(claimed, port).0, port), port).1,
{
}

} // verus!
