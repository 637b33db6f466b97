use vstd::prelude::*;

verus! {

/// Why a pool could not be built.
#[derive(Clone, Copy, Debug, PartialEq, Eq, Structural)]
pub enum PoolError {
    /// The pool was asked for with `num_clients == 0`: a configuration error.
    NoClients,
    /// Setup did not deliver one handle per client: a setup error.
    SetupIncomplete,
}

/// A fixed set of request-issuing handles, shared by the attempts and handed
/// out round-robin. The set is never empty and never resized.
#[derive(Debug)]
pub struct ClientPool<H> {
    handles: Vec<H>,
}

impl<H> View for ClientPool<H> {
    type V = Seq<H>;

    /// The handles, in the order in which setup delivered them.
    closed spec fn view(&self) -> Seq<H> {
        self.handles@
    }
}

impl<H> ClientPool<H> {
    #[verifier::type_invariant]
    spec fn holds_a_handle(self) -> bool {
        self.handles@.len() > 0
    }

    /// Builds the pool from the handles that setup delivered, one per client
    /// and in the order of the calls.
    pub fn new(num_clients: usize, handles: Vec<H>) -> (made: Result<ClientPool<H>, PoolError>)
        ensures
            num_clients == 0 ==> made is Err && made->Err_0 == PoolError::NoClients,
            num_clients != 0 && handles@.len() != num_clients ==> made is Err && made->Err_0
                == PoolError::SetupIncomplete,
            num_clients != 0 && handles@.len() == num_clients ==> made is Ok && made->Ok_0@
                == handles@,
    {
        if num_clients == 0 {
            Err(PoolError::NoClients)
        } else if handles.len() != num_clients {
            Err(PoolError::SetupIncomplete)
        } else {
            Ok(ClientPool { handles })
        }
    }

    /// Number of handles in the pool: at least one.
    pub fn size(&self) -> (n: usize)
        ensures
            n == self@.len(),
            n > 0,
    {
        proof {
            use_type_invariant(self);
        }
        self.handles.len()
    }

    /// The handle for the attempt numbered `index`: the one at position
    /// `index mod size`. The handle is shared, not checked out.
    pub fn acquire(&self, index: usize) -> (handle: &H)
        ensures
            self@.len() > 0,
            *handle == self@[index as int % self@.len() as int],
    {
        proof {
            use_type_invariant(self);
        }
        &self.handles[index % self.handles.len()]
    }

    /// Ends the pool and hands every handle back, once each and in pool
    /// order, for teardown.
    pub fn release_all(self) -> (handles: Vec<H>)
        ensures
            handles@ == self@,
            handles@.len() > 0,
    {
        proof {
            use_type_invariant(&self);
        }
        self.handles
    }
}

} // verus!
