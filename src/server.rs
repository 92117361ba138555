use vstd::prelude::*;

verus! {

/// The address that the HTTP service listens on.
pub struct Server<'a> {
    addr: &'a str,
}

impl<'a> Server<'a> {
    pub fn new(addr: &'a str) -> (r: Self)
        ensures
            r.addr()@ == addr@,
    {
        Self { addr }
    }

    pub closed spec fn spec_addr(&self) -> &'a str {
        self.addr
    }

    /// The address given at construction.
    #[verifier::when_used_as_spec(spec_addr)]
    pub fn addr(&self) -> (r: &'a str)
        ensures
            r == self.spec_addr(),
    {
        self.addr
    }
}

} // verus!
