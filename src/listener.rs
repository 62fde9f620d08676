use vstd::prelude::*;

verus! {

/// Ownership of the filesystem path that a local-socket listener is bound
/// to. The path is handed out for removal once, whichever of an explicit
/// close or the listener's teardown comes first.
pub struct SocketPathGuard {
    path: String,
    owned: bool,
}

impl SocketPathGuard {
    /// The path this guard is for.
    pub closed spec fn spec_path(&self) -> Seq<char> {
        self.path@
    }

    /// The path still waits to be removed.
    pub closed spec fn spec_owned(&self) -> bool {
        self.owned
    }

    /// Takes ownership of a path that a listener has just been bound to.
    pub fn claim(path: &str) -> (r: SocketPathGuard)
        ensures
            r.spec_path() == path@,
            r.spec_owned(),
    {
        SocketPathGuard { path: path.to_owned(), owned: true }
    }

    /// The path this guard is for.
    pub fn path(&self) -> (r: &str)
        ensures
            r@ == self.spec_path(),
    {
        self.path.as_str()
    }

    /// The path to remove, the first time only; `None` afterwards.
    pub fn release(&mut self) -> (r: Option<String>)
        ensures
            r is Some <==> old(self).spec_owned(),
            r is Some ==> r->Some_0@ == old(self).spec_path(),
            !final(self).spec_owned(),
            final(self).spec_path() == old(self).spec_path(),
    {
        if self.owned {
            self.owned = false;
            Some(self.path.clone())
        } else {
            None
        }
    }
}

} // verus!
