//! The store: the current snapshot behind a reader-writer lock.

use crate::config::Config;
use crate::config::ConfigView;
use vstd::prelude::*;
use vstd::rwlock::RwLock;

verus! {

/// Holds the current configuration behind a reader-writer lock.
///
/// Any number of readers may take a copy of the snapshot at once. The
/// snapshot is replaced as a whole, through an exclusive borrow, so no
/// reader ever sees parts of two snapshots.
pub struct ConfigLock {
    conf: RwLock<Config, spec_fn(Config) -> bool>,
    held: Ghost<ConfigView>,
}

impl ConfigLock {
    /// The lock only ever guards values that equal the snapshot in effect.
    #[verifier::type_invariant]
    spec fn well_formed(self) -> bool {
        forall|c: Config| #[trigger] self.conf.inv(c) <==> c@ == self.held@
    }

    /// The snapshot in effect.
    pub closed spec fn view(&self) -> ConfigView {
        self.held@
    }

    /// Creates a store whose snapshot is `conf`.
    pub fn new(conf: Config) -> (store: ConfigLock)
        ensures
            store@ == conf@,
    {
        let ghost held = conf@;
        let ghost pred: spec_fn(Config) -> bool = |c: Config| c@ == held;
        ConfigLock { conf: RwLock::new(conf, Ghost(pred)), held: Ghost(held) }
    }

    /// Returns a copy of the snapshot in effect. The copy is the
    /// caller's own: a later `update` does not reach it.
    pub fn current(&self) -> (conf: Config)
        ensures
            conf@ == self@,
    {
        proof {
            use_type_invariant(self);
        }
        let handle = self.conf.acquire_read();
        let conf = handle.borrow().clone();
        handle.release_read();
        conf
    }

    /// Replaces the snapshot in effect by `new_conf`, as a whole.
    pub fn update(&mut self, new_conf: Config)
        ensures
            final(self)@ == new_conf@,
    {
        let mut store = ConfigLock::new(new_conf);
        std::mem::swap(self, &mut store);
        // `store` is now the superseded one: no reader can hold it any
        // more, so its snapshot is taken out and dropped.
        let _superseded = store.conf.into_inner();
    }
}

} // verus!
