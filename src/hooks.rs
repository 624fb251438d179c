//! Bookkeeping of installed interceptions: which entry points are hooked,
//! by what, with which path back to the original, and whether active.
use vstd::prelude::*;

verus! {

/// An interception could not be installed.
#[derive(Debug, Clone, Copy, PartialEq, Eq, Structural)]
pub struct HookInstallFailure;

/// One interception: `target` is redirected to `replacement`, and
/// `trampoline` still runs the original behaviour.
#[derive(Debug, Clone, Copy, PartialEq, Eq, Structural)]
pub struct HookDescriptor {
    pub target: usize,
    pub replacement: usize,
    pub trampoline: usize,
    pub enabled: bool,
}

/// The interceptions installed so far, in order of installation.
pub struct HookRegistry {
    pub hooks: Vec<HookDescriptor>,
}

/// Some interception already redirects `target`.
pub open spec fn is_hooked(hooks: Seq<HookDescriptor>, target: usize) -> bool {
    exists|i: int| 0 <= i < hooks.len() && (#[trigger] hooks[i]).target == target
}

impl HookRegistry {
    /// At most one interception per target.
    pub open spec fn wf(&self) -> bool {
        forall|i: int, j: int|
            0 <= i < self.hooks@.len() && 0 <= j < self.hooks@.len() && i != j ==> (#[trigger] self.hooks@[i]).target
                != (#[trigger] self.hooks@[j]).target
    }

    /// An empty registry.
    pub fn new() -> (r: HookRegistry)
        ensures
            r.wf(),
            r.hooks@.len() == 0,
    {
        HookRegistry { hooks: Vec::new() }
    }

    /// Whether `target` may be intercepted: not null and not hooked yet.
    pub fn check_install(&self, target: usize) -> (r: Result<(), HookInstallFailure>)
        ensures
            r is Ok <==> (target != 0 && !is_hooked(self.hooks@, target)),
    {
        if target == 0 {
            return Err(HookInstallFailure);
        }
        let mut i: usize = 0;
        while i < self.hooks.len()
            invariant
                i <= self.hooks@.len(),
                forall|j: int| 0 <= j < i ==> (#[trigger] self.hooks@[j]).target != target,
            decreases self.hooks@.len() - i,
        {
            if self.hooks[i].target == target {
                return Err(HookInstallFailure);
            }
            i = i + 1;
        }
        Ok(())
    }

    /// Records an interception of `target` made by the hooking engine, still
    /// inactive; a null or already hooked target is refused and nothing
    /// changes.
    pub fn record_install(&mut self, target: usize, replacement: usize, trampoline: usize) -> (r: Result<(), HookInstallFailure>)
        requires
            old(self).wf(),
        ensures
            final(self).wf(),
            r is Ok <==> (target != 0 && !is_hooked(old(self).hooks@, target)),
            r is Ok ==> final(self).hooks@ == old(self).hooks@.push(
                HookDescriptor { target, replacement, trampoline, enabled: false },
            ),
            r is Err ==> final(self).hooks@ == old(self).hooks@,
    {
        self.check_install(target)?;
        self.hooks.push(HookDescriptor { target, replacement, trampoline, enabled: false });
        proof {
            assert forall|i: int, j: int|
                0 <= i < self.hooks@.len() && 0 <= j < self.hooks@.len() && i != j implies (#[trigger] self.hooks@[i]).target
                    != (#[trigger] self.hooks@[j]).target by {
                if i < old(self).hooks@.len() && j < old(self).hooks@.len() {
                    assert(old(self).hooks@[i] == self.hooks@[i]);
                    assert(old(self).hooks@[j] == self.hooks@[j]);
                } else if i < old(self).hooks@.len() {
                    assert(old(self).hooks@[i] == self.hooks@[i]);
                } else {
                    assert(old(self).hooks@[j] == self.hooks@[j]);
                }
            }
        }
        Ok(())
    }

    /// Marks every recorded interception active.
    pub fn enable_all(&mut self)
        requires
            old(self).wf(),
        ensures
            final(self).wf(),
            final(self).hooks@.len() == old(self).hooks@.len(),
            forall|i: int|
                0 <= i < final(self).hooks@.len() ==> #[trigger] final(self).hooks@[i] == (HookDescriptor {
                    enabled: true,
                    ..old(self).hooks@[i]
                }),
    {
        let mut i: usize = 0;
        while i < self.hooks.len()
            invariant
                i <= self.hooks@.len(),
                self.hooks@.len() == old(self).hooks@.len(),
                forall|j: int|
                    0 <= j < self.hooks@.len() ==> #[trigger] self.hooks@[j] == (if j < i {
                        HookDescriptor { enabled: true, ..old(self).hooks@[j] }
                    } else {
                        old(self).hooks@[j]
                    }),
            decreases self.hooks@.len() - i,
        {
            let h = self.hooks[i];
            self.hooks.set(i, HookDescriptor { enabled: true, ..h });
            i = i + 1;
        }
        proof {
            assert forall|a: int, b: int|
                0 <= a < self.hooks@.len() && 0 <= b < self.hooks@.len() && a != b implies (#[trigger] self.hooks@[a]).target
                    != (#[trigger] self.hooks@[b]).target by {
                assert(self.hooks@[a].target == old(self).hooks@[a].target);
                assert(self.hooks@[b].target == old(self).hooks@[b].target);
            }
        }
    }

    /// The path to the original behaviour of an intercepted `target`.
    pub fn trampoline_for(&self, target: usize) -> (r: Option<usize>)
        ensures
            match r {
                Some(t) => exists|i: int|
                    0 <= i < self.hooks@.len() && (#[trigger] self.hooks@[i]).target == target
                        && self.hooks@[i].trampoline == t,
                None => !is_hooked(self.hooks@, target),
            },
    {
        let mut i: usize = 0;
        while i < self.hooks.len()
            invariant
                i <= self.hooks@.len(),
                forall|j: int| 0 <= j < i ==> (#[trigger] self.hooks@[j]).target != target,
            decreases self.hooks@.len() - i,
        {
            if self.hooks[i].target == target {
                return Some(self.hooks[i].trampoline);
            }
            i = i + 1;
        }
        None
    }
}

} // verus!
