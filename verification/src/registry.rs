use vstd::prelude::*;
use crate::error::Vfs9Error;

verus! {

/// The shared holder state the exclusive-open invariant needs: a file
/// marked for exclusive use may be open under at most one fid at a time,
/// and a single trait instance cannot see the other fids. A server keeps
/// one registry, keyed by `Qid.path`, and consults it under mutual
/// exclusion on every open and clunk of an exclusive file.
pub struct ExclusionRegistry {
    held: Vec<u64>,
}

impl View for ExclusionRegistry {
    type V = Set<u64>;

    /// The set of path identities currently held open.
    closed spec fn view(&self) -> Set<u64> {
        Set::new(|p: u64| self.held@.contains(p))
    }
}

impl ExclusionRegistry {
    /// Each held identity is recorded once.
    pub closed spec fn wf(self) -> bool {
        self.held@.no_duplicates()
    }

    /// A registry with no holder.
    pub fn new() -> (r: ExclusionRegistry)
        ensures
            r.wf(),
            r@ == Set::<u64>::empty(),
    {
        let r = ExclusionRegistry { held: Vec::new() };
        proof {
            assert(r@ =~= Set::<u64>::empty());
        }
        r
    }

    /// Whether some fid currently holds the identity open.
    pub fn is_held(&self, path: u64) -> (held: bool)
        ensures
            held == self@.contains(path),
    {
        let n = self.held.len();
        let mut i: usize = 0;
        while i < n
            invariant
                n == self.held@.len(),
                i <= n,
                forall|j: int| 0 <= j < i ==> self.held@[j] != path,
            decreases n - i,
        {
            if self.held[i] == path {
                return true;
            }
            i += 1;
        }
        proof {
            assert(!self.held@.contains(path));
        }
        false
    }

    /// Law: records a new holder of the identity, or fails with
    /// `ExclusiveConflict`, and with the registry unchanged, exactly when
    /// another holder is already recorded.
    pub fn try_acquire(&mut self, path: u64) -> (r: Result<(), Vfs9Error>)
        requires
            old(self).wf(),
        ensures
            final(self).wf(),
            old(self)@.contains(path) ==> r == Err::<(), Vfs9Error>(Vfs9Error::ExclusiveConflict)
                && final(self)@ == old(self)@,
            !old(self)@.contains(path) ==> r == Ok::<(), Vfs9Error>(())
                && final(self)@ == old(self)@.insert(path),
    {
        if self.is_held(path) {
            return Err(Vfs9Error::ExclusiveConflict);
        }
        self.held.push(path);
        proof {
            let prior = old(self).held@;
            let now = self.held@;
            assert forall|x: u64| now.contains(x) implies prior.contains(x) || x == path by {
                let i = choose|i: int| 0 <= i < now.len() && now[i] == x;
                if i < prior.len() {
                    assert(prior[i] == x);
                }
            }
            assert forall|x: u64| prior.contains(x) implies now.contains(x) by {
                let i = choose|i: int| 0 <= i < prior.len() && prior[i] == x;
                assert(now[i] == x);
            }
            assert(now[prior.len() as int] == path);
            assert(self@ =~= old(self)@.insert(path));
            assert forall|i: int, j: int|
                0 <= i < now.len() && 0 <= j < now.len() && i != j implies now[i] != now[j] by {
                if i < prior.len() && j < prior.len() {
                    assert(prior[i] == now[i] && prior[j] == now[j]);
                } else if i < prior.len() {
                    assert(prior[i] == now[i] && now[j] == path && !prior.contains(path));
                } else if j < prior.len() {
                    assert(prior[j] == now[j] && now[i] == path && !prior.contains(path));
                }
            }
        }
        Ok(())
    }

    /// Law: erases the holder of the identity, if there is one; once it
    /// has run, the identity can be acquired again.
    pub fn release(&mut self, path: u64)
        requires
            old(self).wf(),
        ensures
            final(self).wf(),
            final(self)@ == old(self)@.remove(path),
    {
        let n = self.held.len();
        let mut i: usize = 0;
        while i < n
            invariant
                old(self).wf(),
                self.held@ == old(self).held@,
                n == self.held@.len(),
                i <= n,
                forall|j: int| 0 <= j < i ==> self.held@[j] != path,
            decreases n - i,
        {
            if self.held[i] == path {
                let prior = Ghost(self.held@);
                self.held.remove(i);
                proof {
                    lemma_seq_erase_one(prior@, self.held@, i as int, path);
                    assert(self@ =~= old(self)@.remove(path));
                }
                return;
            }
            i += 1;
        }
        proof {
            assert(!self.held@.contains(path));
            assert(self@ =~= old(self)@.remove(path));
        }
    }
}

/// After erasing the one position of a duplicate-free sequence that holds
/// `path`, the sequence still has no duplicates, no longer contains
/// `path`, and contains everything else it contained before.
proof fn lemma_seq_erase_one(prior: Seq<u64>, now: Seq<u64>, i: int, path: u64)
    requires
        prior.no_duplicates(),
        0 <= i < prior.len(),
        prior[i] == path,
        now == prior.remove(i),
    ensures
        now.no_duplicates(),
        !now.contains(path),
        forall|x: u64| x != path && prior.contains(x) ==> now.contains(x),
        forall|x: u64| now.contains(x) ==> prior.contains(x) && x != path,
{
    assert(forall|k: int| 0 <= k < i ==> now[k] == prior[k]);
    assert(forall|k: int| i <= k < now.len() ==> now[k] == prior[k + 1]);
    assert forall|x: u64| now.contains(x) implies prior.contains(x) && x != path by {
        let k = choose|k: int| 0 <= k < now.len() && now[k] == x;
        if k < i {
            assert(prior[k] == x);
            assert(k != i && prior[i] == path);
        } else {
            assert(prior[k + 1] == x);
            assert(k + 1 != i && prior[i] == path);
        }
    }
    assert forall|x: u64| x != path && prior.contains(x) implies now.contains(x) by {
        let k = choose|k: int| 0 <= k < prior.len() && prior[k] == x;
        if k < i {
            assert(now[k] == x);
        } else {
            assert(k != i);
            assert(now[k - 1] == x);
        }
    }
    assert forall|a: int, b: int|
        0 <= a < now.len() && 0 <= b < now.len() && a != b implies now[a] != now[b] by {
        let pa: int = if a < i { a } else { a + 1 };
        let pb: int = if b < i { b } else { b + 1 };
        assert(now[a] == prior[pa] && now[b] == prior[pb] && pa != pb);
    }
}

} // verus!
