//! The window multiplexer: the single owner of all live windows. It routes
//! platform events to the window they target, advances every window's
//! `update` step once per idle tick, removes windows that report `Dead`
//! after the whole pass (never mid-iteration), and adopts child windows
//! under the id-uniqueness rule.

use vstd::prelude::*;
use crate::events::{EventResponse, SurfaceErrorKind, WindowEventKind};
use crate::geometry::Size;
use crate::window::{ChildWindow, DrawingWindow, WindowLifeStatus};

verus! {

/// One live entry of the multiplexer: a window id and the window's state.
pub type WindowEntry = (u64, DrawingWindow);

/// The multiplexer's one unrecoverable error: a bug in window-id
/// generation, not a runtime condition to recover from. The caller is
/// expected to abort the process on it.
#[derive(Copy, Clone, Debug, PartialEq, Eq, Structural)]
pub enum MultiplexerError {
    /// A newly adopted window's id collides with a live window's id.
    IdCollision,
}

/// Whether some entry of `s` carries the id `id`.
pub open spec fn has_id(s: Seq<WindowEntry>, id: u64) -> bool {
    exists|i: int| 0 <= i < s.len() && s[i].0 == id
}

/// Whether the entries of `s` carry pairwise distinct ids.
pub open spec fn ids_unique(s: Seq<WindowEntry>) -> bool {
    forall|i: int, j: int| 0 <= i < j < s.len() ==> s[i].0 != s[j].0
}

/// The live set after one tick's pass: every window takes its `update`
/// step, and exactly those with a pending close intent leave, in order.
pub open spec fn survivors(s: Seq<WindowEntry>) -> Seq<WindowEntry>
    decreases s.len(),
{
    if s.len() == 0 {
        Seq::empty()
    } else {
        let rest = survivors(s.drop_last());
        if s.last().1.close {
            rest
        } else {
            rest.push((s.last().0, s.last().1.spec_update().0))
        }
    }
}

/// The surface reconfigurations one tick's pass asks for: one per window
/// with a pending, non-degenerate resize, in order.
pub open spec fn spec_reconfigs(s: Seq<WindowEntry>) -> Seq<(u64, Size)>
    decreases s.len(),
{
    if s.len() == 0 {
        Seq::empty()
    } else {
        let rest = spec_reconfigs(s.drop_last());
        if s.last().1.spec_update().2 is Some {
            rest.push((s.last().0, s.last().1.spec_update().2->Some_0))
        } else {
            rest
        }
    }
}

/// The ids of the windows one tick's pass retires, in order.
pub open spec fn spec_dead_ids(s: Seq<WindowEntry>) -> Seq<u64>
    decreases s.len(),
{
    if s.len() == 0 {
        Seq::empty()
    } else {
        let rest = spec_dead_ids(s.drop_last());
        if s.last().1.close {
            rest.push(s.last().0)
        } else {
            rest
        }
    }
}

/// The live set after adopting the buffered children in order, or nothing
/// if some child's id collides with a then-live entry.
pub open spec fn spec_adopt_all(s: Seq<WindowEntry>, cs: Seq<ChildWindow>) -> Option<
    Seq<WindowEntry>,
>
    decreases cs.len(),
{
    if cs.len() == 0 {
        Some(s)
    } else if has_id(s, cs[0].id) {
        None
    } else {
        spec_adopt_all(s.push((cs[0].id, cs[0].window)), cs.subrange(1, cs.len() as int))
    }
}

/// An id survives the tick's pass exactly when some entry carries it and
/// does not retire in that pass.
pub proof fn lemma_survivor_has_id(s: Seq<WindowEntry>, id: u64)
    ensures
        has_id(survivors(s), id) <==> exists|j: int|
            0 <= j < s.len() && s[j].0 == id && !s[j].1.close,
    decreases s.len(),
{
    if s.len() == 0 {
    } else {
        lemma_survivor_has_id(s.drop_last(), id);
        if exists|j: int| 0 <= j < s.len() && s[j].0 == id && !s[j].1.close {
            let j = choose|j: int| 0 <= j < s.len() && s[j].0 == id && !s[j].1.close;
            if j < s.len() - 1 {
                assert(s.drop_last()[j].0 == id && !s.drop_last()[j].1.close);
                let k = choose|k: int| 0 <= k < survivors(s.drop_last()).len() && survivors(
                    s.drop_last(),
                )[k].0 == id;
                assert(survivors(s)[k].0 == id);
            } else {
                assert(!s.last().1.close);
                assert(survivors(s).last().0 == id);
            }
        }
        if has_id(survivors(s), id) {
            let k = choose|k: int| 0 <= k < survivors(s).len() && survivors(s)[k].0 == id;
            if s.last().1.close {
                assert(survivors(s.drop_last())[k].0 == id);
                let j = choose|j: int|
                    0 <= j < s.drop_last().len() && s.drop_last()[j].0 == id
                        && !s.drop_last()[j].1.close;
                assert(s[j].0 == id && !s[j].1.close);
            } else {
                if k < survivors(s).len() - 1 {
                    assert(survivors(s.drop_last())[k].0 == id);
                    let j = choose|j: int|
                        0 <= j < s.drop_last().len() && s.drop_last()[j].0 == id
                            && !s.drop_last()[j].1.close;
                    assert(s[j].0 == id && !s[j].1.close);
                } else {
                    assert(s[s.len() - 1].0 == id && !s[s.len() - 1].1.close);
                }
            }
        }
    }
}

/// The tick's pass keeps ids pairwise distinct.
pub proof fn lemma_survivors_unique(s: Seq<WindowEntry>)
    requires
        ids_unique(s),
    ensures
        ids_unique(survivors(s)),
    decreases s.len(),
{
    if s.len() == 0 {
    } else {
        assert(ids_unique(s.drop_last())) by {
            assert(forall|i: int, j: int|
                0 <= i < j < s.drop_last().len() ==> s.drop_last()[i].0 != s.drop_last()[j].0);
        }
        lemma_survivors_unique(s.drop_last());
        if !s.last().1.close {
            lemma_survivor_has_id(s.drop_last(), s.last().0);
            assert(!has_id(survivors(s.drop_last()), s.last().0)) by {
                if has_id(survivors(s.drop_last()), s.last().0) {
                    let j = choose|j: int|
                        0 <= j < s.drop_last().len() && s.drop_last()[j].0 == s.last().0
                            && !s.drop_last()[j].1.close;
                    assert(s[j].0 == s[s.len() - 1].0);
                }
            }
            let r = survivors(s);
            assert forall|i: int, j: int| 0 <= i < j < r.len() implies r[i].0 != r[j].0 by {
                if j < r.len() - 1 {
                    assert(survivors(s.drop_last())[i].0 != survivors(s.drop_last())[j].0);
                } else {
                    assert(0 <= i < survivors(s.drop_last()).len() && survivors(s.drop_last())[i].0
                        == r[i].0);
                }
            }
        }
    }
}

/// Id hand-off across one tick: a retiring window's id is free once the
/// pass is over, so a child reusing it can be adopted; the id of a live,
/// non-retiring window is still taken, so such an adoption still collides.
pub proof fn lemma_id_handoff(s: Seq<WindowEntry>, id: u64, k: int)
    requires
        ids_unique(s),
        0 <= k < s.len(),
        s[k].0 == id,
    ensures
        s[k].1.close ==> !has_id(survivors(s), id),
        !s[k].1.close ==> has_id(survivors(s), id),
{
    lemma_survivor_has_id(s, id);
    if s[k].1.close {
        if exists|j: int| 0 <= j < s.len() && s[j].0 == id && !s[j].1.close {
            let j = choose|j: int| 0 <= j < s.len() && s[j].0 == id && !s[j].1.close;
            assert(j != k);
            assert(s[j].0 != s[k].0 || false) by {
                if j < k {
                    assert(s[j].0 != s[k].0);
                } else {
                    assert(s[k].0 != s[j].0);
                }
            }
        }
    }
}

/// With a single live window, a close event followed by one tick leaves
/// the live set empty; the multiplexer's owner then ends the process with
/// exit status 0.
pub proof fn lemma_close_then_tick_exits(id: u64, w: DrawingWindow)
    ensures
        survivors(
            seq![(id, w.spec_handle_event(WindowEventKind::CloseRequested).0)],
        ).len() == 0,
{
    let s = seq![(id, w.spec_handle_event(WindowEventKind::CloseRequested).0)];
    assert(s.last().1.close);
    assert(survivors(s.drop_last()).len() == 0) by {
        assert(s.drop_last().len() == 0);
    }
}

/// The top-level owner of the dynamic set of live windows, keyed by
/// window id. Its one invariant: the ids are pairwise distinct.
pub struct Multiplexer {
    windows: Vec<WindowEntry>,
}

/// What one idle tick asks of the multiplexer's owner: the surface
/// reconfigurations to perform, the ids whose platform windows can be torn
/// down, and whether the live set is now empty (the signal to exit with
/// status 0).
#[derive(Clone, Debug, PartialEq, Eq)]
pub struct TickOutcome {
    pub reconfigures: Vec<(u64, Size)>,
    pub removed: Vec<u64>,
    pub should_exit: bool,
}

impl View for Multiplexer {
    type V = Seq<WindowEntry>;

    closed spec fn view(&self) -> Seq<WindowEntry> {
        self.windows@
    }
}

impl Multiplexer {
    /// The id-uniqueness invariant every operation preserves.
    pub open spec fn wf(&self) -> bool {
        ids_unique(self@)
    }

    /// An empty live set.
    pub fn new() -> (m: Multiplexer)
        ensures
            m@ == Seq::<WindowEntry>::empty(),
            m.wf(),
    {
        Multiplexer { windows: Vec::new() }
    }

    /// How many windows are live.
    pub fn len(&self) -> (n: usize)
        ensures
            n == self@.len(),
    {
        self.windows.len()
    }

    /// Whether the live set is empty: the process-exit condition.
    pub fn is_empty(&self) -> (r: bool)
        ensures
            r <==> self@.len() == 0,
    {
        self.windows.len() == 0
    }

    /// Whether a live window carries `id`.
    pub fn contains(&self, id: u64) -> (r: bool)
        ensures
            r == has_id(self@, id),
    {
        let n = self.windows.len();
        let mut i: usize = 0;
        while i < n
            invariant
                i <= n,
                n == self@.len(),
                forall|j: int| 0 <= j < i ==> self@[j].0 != id,
            decreases n - i,
        {
            if self.windows[i].0 == id {
                return true;
            }
            i += 1;
        }
        false
    }

    /// The state of the live window carrying `id`, if any.
    pub fn get(&self, id: u64) -> (r: Option<DrawingWindow>)
        ensures
            r is Some <==> has_id(self@, id),
            r matches Some(w) ==> exists|i: int|
                0 <= i < self@.len() && self@[i].0 == id && self@[i].1 == w,
    {
        let n = self.windows.len();
        let mut i: usize = 0;
        while i < n
            invariant
                i <= n,
                n == self@.len(),
                forall|j: int| 0 <= j < i ==> self@[j].0 != id,
            decreases n - i,
        {
            if self.windows[i].0 == id {
                return Some(self.windows[i].1);
            }
            i += 1;
        }
        None
    }

    /// Adopts one window. Succeeds exactly when no live window carries the
    /// id; a collision is the fatal configuration error, and leaves the
    /// live set unchanged.
    pub fn adopt(&mut self, id: u64, window: DrawingWindow) -> (r: Result<(), MultiplexerError>)
        requires
            old(self).wf(),
        ensures
            final(self).wf(),
            r is Ok <==> !has_id(old(self)@, id),
            r is Ok ==> final(self)@ == old(self)@.push((id, window)),
            r is Err ==> final(self)@ == old(self)@ && r == Result::<
                (),
                MultiplexerError,
            >::Err(MultiplexerError::IdCollision),
    {
        if self.contains(id) {
            return Err(MultiplexerError::IdCollision);
        }
        proof {
            let s = self@.push((id, window));
            assert forall|i: int, j: int| 0 <= i < j < s.len() implies s[i].0 != s[j].0 by {
                if j == s.len() - 1 {
                    assert(self@[i].0 != id);
                }
            }
        }
        self.windows.push((id, window));
        Ok(())
    }

    /// Adopts the children buffered during one tick, in order, stopping at
    /// the first id collision. Succeeds exactly when the whole batch is
    /// collision-free.
    pub fn adopt_children(&mut self, children: &Vec<ChildWindow>) -> (r: Result<
        (),
        MultiplexerError,
    >)
        requires
            old(self).wf(),
        ensures
            final(self).wf(),
            r is Ok <==> spec_adopt_all(old(self)@, children@) is Some,
            r is Ok ==> Some(final(self)@) == spec_adopt_all(old(self)@, children@),
            r is Err ==> r == Result::<(), MultiplexerError>::Err(MultiplexerError::IdCollision),
    {
        let ghost orig = self@;
        let n = children.len();
        proof {
            assert(children@.subrange(0, n as int) =~= children@);
        }
        let mut i: usize = 0;
        while i < n
            invariant
                i <= n,
                n == children@.len(),
                orig == old(self)@,
                self.wf(),
                spec_adopt_all(orig, children@) == spec_adopt_all(
                    self@,
                    children@.subrange(i as int, n as int),
                ),
            decreases n - i,
        {
            let c = children[i];
            let ghost pre = self@;
            let ghost rest = children@.subrange(i as int, n as int);
            let step = self.adopt(c.id, c.window);
            proof {
                assert(rest.len() > 0);
                assert(rest[0] == children@[i as int]);
                assert(c.id == rest[0].id && c.window == rest[0].window);
                assert(rest.subrange(1, rest.len() as int) =~= children@.subrange(
                    i as int + 1,
                    n as int,
                ));
            }
            if step.is_err() {
                proof {
                    assert(has_id(pre, c.id));
                    assert(spec_adopt_all(pre, rest) is None);
                }
                return Err(MultiplexerError::IdCollision);
            }
            proof {
                assert(!has_id(pre, c.id));
                assert(spec_adopt_all(pre, rest) == spec_adopt_all(
                    pre.push((c.id, c.window)),
                    rest.subrange(1, rest.len() as int),
                ));
            }
            i += 1;
        }
        proof {
            assert(children@.subrange(n as int, n as int).len() == 0);
            assert(spec_adopt_all(self@, children@.subrange(n as int, n as int)) == Some(self@));
        }
        Ok(())
    }

    /// Routes one platform event to the window carrying `id`. An unknown id
    /// is a non-fatal no-op reported as `None`, for the caller to log.
    pub fn route_event(&mut self, id: u64, event: WindowEventKind) -> (r: Option<EventResponse>)
        requires
            old(self).wf(),
        ensures
            final(self).wf(),
            r is None <==> !has_id(old(self)@, id),
            r is None ==> final(self)@ == old(self)@,
            r matches Some(resp) ==> exists|i: int|
                0 <= i < old(self)@.len() && old(self)@[i].0 == id && final(self)@ == old(
                    self,
                )@.update(i, (id, old(self)@[i].1.spec_handle_event(event).0)) && resp == old(
                    self,
                )@[i].1.spec_handle_event(event).1,
    {
        let ghost orig = self@;
        let n = self.windows.len();
        let mut i: usize = 0;
        while i < n
            invariant
                i <= n,
                n == orig.len(),
                orig == old(self)@,
                self@ == orig,
                ids_unique(orig),
                forall|j: int| 0 <= j < i ==> orig[j].0 != id,
            decreases n - i,
        {
            if self.windows[i].0 == id {
                let pair = self.windows[i];
                let mut w = pair.1;
                let resp = w.event_handler(event);
                self.windows[i] = (pair.0, w);
                proof {
                    assert(orig[i as int].0 == id);
                    assert(has_id(orig, id));
                    let updated = orig.update(i as int, (id, orig[i as int].1.spec_handle_event(event).0));
                    assert(self@ =~= updated);
                    assert forall|a: int, b: int| 0 <= a < b < updated.len() implies updated[a].0
                        != updated[b].0 by {
                        assert(orig[a].0 != orig[b].0);
                    }
                }
                return Some(resp);
            }
            i += 1;
        }
        None
    }

    /// Notes the classified outcome of a failed surface-image acquisition
    /// for the window carrying `id`. An unknown id is a no-op reported as
    /// `false`.
    pub fn note_surface_error(&mut self, id: u64, err: SurfaceErrorKind) -> (found: bool)
        requires
            old(self).wf(),
        ensures
            final(self).wf(),
            !found <==> !has_id(old(self)@, id),
            !found ==> final(self)@ == old(self)@,
            found ==> exists|i: int|
                0 <= i < old(self)@.len() && old(self)@[i].0 == id && final(self)@ == old(
                    self,
                )@.update(i, (id, old(self)@[i].1.spec_note_surface_error(err))),
    {
        let ghost orig = self@;
        let n = self.windows.len();
        let mut i: usize = 0;
        while i < n
            invariant
                i <= n,
                n == orig.len(),
                orig == old(self)@,
                self@ == orig,
                ids_unique(orig),
                forall|j: int| 0 <= j < i ==> orig[j].0 != id,
            decreases n - i,
        {
            if self.windows[i].0 == id {
                let pair = self.windows[i];
                let mut w = pair.1;
                w.note_surface_error(err);
                self.windows[i] = (pair.0, w);
                proof {
                    assert(orig[i as int].0 == id);
                    assert(has_id(orig, id));
                    let updated = orig.update(i as int, (id, orig[i as int].1.spec_note_surface_error(err)));
                    assert(self@ =~= updated);
                    assert forall|a: int, b: int| 0 <= a < b < updated.len() implies updated[a].0
                        != updated[b].0 by {
                        assert(orig[a].0 != orig[b].0);
                    }
                }
                return true;
            }
            i += 1;
        }
        false
    }

    /// One idle tick: every live window takes its `update` step exactly
    /// once; the windows that report `Dead` are removed only after the
    /// whole pass, so no window observes a mutating live set mid-iteration.
    /// Returns the reconfigurations to perform, the removed ids, and
    /// whether the live set emptied.
    pub fn tick(&mut self) -> (r: TickOutcome)
        requires
            old(self).wf(),
        ensures
            final(self).wf(),
            final(self)@ == survivors(old(self)@),
            r.reconfigures@ == spec_reconfigs(old(self)@),
            r.removed@ == spec_dead_ids(old(self)@),
            r.should_exit <==> survivors(old(self)@).len() == 0,
    {
        let ghost orig = self@;
        let mut kept: Vec<WindowEntry> = Vec::new();
        let mut reconfigures: Vec<(u64, Size)> = Vec::new();
        let mut removed: Vec<u64> = Vec::new();
        let n = self.windows.len();
        let mut i: usize = 0;
        while i < n
            invariant
                i <= n,
                n == orig.len(),
                orig == old(self)@,
                self@ == orig,
                kept@ == survivors(orig.take(i as int)),
                reconfigures@ == spec_reconfigs(orig.take(i as int)),
                removed@ == spec_dead_ids(orig.take(i as int)),
            decreases n - i,
        {
            let pair = self.windows[i];
            let mut w = pair.1;
            let outcome = w.update();
            match outcome.reconfigure {
                Some(s) => reconfigures.push((pair.0, s)),
                None => (),
            }
            match outcome.status {
                WindowLifeStatus::Dead => removed.push(pair.0),
                WindowLifeStatus::Alive => kept.push((pair.0, w)),
            }
            proof {
                let t = orig.take(i as int + 1);
                assert(t.drop_last() =~= orig.take(i as int));
                assert(t.last() == orig[i as int]);
                assert(survivors(t) == if t.last().1.close {
                    survivors(t.drop_last())
                } else {
                    survivors(t.drop_last()).push((t.last().0, t.last().1.spec_update().0))
                });
                assert(spec_reconfigs(t) == if t.last().1.spec_update().2 is Some {
                    spec_reconfigs(t.drop_last()).push((t.last().0, t.last().1.spec_update().2->Some_0))
                } else {
                    spec_reconfigs(t.drop_last())
                });
                assert(spec_dead_ids(t) == if t.last().1.close {
                    spec_dead_ids(t.drop_last()).push(t.last().0)
                } else {
                    spec_dead_ids(t.drop_last())
                });
            }
            i += 1;
        }
        proof {
            assert(orig.take(n as int) =~= orig);
            lemma_survivors_unique(orig);
        }
        let should_exit = kept.len() == 0;
        self.windows = kept;
        TickOutcome { reconfigures, removed, should_exit }
    }
}

} // verus!
