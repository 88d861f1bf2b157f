use vstd::prelude::*;

use crate::event::{Action, Event};

verus! {

/// A registered event handler. `reaction` is the mathematical description of
/// what the module asks for on each event; `handle` computes exactly that.
pub trait Module: Sized {
    /// The module's stable name, as a sequence of characters.
    spec fn spec_name(&self) -> Seq<char>;

    /// The actions this module requests for one event.
    spec fn reaction(&self, e: Event) -> Seq<Action>;

    fn get_name(&self) -> (r: &'static str)
        ensures
            r@ == self.spec_name(),
    ;

    fn handle(&self, e: &Event) -> (r: Vec<Action>)
        ensures
            r@ == self.reaction(*e),
    ;
}

/// The actions a sequence of modules requests for one event: each module's
/// reaction in registration order, earlier modules first.
pub open spec fn dispatch_spec<M: Module>(ms: Seq<M>, e: Event) -> Seq<Action>
    decreases ms.len(),
{
    if ms.len() == 0 {
        Seq::empty()
    } else {
        ms[0].reaction(e) + dispatch_spec(ms.drop_first(), e)
    }
}

/// Holds the ordered collection of modules and broadcasts every event to each
/// of them in registration order.
pub struct Engine<M> {
    modules: Vec<M>,
}

impl<M: Module> View for Engine<M> {
    type V = Seq<M>;

    closed spec fn view(&self) -> Seq<M> {
        self.modules@
    }
}

impl<M: Module> Default for Engine<M> {
    fn default() -> (r: Self)
        ensures
            r@ == Seq::<M>::empty(),
    {
        Engine { modules: Vec::new() }
    }
}

impl<M: Module> Engine<M> {
    /// Appends a module to the ordered registry and returns the engine, so
    /// that registrations chain. The registry is fixed before dispatch starts.
    pub fn register_module(self, module: M) -> (r: Self)
        ensures
            r@ == self@.push(module),
    {
        let mut modules = self.modules;
        modules.push(module);
        Engine { modules }
    }

    /// Broadcasts one event: every registered module observes it, in
    /// registration order, and each module's requested actions are returned
    /// in that same order. A module that requests nothing (or whose actions
    /// later fail at the runtime) does not keep the modules after it from
    /// being consulted: every module's reaction is always collected.
    pub fn handle(&self, e: &Event) -> (r: Vec<Action>)
        ensures
            r@ == dispatch_spec(self@, *e),
    {
        let mut out: Vec<Action> = Vec::new();
        let n = self.modules.len();
        let mut i: usize = 0;
        while i < n
            invariant
                n == self.modules.len(),
                i <= n,
                out@ == dispatch_spec(self@.take(i as int), *e),
            decreases n - i,
        {
            let mut acts = self.modules[i].handle(e);
            out.append(&mut acts);
            proof {
                lemma_dispatch_snoc(self@.take(i as int), self@[i as int], *e);
                assert(self@.take(i as int).push(self@[i as int]) =~= self@.take(
                    i + 1 as int,
                ));
            }
            i = i + 1;
        }
        proof {
            assert(self@.take(n as int) =~= self@);
        }
        out
    }
}

/// Dispatching to `ms` followed by one more module `m` yields the actions for
/// `ms` followed by `m`'s reaction.
proof fn lemma_dispatch_snoc<M: Module>(ms: Seq<M>, m: M, e: Event)
    ensures
        dispatch_spec(ms.push(m), e) == dispatch_spec(ms, e) + m.reaction(e),
    decreases ms.len(),
{
    if ms.len() == 0 {
        assert(ms.push(m)[0] == m);
        assert(ms.push(m).drop_first() =~= Seq::<M>::empty());
        assert(dispatch_spec(Seq::<M>::empty(), e) == Seq::<Action>::empty());
        assert(dispatch_spec(ms, e) == Seq::<Action>::empty());
        assert(dispatch_spec(ms.push(m), e) =~= dispatch_spec(ms, e) + m.reaction(e));
    } else {
        assert(ms.push(m).drop_first() =~= ms.drop_first().push(m));
        lemma_dispatch_snoc(ms.drop_first(), m, e);
        assert(dispatch_spec(ms.push(m), e) =~= dispatch_spec(ms, e) + m.reaction(e));
    }
}

/// Every registered module observes every dispatched event: for each position
/// `k`, the dispatched actions are exactly those of the modules before `k`,
/// then module `k`'s own reaction, then those of the modules after `k`. In
/// particular a module that reacts with nothing, or whose actions the runtime
/// fails to carry out, has no bearing on what the modules after it observe.
pub proof fn lemma_dispatch_in_order<M: Module>(ms: Seq<M>, e: Event, k: int)
    requires
        0 <= k < ms.len(),
    ensures
        dispatch_spec(ms, e) == dispatch_spec(ms.take(k), e) + ms[k].reaction(e) + dispatch_spec(
            ms.skip(k + 1),
            e,
        ),
    decreases k,
{
    if k == 0 {
        assert(ms.take(0) =~= Seq::<M>::empty());
        assert(ms.skip(1) =~= ms.drop_first());
        assert(dispatch_spec(ms.take(0), e) + ms[0].reaction(e) =~= ms[0].reaction(e));
        assert(dispatch_spec(ms, e) =~= ms[0].reaction(e) + dispatch_spec(ms.drop_first(), e));
    } else {
        lemma_dispatch_in_order(ms.drop_first(), e, k - 1);
        assert(ms.drop_first().take(k - 1) =~= ms.take(k).drop_first());
        assert(ms.drop_first().skip(k) =~= ms.skip(k + 1));
        assert(ms.drop_first()[k - 1] == ms[k]);
        assert(dispatch_spec(ms, e) == ms[0].reaction(e) + dispatch_spec(ms.drop_first(), e));
        assert(dispatch_spec(ms.take(k), e) == ms[0].reaction(e) + dispatch_spec(
            ms.take(k).drop_first(),
            e,
        ));
        assert((ms[0].reaction(e) + (dispatch_spec(ms.take(k).drop_first(), e) + ms[k].reaction(e)
            + dispatch_spec(ms.skip(k + 1), e))) =~= (ms[0].reaction(e) + dispatch_spec(
            ms.take(k).drop_first(),
            e,
        ) + ms[k].reaction(e) + dispatch_spec(ms.skip(k + 1), e)));
    }
}

} // verus!
