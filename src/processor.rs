use crate::map::{Chain, MapStage};
use std::marker::PhantomData;
use vstd::prelude::*;

verus! {

/// A typed transformation stage.
///
/// A stage is modelled by two spec functions: `snapshot`, the carry-state it
/// holds, and `outcome`, what `process` returns for each input. `valid` is the
/// stage's own well-formedness.
pub trait Processor: Sized {
    type Input;
    type Output;
    type Error;
    type State;

    spec fn valid(&self) -> bool;

    spec fn snapshot(&self) -> Self::State;

    spec fn outcome(&self, input: Self::Input) -> Result<Self::Output, Self::Error>;

    fn state(&self) -> (r: Self::State)
        requires
            self.valid(),
        ensures
            r == self.snapshot(),
    ;

    /// Restores a carry-state. Restoring the state the stage already holds
    /// leaves the outcome of every input as it was.
    fn set_state(&mut self, state: Self::State)
        requires
            old(self).valid(),
        ensures
            final(self).valid(),
            final(self).snapshot() == state,
            state == old(self).snapshot() ==> forall|x: Self::Input|
                #[trigger] final(self).outcome(x) == old(self).outcome(x),
    ;

    fn process(&self, input: Self::Input) -> (r: Result<Self::Output, Self::Error>)
        requires
            self.valid(),
        ensures
            r == self.outcome(input),
    ;

    /// Chains the stage `f` after this one. The pair is itself a stage when
    /// this stage's output converts into `f`'s input and its error into `f`'s
    /// error (`From`); `crate::map::chain` composes stages whose types agree.
    fn pipe<F>(self, f: F) -> (r: MapStage<Self, F>)
        ensures
            r.inner == self,
            r.outer == f,
    {
        MapStage { inner: self, outer: f }
    }

    /// Chains the plain function `f` after this stage: `f` takes this stage's
    /// output as it is, and an error of this stage passes through untouched
    /// (see `lemma_map_outcome` for what the result computes).
    fn map<F: Fn(Self::Output) -> O, O>(self, f: F) -> (r: Chain<
        Self,
        FnContainer<F, Self::Output, O, Self::Error>,
    >)
        requires
            total_and_deterministic(f),
        ensures
            r.inner == self,
            r.outer.func() == f,
            r.outer.model() == (|i: Self::Output| applied(f, i)),
    {
        let outer = FnContainer {
            f,
            model: Ghost(|i: Self::Output| applied(f, i)),
            i: PhantomData,
            o: PhantomData,
            e: PhantomData,
        };
        Chain { inner: self, outer }
    }
}

/// `f` accepts every input and gives one output for each.
pub open spec fn total_and_deterministic<F: Fn(I) -> O, I, O>(f: F) -> bool {
    &&& forall|i: I| #[trigger] call_requires(f, (i,))
    &&& forall|i: I, a: O, b: O|
        call_ensures(f, (i,), a) && call_ensures(f, (i,), b) ==> a == b
}

/// The output that the deterministic function `f` gives for `i`.
pub open spec fn applied<F: Fn(I) -> O, I, O>(f: F, i: I) -> O {
    choose|o: O| call_ensures(f, (i,), o)
}

/// Under `total_and_deterministic(f)`, every output of `f` is `applied(f, i)`.
pub proof fn lemma_applied_is_the_output<F: Fn(I) -> O, I, O>(f: F)
    requires
        total_and_deterministic(f),
    ensures
        forall|i: I, o: O| #[trigger] call_ensures(f, (i,), o) ==> o == applied(f, i),
{
    assert forall|i: I, o: O| #[trigger] call_ensures(f, (i,), o) implies o == applied(f, i) by {
        assert(call_ensures(f, (i,), applied(f, i)));
    }
}

/// A plain function lifted into a stage that never fails and carries no
/// state. It holds the function alone; input, output and error are types only,
/// and `model`, the function from inputs to outputs that it computes, is ghost.
#[verifier::reject_recursive_types(I)]
pub struct FnContainer<F, I, O, E> {
    f: F,
    model: Ghost<spec_fn(I) -> O>,
    i: PhantomData<I>,
    o: PhantomData<O>,
    e: PhantomData<E>,
}

impl<F, I, O, E> FnContainer<F, I, O, E> {
    /// The lifted function.
    pub closed spec fn func(&self) -> F {
        self.f
    }

    /// The outputs that the lifted function gives, as a spec function.
    pub closed spec fn model(&self) -> spec_fn(I) -> O {
        self.model@
    }
}

impl<F: Fn(I) -> O, I, O, E> FnContainer<F, I, O, E> {
    /// Lifts `f`. Its outputs are known as `applied(f, _)`, which names no
    /// concrete value; a verified caller that knows them as a spec function
    /// lifts `f` with `lifted` instead.
    pub fn new(f: F) -> (r: FnContainer<F, I, O, E>)
        ensures
            r.func() == f,
            total_and_deterministic(f) ==> r.valid(),
            forall|x: I| #[trigger] r.outcome(x) == Ok::<O, E>(applied(f, x)),
    {
        proof {
            if total_and_deterministic(f) {
                lemma_applied_is_the_output(f);
            }
        }
        FnContainer {
            f,
            model: Ghost(|i: I| applied(f, i)),
            i: PhantomData,
            o: PhantomData,
            e: PhantomData,
        }
    }

    /// Lifts `f`, whose outputs are those of the spec function `g`.
    pub fn lifted(f: F, g: Ghost<spec_fn(I) -> O>) -> (r: FnContainer<F, I, O, E>)
        requires
            forall|i: I| #[trigger] call_requires(f, (i,)),
            forall|i: I, o: O| #[trigger] call_ensures(f, (i,), o) ==> o == g@(i),
        ensures
            r.func() == f,
            r.valid(),
            forall|x: I| #[trigger] r.outcome(x) == Ok::<O, E>(g@(x)),
    {
        FnContainer { f, model: g, i: PhantomData, o: PhantomData, e: PhantomData }
    }
}

impl<F: Fn(I) -> O, I, O, E> Processor for FnContainer<F, I, O, E> {
    type Input = I;
    type Output = O;
    type Error = E;
    type State = ();

    open spec fn valid(&self) -> bool {
        &&& forall|i: I| #[trigger] call_requires(self.func(), (i,))
        &&& forall|i: I, o: O| #[trigger]
            call_ensures(self.func(), (i,), o) ==> o == (self.model())(i)
    }

    open spec fn snapshot(&self) -> () {
        ()
    }

    open spec fn outcome(&self, input: I) -> Result<O, E> {
        Ok((self.model())(input))
    }

    fn state(&self) -> (r: ()) {
    }

    fn set_state(&mut self, state: ()) {
    }

    fn process(&self, input: I) -> (r: Result<O, E>) {
        proof {
            assert(call_requires(self.func(), (input,)));
        }
        Ok((self.f)(input))
    }
}

/// The outcomes of `p` on each input of `inputs`, in order.
pub open spec fn outcomes<P: Processor>(p: P, inputs: Seq<P::Input>) -> Seq<
    Result<P::Output, P::Error>,
> {
    inputs.map_values(|x: P::Input| p.outcome(x))
}

/// Takes a snapshot of `p`'s state and restores it at once: whatever sequence
/// of inputs is processed afterwards gives the same outputs as before.
pub fn restore_own_state<P: Processor>(p: &mut P)
    requires
        old(p).valid(),
    ensures
        final(p).valid(),
        final(p).snapshot() == old(p).snapshot(),
        forall|inputs: Seq<P::Input>| #[trigger]
            outcomes(*final(p), inputs) == outcomes(*old(p), inputs),
{
    let s = p.state();
    p.set_state(s);
    assert forall|inputs: Seq<P::Input>| #[trigger]
        outcomes(*p, inputs) == outcomes(*old(p), inputs) by {
        assert(outcomes(*p, inputs) =~= outcomes(*old(p), inputs));
    }
}

} // verus!
