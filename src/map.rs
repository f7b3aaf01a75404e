use crate::processor::{applied, total_and_deterministic, FnContainer, Processor};
use vstd::prelude::*;
use vstd::std_specs::convert::FromSpec;

verus! {

/// Two stages run one after the other: `inner` first, then `outer` on its
/// output converted into `outer`'s input type. An error of `inner` is widened
/// into `outer`'s error type. The composite's state is the pair of the two
/// states. Its validity asks both conversions to follow their `from_spec`,
/// which vstd states for integer widenings but not for `From<T> for T`: where
/// the types already agree, `Chain` composes without a conversion.
pub struct MapStage<P, F> {
    pub inner: P,
    pub outer: F,
}

impl<INNER, OUTER> Processor for MapStage<INNER, OUTER> where
    INNER: Processor,
    OUTER: Processor,
    OUTER::Input: From<INNER::Output>,
    OUTER::Error: From<INNER::Error>,
 {
    type Input = INNER::Input;
    type Output = OUTER::Output;
    type Error = OUTER::Error;
    type State = (INNER::State, OUTER::State);

    open spec fn valid(&self) -> bool {
        &&& self.inner.valid()
        &&& self.outer.valid()
        &&& <OUTER::Input as FromSpec<INNER::Output>>::obeys_from_spec()
        &&& <OUTER::Error as FromSpec<INNER::Error>>::obeys_from_spec()
    }

    open spec fn snapshot(&self) -> (INNER::State, OUTER::State) {
        (self.inner.snapshot(), self.outer.snapshot())
    }

    open spec fn outcome(&self, input: INNER::Input) -> Result<OUTER::Output, OUTER::Error> {
        match self.inner.outcome(input) {
            Ok(b) => self.outer.outcome(<OUTER::Input as FromSpec<INNER::Output>>::from_spec(b)),
            Err(e) => Err(<OUTER::Error as FromSpec<INNER::Error>>::from_spec(e)),
        }
    }

    fn state(&self) -> (r: (INNER::State, OUTER::State)) {
        (self.inner.state(), self.outer.state())
    }

    fn set_state(&mut self, state: (INNER::State, OUTER::State)) {
        let (inner, outer) = state;
        self.inner.set_state(inner);
        self.outer.set_state(outer);
    }

    fn process(&self, input: INNER::Input) -> (r: Result<OUTER::Output, OUTER::Error>) {
        match self.inner.process(input) {
            Ok(b) => self.outer.process(<OUTER::Input as From<INNER::Output>>::from(b)),
            Err(e) => Err(<OUTER::Error as From<INNER::Error>>::from(e)),
        }
    }
}

/// Composing `first` then `next` (as `first.pipe(next)` does) and processing
/// `x` gives `next`'s outcome on the output of `first` converted into `next`'s
/// input type when `first` succeeds, and the error of `first` widened into
/// `next`'s error type otherwise, in which case `next` has no part in the
/// result.
pub proof fn lemma_pipe_outcome<P: Processor, F: Processor>(
    composed: MapStage<P, F>,
    first: P,
    next: F,
    x: P::Input,
) where F::Input: From<P::Output>, F::Error: From<P::Error>
    requires
        composed.inner == first,
        composed.outer == next,
    ensures
        composed.outcome(x) == match first.outcome(x) {
            Ok(b) => next.outcome(<F::Input as FromSpec<P::Output>>::from_spec(b)),
            Err(e) => Err(<F::Error as FromSpec<P::Error>>::from_spec(e)),
        },
        first.outcome(x) is Err ==> composed.outcome(x) == Err::<F::Output, F::Error>(
            <F::Error as FromSpec<P::Error>>::from_spec(first.outcome(x)->Err_0),
        ),
        first.valid() && next.valid() && <F::Input as FromSpec<P::Output>>::obeys_from_spec()
            && <F::Error as FromSpec<P::Error>>::obeys_from_spec() ==> composed.valid(),
{
}

/// Two stages run one after the other where no conversion is needed: `outer`
/// takes `inner`'s output as it is and reports the same error type. The
/// composite's state is the pair of the two states.
pub struct Chain<P, Q> {
    pub inner: P,
    pub outer: Q,
}

impl<INNER, OUTER> Processor for Chain<INNER, OUTER> where
    INNER: Processor,
    OUTER: Processor<Input = INNER::Output, Error = INNER::Error>,
 {
    type Input = INNER::Input;
    type Output = OUTER::Output;
    type Error = INNER::Error;
    type State = (INNER::State, OUTER::State);

    open spec fn valid(&self) -> bool {
        self.inner.valid() && self.outer.valid()
    }

    open spec fn snapshot(&self) -> (INNER::State, OUTER::State) {
        (self.inner.snapshot(), self.outer.snapshot())
    }

    open spec fn outcome(&self, input: INNER::Input) -> Result<OUTER::Output, INNER::Error> {
        match self.inner.outcome(input) {
            Ok(b) => self.outer.outcome(b),
            Err(e) => Err(e),
        }
    }

    fn state(&self) -> (r: (INNER::State, OUTER::State)) {
        (self.inner.state(), self.outer.state())
    }

    fn set_state(&mut self, state: (INNER::State, OUTER::State)) {
        let (inner, outer) = state;
        self.inner.set_state(inner);
        self.outer.set_state(outer);
    }

    fn process(&self, input: INNER::Input) -> (r: Result<OUTER::Output, INNER::Error>) {
        match self.inner.process(input) {
            Ok(b) => self.outer.process(b),
            Err(e) => Err(e),
        }
    }
}

/// Chains `next` after `first` where `next` takes `first`'s output as it is
/// and reports the same error type.
pub fn chain<P: Processor, Q: Processor<Input = P::Output, Error = P::Error>>(first: P, next: Q) -> (r:
    Chain<P, Q>)
    ensures
        r.inner == first,
        r.outer == next,
        first.valid() && next.valid() ==> r.valid(),
        forall|x: P::Input| #[trigger] r.outcome(x) == match first.outcome(x) {
            Ok(b) => next.outcome(b),
            Err(e) => Err(e),
        },
{
    Chain { inner: first, outer: next }
}

/// The stage that `first.map(f)` builds (its inner stage `first`, its outer
/// stage `f` lifted with the model `applied(f, _)`) is valid when `first` is
/// and `f` is a pure function, and on each input gives `f` of `first`'s output,
/// or `first`'s error untouched, in which case `f` has no part in the result.
pub proof fn lemma_map_outcome<P: Processor, F: Fn(P::Output) -> O, O>(
    composed: Chain<P, FnContainer<F, P::Output, O, P::Error>>,
    first: P,
    f: F,
)
    requires
        composed.inner == first,
        composed.outer.func() == f,
        composed.outer.model() == (|i: P::Output| applied(f, i)),
    ensures
        first.valid() && total_and_deterministic(f) ==> composed.valid(),
        forall|x: P::Input| #[trigger] composed.outcome(x) == match first.outcome(x) {
            Ok(b) => Ok(applied(f, b)),
            Err(e) => Err(e),
        },
        composed.snapshot() == (first.snapshot(), ()),
{
    if total_and_deterministic(f) {
        crate::processor::lemma_applied_is_the_output(f);
    }
}

} // verus!
