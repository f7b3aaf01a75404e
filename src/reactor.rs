use crate::broker::Broker;
use crate::error::RunError;
use crate::map::{lemma_map_outcome, Chain, MapStage};
use crate::processor::{
    applied, total_and_deterministic, FnContainer, Processor,
};
use vstd::prelude::*;

verus! {

/// A pipeline ready to run: one source, one stage, one broker. A run consumes
/// it.
pub struct Reactor<S, P, B> {
    source: S,
    processor: P,
    broker: B,
}

impl Reactor<(), (), ()> {
    pub fn builder() -> (r: ReactorBuilder<(), (), ()>)
        ensures
            r.parts() == ((), (), ()),
    {
        ReactorBuilder::<(), (), ()>::new()
    }
}

impl<S, P: Processor, B: Broker<P::Input>> Reactor<S, P, B> {
    /// The source, the stage and the broker.
    pub closed spec fn parts(&self) -> (S, P, B) {
        (self.source, self.processor, self.broker)
    }

    pub fn new(source: S, processor: P, broker: B) -> (r: Reactor<S, P, B>)
        ensures
            r.parts() == (source, processor, broker),
    {
        Reactor { source, processor, broker }
    }

    /// Hands out the source, the stage and the broker, for a run.
    pub fn into_parts(self) -> (r: (S, P, B))
        ensures
            r == self.parts(),
    {
        (self.source, self.processor, self.broker)
    }
}

/// Assembles a [`Reactor`] one part at a time; `()` marks a part not yet set.
pub struct ReactorBuilder<SO, P, B> {
    source: SO,
    processor: P,
    broker: B,
}

impl<SO, P, B> ReactorBuilder<SO, P, B> {
    /// The source, the stage and the broker set so far.
    pub closed spec fn parts(&self) -> (SO, P, B) {
        (self.source, self.processor, self.broker)
    }
}

impl ReactorBuilder<(), (), ()> {
    pub fn new() -> (r: ReactorBuilder<(), (), ()>)
        ensures
            r.parts() == ((), (), ()),
    {
        ReactorBuilder { source: (), processor: (), broker: () }
    }
}

impl<S, P: Processor, B: Broker<P::Input>> ReactorBuilder<S, P, B> {
    pub fn build(self) -> (r: Reactor<S, P, B>)
        ensures
            r.parts() == self.parts(),
    {
        Reactor::new(self.source, self.processor, self.broker)
    }
}

impl<S, P: Processor, B> ReactorBuilder<S, P, B> {
    /// Appends the stage `processor` after the stages set so far; the output of
    /// those is converted into its input, and their errors widened into its
    /// error type.
    pub fn pipe<F: Processor>(self, processor: F) -> (r: ReactorBuilder<S, MapStage<P, F>, B>) where
        F::Input: From<P::Output>,
        F::Error: From<P::Error>,
        ensures
            r.parts() == (
                self.parts().0,
                MapStage { inner: self.parts().1, outer: processor },
                self.parts().2,
            ),
    {
        ReactorBuilder {
            processor: self.processor.pipe(processor),
            source: self.source,
            broker: self.broker,
        }
    }

    /// Appends the plain function `f` after the stages set so far: it takes
    /// their output as it is, and their errors pass through untouched.
    pub fn map<F: Fn(P::Output) -> O, O>(self, f: F) -> (r: ReactorBuilder<
        S,
        Chain<P, FnContainer<F, P::Output, O, P::Error>>,
        B,
    >)
        requires
            total_and_deterministic(f),
        ensures
            r.parts().0 == self.parts().0,
            r.parts().1.inner == self.parts().1,
            r.parts().1.outer.func() == f,
            self.parts().1.valid() ==> r.parts().1.valid(),
            forall|x: P::Input| #[trigger] r.parts().1.outcome(x) == match self.parts().1.outcome(x) {
                Ok(b) => Ok(applied(f, b)),
                Err(e) => Err(e),
            },
            r.parts().2 == self.parts().2,
    {
        let processor = self.processor.map(f);
        proof {
            lemma_map_outcome(processor, self.processor, f);
        }
        ReactorBuilder { processor, source: self.source, broker: self.broker }
    }
}

impl<S, B> ReactorBuilder<S, (), B> {
    /// Sets `processor` as the first stage.
    pub fn pipe<F: Processor>(self, processor: F) -> (r: ReactorBuilder<S, F, B>)
        ensures
            r.parts() == (self.parts().0, processor, self.parts().2),
    {
        ReactorBuilder { processor, source: self.source, broker: self.broker }
    }

    /// Sets the plain function `f` as the first stage.
    pub fn map<F: Fn(I) -> O, I, O, E>(self, f: F) -> (r: ReactorBuilder<
        S,
        FnContainer<F, I, O, E>,
        B,
    >)
        requires
            total_and_deterministic(f),
        ensures
            r.parts().0 == self.parts().0,
            r.parts().1.func() == f,
            r.parts().1.valid(),
            forall|x: I| #[trigger] r.parts().1.outcome(x) == Ok::<O, E>(applied(f, x)),
            r.parts().2 == self.parts().2,
    {
        ReactorBuilder { processor: FnContainer::new(f), source: self.source, broker: self.broker }
    }
}

impl<S, P, B> ReactorBuilder<S, P, B> {
    pub fn with_broker<B2>(self, broker: B2) -> (r: ReactorBuilder<S, P, B2>)
        ensures
            r.parts() == (self.parts().0, self.parts().1, broker),
    {
        ReactorBuilder { broker, source: self.source, processor: self.processor }
    }

    /// Takes the source out, leaving its place unset.
    pub fn split_source(self) -> (r: (S, ReactorBuilder<(), P, B>))
        ensures
            r.0 == self.parts().0,
            r.1.parts() == ((), self.parts().1, self.parts().2),
    {
        (self.source, ReactorBuilder { source: (), processor: self.processor, broker: self.broker })
    }

    pub fn with_source<S2>(self, source: S2) -> (r: ReactorBuilder<S2, P, B>)
        ensures
            r.parts() == (source, self.parts().1, self.parts().2),
    {
        ReactorBuilder { source, processor: self.processor, broker: self.broker }
    }
}

} // verus!
