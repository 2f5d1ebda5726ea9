//! Skipping protocol detection for some targets.

use vstd::prelude::*;

verus! {

/// Says for which targets detection is skipped.
pub trait SkipTarget<T> {
    fn skip_target(&self, target: &T) -> bool;
}

/// Accepts targets with `tcp` if `skip` says so, and with `detect` otherwise.
#[derive(Debug)]
pub struct SkipDetect<S, D, F> {
    pub skip: S,
    pub detect: D,
    pub tcp: F,
}

/// What accepts a target, or a connection.
#[derive(Debug)]
pub enum Accept<D, F> {
    Detect(D),
    Tcp(F),
}

impl<S, D, F> SkipDetect<S, D, F> {
    pub fn new(skip: S, detect: D, tcp: F) -> (made: Self)
        ensures
            made == (SkipDetect { skip, detect, tcp }),
    {
        SkipDetect { skip, detect, tcp }
    }
}

/// Whether `accept` is a clone of `tcp` if detection is skipped, and of `detect` otherwise.
pub open spec fn chosen<S, D: Clone, F: Clone>(
    by: SkipDetect<S, D, F>,
    skip: bool,
    accept: Accept<D, F>,
) -> bool {
    match accept {
        Accept::Detect(detect) => !skip && cloned(by.detect, detect),
        Accept::Tcp(tcp) => skip && cloned(by.tcp, tcp),
    }
}

impl<S, D: Clone, F: Clone> SkipDetect<S, D, F> {
    /// What accepts a target for which detection is skipped or not.
    pub fn choose_accept(&self, skip: bool) -> (accept: Accept<D, F>)
        ensures
            chosen(*self, skip, accept),
    {
        if skip {
            Accept::Tcp(self.tcp.clone())
        } else {
            Accept::Detect(self.detect.clone())
        }
    }

    /// What accepts `target`.
    pub fn call<T>(&self, target: &T) -> (accept: Accept<D, F>) where S: SkipTarget<T>
        ensures
            exists|skip: bool|
                call_ensures(S::skip_target, (&self.skip, target), skip) && chosen(
                    *self,
                    skip,
                    accept,
                ),
    {
        let skip = self.skip.skip_target(target);
        self.choose_accept(skip)
    }
}

impl<A, B> Accept<A, B> {
    /// What was accepted, of which `result` is the outcome of accepting.
    pub fn accepted<X>(result: Accept<Result<A, X>, Result<B, X>>) -> (accepted: Result<Self, X>)
        ensures
            accepted == match result {
                Accept::Detect(Ok(detected)) => Ok(Accept::Detect(detected)),
                Accept::Tcp(Ok(tcp)) => Ok(Accept::Tcp(tcp)),
                Accept::Detect(Err(error)) => Err(error),
                Accept::Tcp(Err(error)) => Err::<Self, X>(error),
            },
    {
        match result {
            Accept::Detect(Ok(detected)) => Ok(Accept::Detect(detected)),
            Accept::Tcp(Ok(tcp)) => Ok(Accept::Tcp(tcp)),
            Accept::Detect(Err(error)) => Err(error),
            Accept::Tcp(Err(error)) => Err(error),
        }
    }
}

} // verus!
