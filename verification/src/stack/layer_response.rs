//! A middleware that applies a layer to the inner service's response.

use crate::poll::Poll;
use vstd::prelude::*;

verus! {

/// Layers over services such that an `L`-typed layer is applied to their responses.
#[derive(Debug)]
pub struct LayerResponseLayer<L>(pub L);

/// Applies `L`-typed layers to the responses of an `S`-typed service, or to what an `S`-typed
/// future gives.
#[derive(Debug)]
pub struct LayerResponse<L, S> {
    pub inner: S,
    pub layer: L,
}

impl<L> LayerResponseLayer<L> {
    pub fn new(layer: L) -> (made: LayerResponseLayer<L>)
        ensures
            made.0 == layer,
    {
        LayerResponseLayer(layer)
    }
}

/// Whether `made` applies the layer of `by` to the responses of `inner`.
pub open spec fn layers<L: Clone, S>(
    by: LayerResponseLayer<L>,
    inner: S,
    made: LayerResponse<L, S>,
) -> bool {
    made.inner == inner && cloned(by.0, made.layer)
}

/// Whether `pair` is the layer of `by`, and `made`, which it is applied to.
pub open spec fn wraps<L: Clone, S, T>(by: LayerResponse<L, S>, made: T, pair: (L, T)) -> bool {
    cloned(by.layer, pair.0) && pair.1 == made
}

impl<L: Clone> LayerResponseLayer<L> {
    /// Applies the layer to the responses of `inner`.
    pub fn layer<S>(&self, inner: S) -> (made: LayerResponse<L, S>)
        ensures
            layers(*self, inner, made),
    {
        LayerResponse { inner, layer: self.0.clone() }
    }
}

impl<L: Clone, S> LayerResponse<L, S> {
    /// The layer to apply and what it is applied to: `made`, the service that the inner one
    /// made for a target.
    pub fn new_service<T>(&self, made: T) -> (pair: (L, T))
        ensures
            cloned(self.layer, pair.0),
            pair.1 == made,
            wraps(*self, made, pair),
    {
        (self.layer.clone(), made)
    }

    /// Applies the layer to the response that `future` gives.
    pub fn call<F>(&self, future: F) -> (made: LayerResponse<L, F>)
        ensures
            made.inner == future,
            cloned(self.layer, made.layer),
    {
        LayerResponse { inner: future, layer: self.layer.clone() }
    }

    /// The layer to apply and the response to apply it to, of which `polled` is the outcome of
    /// polling the future.
    pub fn poll<T, X>(&self, polled: Poll<Result<T, X>>) -> (made: Poll<Result<(L, T), X>>)
        ensures
            match polled {
                Poll::Pending => made is Pending,
                Poll::Ready(Err(error)) => made == Poll::Ready(Err::<(L, T), X>(error)),
                Poll::Ready(Ok(inner)) => made matches Poll::Ready(Ok(pair)) && wraps(
                    *self,
                    inner,
                    pair,
                ),
            },
    {
        match polled {
            Poll::Pending => Poll::Pending,
            Poll::Ready(Err(error)) => Poll::Ready(Err(error)),
            Poll::Ready(Ok(inner)) => Poll::Ready(Ok((self.layer.clone(), inner))),
        }
    }
}

/// A layer wraps what the inner service makes, and not the inner service: the layer that is
/// applied is `layer`, through clones, and what it is applied to is what `inner` made.
pub proof fn law_layer_wraps_what_is_made<L: Clone, S, T>(
    layer: L,
    inner: S,
    stack: LayerResponse<L, S>,
    made: T,
    pair: (L, T),
)
    requires
        layers(LayerResponseLayer(layer), inner, stack),
        wraps(stack, made, pair),
    ensures
        stack.inner == inner,
        pair.1 == made,
        exists|between: L| #[trigger] cloned(layer, between) && cloned(between, pair.0),
        (forall|a: L, b: L| #[trigger] cloned(a, b) ==> a == b) ==> pair == (layer, made),
{
    assert(cloned(layer, stack.layer));
}

/// The layer is applied to the response once there is one, and an error is the outcome.
pub proof fn law_layer_wraps_the_response<L: Clone, S, F, T, X>(
    stack: LayerResponse<L, S>,
    future: F,
    waiting: LayerResponse<L, F>,
    polled: Poll<Result<T, X>>,
    made: Poll<Result<(L, T), X>>,
)
    requires
        call_ensures(LayerResponse::<L, S>::call::<F>, (&stack, future), waiting),
        call_ensures(LayerResponse::<L, F>::poll::<T, X>, (&waiting, polled), made),
    ensures
        waiting.inner == future,
        cloned(stack.layer, waiting.layer),
        made is Pending <==> polled is Pending,
        made matches Poll::Ready(Ok((layer, response))) ==> cloned(waiting.layer, layer) && polled
            == Poll::Ready(Ok::<T, X>(response)),
        made matches Poll::Ready(Err(error)) ==> polled == Poll::Ready(Err::<T, X>(error)),
{
}

/// A layer is applied to the responses of the service that it is put over, and to the services
/// that this makes.
pub proof fn law_layer_is_put_over<L: Clone, S, T>(
    layer: L,
    by: LayerResponseLayer<L>,
    inner: S,
    stack: LayerResponse<L, S>,
    made: T,
    pair: (L, T),
)
    requires
        call_ensures(LayerResponseLayer::<L>::new, (layer,), by),
        call_ensures(LayerResponseLayer::<L>::layer::<S>, (&by, inner), stack),
        call_ensures(LayerResponse::<L, S>::new_service::<T>, (&stack, made), pair),
    ensures
        stack.inner == inner,
        cloned(layer, stack.layer),
        cloned(stack.layer, pair.0),
        pair.1 == made,
{
}

} // verus!
