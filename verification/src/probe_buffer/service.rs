//! The service in front of a buffer.

use super::error::Closed;
use crate::poll::Poll;
use vstd::prelude::*;

verus! {

/// Sends requests to a buffer through `T`.
#[derive(Debug)]
pub struct ProbeBuffer<T> {
    pub tx: T,
}

/// Waits for a response through `R`.
#[derive(Debug)]
pub struct ResponseFuture<R> {
    pub rx: R,
}

/// Why there is no response.
#[derive(Debug)]
pub enum ResponseError<E> {
    /// The request was dropped.
    Closed(Closed),
    /// The service failed.
    Service(E),
}

impl<T> ProbeBuffer<T> {
    pub fn new(tx: T) -> (buffer: Self)
        ensures
            buffer.tx == tx,
    {
        ProbeBuffer { tx }
    }

    /// The readiness of the buffer, of which `polled` is the readiness of the queue. A
    /// queue that fails is closed.
    pub fn poll_ready<X>(polled: Poll<Result<(), X>>) -> (ready: Poll<Result<(), Closed>>)
        ensures
            ready == match polled {
                Poll::Pending => Poll::Pending,
                Poll::Ready(Ok(())) => Poll::Ready(Ok::<(), Closed>(())),
                Poll::Ready(Err(_)) => Poll::Ready(Err(Closed(()))),
            },
    {
        match polled {
            Poll::Pending => Poll::Pending,
            Poll::Ready(Ok(())) => Poll::Ready(Ok(())),
            Poll::Ready(Err(_)) => Poll::Ready(Err(Closed(()))),
        }
    }
}

impl<T: Clone> Clone for ProbeBuffer<T> {
    fn clone(&self) -> (buffer: Self)
        ensures
            cloned(self.tx, buffer.tx),
    {
        ProbeBuffer::new(self.tx.clone())
    }
}

impl<R> ResponseFuture<R> {
    /// The response that was received, of which `polled` is the outcome of receiving.
    pub fn poll<Rsp, E, X>(polled: Poll<Result<Result<Rsp, E>, X>>) -> (response: Poll<
        Result<Rsp, ResponseError<E>>,
    >)
        ensures
            response == match polled {
                Poll::Pending => Poll::Pending,
                Poll::Ready(Ok(Ok(response))) => Poll::Ready(Ok::<Rsp, ResponseError<E>>(response)),
                Poll::Ready(Ok(Err(error))) => Poll::Ready(Err(ResponseError::Service(error))),
                Poll::Ready(Err(_)) => Poll::Ready(Err(ResponseError::Closed(Closed(())))),
            },
    {
        match polled {
            Poll::Pending => Poll::Pending,
            Poll::Ready(Ok(Ok(response))) => Poll::Ready(Ok(response)),
            Poll::Ready(Ok(Err(error))) => Poll::Ready(Err(ResponseError::Service(error))),
            Poll::Ready(Err(_)) => Poll::Ready(Err(ResponseError::Closed(Closed(())))),
        }
    }
}

} // verus!
