//! An identity adapter for service pipelines.
//!
//! [`TransparentService`] wraps a service and changes nothing about it: what
//! goes in is the service, what comes out is the service. It marks a place
//! in a pipeline where behaviour may be inserted later. [`TransparentLayer`]
//! is the pipeline stage that applies the wrapper.
//!
//! `Req` is the type of request the wrapped service takes. It is carried in
//! the type only, so that a pipeline can tell adapters for different
//! requests apart.

use std::marker::PhantomData;
use vstd::prelude::*;

verus! {

/// A service wrapped without any change of behaviour.
pub struct TransparentService<S, Req>(S, PhantomData<Req>);

impl<S, Req> TransparentService<S, Req> {
    /// The wrapped service.
    pub closed spec fn inner(&self) -> S {
        self.0
    }

    /// Wraps `service`.
    pub fn new(service: S) -> (wrapped: Self)
        ensures
            wrapped.inner() == service,
    {
        TransparentService(service, PhantomData)
    }

    /// The wrapped service, to call it without changing it.
    pub fn get_ref(&self) -> (inner: &S)
        ensures
            *inner == self.inner(),
    {
        &self.0
    }

    /// The wrapped service, to call it in place. Whatever the caller does to
    /// it is done to the wrapped service and to nothing else.
    pub fn get_mut(&mut self) -> (inner: &mut S)
        ensures
            *inner == old(self).inner(),
            final(self).inner() == *final(inner),
    {
        &mut self.0
    }

    /// Takes the wrapper off again.
    pub fn into_inner(self) -> (inner: S)
        ensures
            inner == self.inner(),
    {
        self.0
    }
}

impl<S: Clone, Req> Clone for TransparentService<S, Req> {
    /// Duplicates the wrapped service: the copy wraps a clone of it.
    fn clone(&self) -> (copy: Self)
        ensures
            cloned::<S>(self.inner(), copy.inner()),
    {
        TransparentService(self.0.clone(), PhantomData)
    }
}

/// The pipeline stage that wraps a service in a [`TransparentService`].
/// It holds no state: every such stage does the same.
pub struct TransparentLayer<S, Req>(PhantomData<S>, PhantomData<Req>);

impl<S, Req> TransparentLayer<S, Req> {
    /// A stage for services of type `S` taking requests of type `Req`.
    pub fn new() -> Self {
        TransparentLayer(PhantomData, PhantomData)
    }

    /// Applies the stage: wraps `inner` and leaves it as it is.
    pub fn layer(&self, inner: S) -> (wrapped: TransparentService<S, Req>)
        ensures
            wrapped.inner() == inner,
    {
        TransparentService::new(inner)
    }
}

} // verus!
