//! Host callbacks and the capabilities through which the bridge calls them.
//!
//! A host may hand any callable of the right shape to the bridge. Each kind
//! of callback has a capability trait with a single method, `call`; the
//! bridge stores a callable behind that trait and knows it from then on by
//! its contract alone.
//!
//! A callable gets the payload cell and the output buffer by value and
//! hands them back in its reply, so that whatever it installed or wrote
//! reaches the engine.

use vstd::prelude::*;
use crate::buf::FilterBuf;
use crate::descriptor::RawFilter;
use crate::error::Error;
use crate::payload::FilterPayload;
use crate::source::FilterSource;

verus! {

/// Reply of a check callback.
#[derive(Debug)]
pub struct Checked<P> {
    /// The payload cell, holding what the invocation is to carry on.
    pub payload: FilterPayload<P>,
    /// `Ok(true)` to ask for the transformation, `Ok(false)` to let the
    /// content pass through unchanged, or an error.
    pub result: Result<bool, Error>,
}

/// Reply of an apply callback.
#[derive(Debug)]
pub struct Applied<P> {
    /// The payload cell, holding what the invocation is to carry on.
    pub payload: FilterPayload<P>,
    /// The output buffer, holding the transformed bytes.
    pub to: FilterBuf,
    /// `Ok(true)` if `to` holds the result, `Ok(false)` to let the content
    /// pass through unchanged, or an error.
    pub result: Result<bool, Error>,
}

/// Capability to initialize a filter.
pub trait FilterInitialize<'a> {
    /// The inputs on which the callback may be called.
    spec fn admits(&self, filter: &RawFilter) -> bool;

    /// The results the callback may give on an input.
    spec fn relates(&self, filter: &RawFilter, result: Result<(), Error>) -> bool;

    fn call(&self, filter: &RawFilter) -> (result: Result<(), Error>)
        requires
            self.admits(filter),
        ensures
            self.relates(filter, result),
    ;
}

/// Capability to shut a filter down.
pub trait FilterShutdown<'a> {
    /// The inputs on which the callback may be called.
    spec fn admits(&self, filter: &RawFilter) -> bool;

    /// The results the callback may give on an input.
    spec fn relates(&self, filter: &RawFilter, result: Result<(), Error>) -> bool;

    fn call(&self, filter: &RawFilter) -> (result: Result<(), Error>)
        requires
            self.admits(filter),
        ensures
            self.relates(filter, result),
    ;
}

/// Capability to decide whether a filter applies to a file.
pub trait FilterCheck<'a, P> {
    /// The inputs on which the callback may be called.
    spec fn admits(
        &self,
        filter: &RawFilter,
        payload: FilterPayload<P>,
        src: &FilterSource,
        attr_values: Option<&str>,
    ) -> bool;

    /// The replies the callback may give on an input.
    spec fn relates(
        &self,
        filter: &RawFilter,
        payload: FilterPayload<P>,
        src: &FilterSource,
        attr_values: Option<&str>,
        reply: Checked<P>,
    ) -> bool;

    fn call(
        &self,
        filter: &RawFilter,
        payload: FilterPayload<P>,
        src: &FilterSource,
        attr_values: Option<&str>,
    ) -> (reply: Checked<P>)
        requires
            self.admits(filter, payload, src, attr_values),
        ensures
            self.relates(filter, payload, src, attr_values, reply),
    ;
}

/// Capability to transform content. The output buffer comes first, the
/// input buffer second.
pub trait FilterApply<'a, P> {
    /// The inputs on which the callback may be called.
    spec fn admits(
        &self,
        filter: &RawFilter,
        payload: FilterPayload<P>,
        to: FilterBuf,
        from: &FilterBuf,
        src: &FilterSource,
    ) -> bool;

    /// The replies the callback may give on an input.
    spec fn relates(
        &self,
        filter: &RawFilter,
        payload: FilterPayload<P>,
        to: FilterBuf,
        from: &FilterBuf,
        src: &FilterSource,
        reply: Applied<P>,
    ) -> bool;

    fn call(
        &self,
        filter: &RawFilter,
        payload: FilterPayload<P>,
        to: FilterBuf,
        from: &FilterBuf,
        src: &FilterSource,
    ) -> (reply: Applied<P>)
        requires
            self.admits(filter, payload, to, from, src),
        ensures
            self.relates(filter, payload, to, from, src, reply),
    ;
}

/// Capability to release the payload of an invocation. The cell is opened
/// on the slot and emptied before the callback runs, so the callback owns
/// what it gets.
pub trait FilterCleanup<'a, P> {
    /// The inputs on which the callback may be called.
    spec fn admits(&self, filter: &RawFilter, payload: Option<Box<P>>) -> bool;

    /// The results the callback may give on an input.
    spec fn relates(
        &self,
        filter: &RawFilter,
        payload: Option<Box<P>>,
        result: Result<(), Error>,
    ) -> bool;

    fn call(&self, filter: &RawFilter, payload: FilterPayload<P>) -> (result: Result<(), Error>)
        requires
            self.admits(filter, crate::payload::slot_for(payload@)),
        ensures
            self.relates(filter, crate::payload::slot_for(payload@), result),
    ;
}

/// A host callable, kept for a filter whose payload has type `P`.
pub struct FilterCallback<'a, P, F> {
    callback: F,
    _phantom: std::marker::PhantomData<&'a P>,
}

impl<'a, P, F> FilterCallback<'a, P, F> {
    /// The callable that is kept.
    pub closed spec fn callable(self) -> F {
        self.callback
    }

    /// Keeps `callback`.
    pub fn new(callback: F) -> (kept: Self)
        ensures
            kept.callable() == callback,
    {
        Self { callback, _phantom: std::marker::PhantomData }
    }
}

impl<'a, P, F> FilterInitialize<'a> for FilterCallback<'a, P, F> where
    F: Fn(&RawFilter) -> Result<(), Error> + 'a,
 {
    open spec fn admits(&self, filter: &RawFilter) -> bool {
        call_requires(self.callable(), (filter,))
    }

    open spec fn relates(&self, filter: &RawFilter, result: Result<(), Error>) -> bool {
        call_ensures(self.callable(), (filter,), result)
    }

    fn call(&self, filter: &RawFilter) -> (result: Result<(), Error>) {
        (self.callback)(filter)
    }
}

impl<'a, P, F> FilterShutdown<'a> for FilterCallback<'a, P, F> where
    F: Fn(&RawFilter) -> Result<(), Error> + 'a,
 {
    open spec fn admits(&self, filter: &RawFilter) -> bool {
        call_requires(self.callable(), (filter,))
    }

    open spec fn relates(&self, filter: &RawFilter, result: Result<(), Error>) -> bool {
        call_ensures(self.callable(), (filter,), result)
    }

    fn call(&self, filter: &RawFilter) -> (result: Result<(), Error>) {
        (self.callback)(filter)
    }
}

impl<'a, P, F> FilterCheck<'a, P> for FilterCallback<'a, P, F> where
    F: Fn(&RawFilter, FilterPayload<P>, &FilterSource, Option<&str>) -> Checked<P> + 'a,
 {
    open spec fn admits(
        &self,
        filter: &RawFilter,
        payload: FilterPayload<P>,
        src: &FilterSource,
        attr_values: Option<&str>,
    ) -> bool {
        call_requires(self.callable(), (filter, payload, src, attr_values))
    }

    open spec fn relates(
        &self,
        filter: &RawFilter,
        payload: FilterPayload<P>,
        src: &FilterSource,
        attr_values: Option<&str>,
        reply: Checked<P>,
    ) -> bool {
        call_ensures(self.callable(), (filter, payload, src, attr_values), reply)
    }

    fn call(
        &self,
        filter: &RawFilter,
        payload: FilterPayload<P>,
        src: &FilterSource,
        attr_values: Option<&str>,
    ) -> (reply: Checked<P>) {
        (self.callback)(filter, payload, src, attr_values)
    }
}

impl<'a, P, F> FilterApply<'a, P> for FilterCallback<'a, P, F> where
    F: Fn(&RawFilter, FilterPayload<P>, FilterBuf, &FilterBuf, &FilterSource) -> Applied<P> + 'a,
 {
    open spec fn admits(
        &self,
        filter: &RawFilter,
        payload: FilterPayload<P>,
        to: FilterBuf,
        from: &FilterBuf,
        src: &FilterSource,
    ) -> bool {
        call_requires(self.callable(), (filter, payload, to, from, src))
    }

    open spec fn relates(
        &self,
        filter: &RawFilter,
        payload: FilterPayload<P>,
        to: FilterBuf,
        from: &FilterBuf,
        src: &FilterSource,
        reply: Applied<P>,
    ) -> bool {
        call_ensures(self.callable(), (filter, payload, to, from, src), reply)
    }

    fn call(
        &self,
        filter: &RawFilter,
        payload: FilterPayload<P>,
        to: FilterBuf,
        from: &FilterBuf,
        src: &FilterSource,
    ) -> (reply: Applied<P>) {
        (self.callback)(filter, payload, to, from, src)
    }
}

impl<'a, P, F> FilterCleanup<'a, P> for FilterCallback<'a, P, F> where
    F: Fn(&RawFilter, Option<Box<P>>) -> Result<(), Error> + 'a,
 {
    open spec fn admits(&self, filter: &RawFilter, payload: Option<Box<P>>) -> bool {
        call_requires(self.callable(), (filter, payload))
    }

    open spec fn relates(
        &self,
        filter: &RawFilter,
        payload: Option<Box<P>>,
        result: Result<(), Error>,
    ) -> bool {
        call_ensures(self.callable(), (filter, payload), result)
    }

    fn call(&self, filter: &RawFilter, payload: FilterPayload<P>) -> (result: Result<(), Error>) {
        let mut cell = payload;
        let taken = cell.take();
        (self.callback)(filter, taken)
    }
}

} // verus!
