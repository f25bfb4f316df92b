//! A filter: the host's callbacks together with the description that the
//! engine reads, and the steps that lead to its registration.

use vstd::prelude::*;
use vstd::string::StringSliceAdditionalSpecFns;
use crate::buf::FilterBuf;
use crate::callback::{
    Applied, Checked, FilterApply, FilterCallback, FilterCheck, FilterCleanup, FilterInitialize,
    FilterShutdown,
};
use crate::cstring::{has_nul, into_c_string, is_c_string, terminated};
use crate::descriptor::{initial_raw_filter, raw_filter_wf, same_entry_points, RawFilter};
use crate::error::{Error, CODE_ERROR};
use crate::payload::FilterPayload;
use crate::source::FilterSource;

verus! {

/// A filter as it lies in memory once it is registered: first the
/// description that the engine reads, then the host's callbacks, each kept
/// behind its capability.
#[verifier::reject_recursive_types(P)]
pub struct FilterRaw<'f, P> {
    /// What the engine reads.
    pub raw: RawFilter,
    /// Called when the engine first uses the filter.
    pub initialize: Option<Box<dyn FilterInitialize<'f> + 'f>>,
    /// Called when the engine shuts down.
    pub shutdown: Option<Box<dyn FilterShutdown<'f> + 'f>>,
    /// Decides whether the filter applies to a file.
    pub check: Option<Box<dyn FilterCheck<'f, P> + 'f>>,
    /// Transforms content.
    pub apply: Option<Box<dyn FilterApply<'f, P> + 'f>>,
    /// Releases the payload of an invocation.
    pub cleanup: Option<Box<dyn FilterCleanup<'f, P> + 'f>>,
}

impl<'f, P: 'f> FilterRaw<'f, P> {
    /// Well-formedness: the engine-visible part is in order, and an entry
    /// point is published exactly when its callback is installed. A
    /// transformation callback is reached through the stream entry point,
    /// and cleanup is published whether or not a callback is installed.
    pub open spec fn wf(self) -> bool {
        &&& raw_filter_wf(self.raw)
        &&& self.raw.initialize == (self.initialize is Some)
        &&& self.raw.shutdown == (self.shutdown is Some)
        &&& self.raw.check == (self.check is Some)
        &&& self.raw.stream == (self.apply is Some)
    }

    /// A filter with no callback and no attribute pattern.
    pub fn new() -> (filter: Self)
        ensures
            filter.wf(),
            initial_raw_filter(filter.raw),
            filter.initialize is None,
            filter.shutdown is None,
            filter.check is None,
            filter.apply is None,
            filter.cleanup is None,
    {
        FilterRaw {
            raw: RawFilter::new(),
            initialize: None,
            shutdown: None,
            check: None,
            apply: None,
            cleanup: None,
        }
    }
}

/// Handle on a filter that is being put together. It owns the filter until
/// registration passes it on to the engine.
#[verifier::reject_recursive_types(P)]
pub struct Filter<'f, P> {
    inner: Box<FilterRaw<'f, P>>,
    _phantom: std::marker::PhantomData<&'f P>,
}

impl<'f, P: 'f> Filter<'f, P> {
    /// Well-formedness of the filter behind the handle.
    pub open spec fn wf(self) -> bool {
        self.descriptor().wf()
    }

    /// The filter behind the handle.
    pub closed spec fn descriptor(self) -> FilterRaw<'f, P> {
        *self.inner
    }

    /// A filter with no callback and no attribute pattern. The engine's
    /// cleanup entry point is published from the start.
    pub fn new() -> (filter: Self)
        ensures
            filter.wf(),
            initial_raw_filter(filter.descriptor().raw),
            filter.descriptor().initialize is None,
            filter.descriptor().shutdown is None,
            filter.descriptor().check is None,
            filter.descriptor().apply is None,
            filter.descriptor().cleanup is None,
    {
        Filter { inner: Box::new(FilterRaw::new()), _phantom: std::marker::PhantomData }
    }

    /// The filter behind the handle.
    pub fn raw(&self) -> (raw: &FilterRaw<'f, P>)
        ensures
            *raw == self.descriptor(),
    {
        &*self.inner
    }

    /// Installs the callback that initializes the filter and publishes the
    /// entry point for it.
    pub fn on_init<F>(&mut self, callback: F) -> (ret: &mut Self) where
        F: Fn(&RawFilter) -> Result<(), Error> + 'f,

        requires
            old(self).wf(),
        ensures
            ret.wf(),
            ret.descriptor().raw == (RawFilter { initialize: true, ..old(self).descriptor().raw }),
            ret.descriptor().initialize is Some,
            forall|filter: &RawFilter| #[trigger]
                ret.descriptor().initialize.unwrap().admits(filter) == call_requires(
                    callback,
                    (filter,),
                ),
            forall|filter: &RawFilter, result: Result<(), Error>| #[trigger]
                ret.descriptor().initialize.unwrap().relates(filter, result) == call_ensures(
                    callback,
                    (filter,),
                    result,
                ),
            ret.descriptor().shutdown == old(self).descriptor().shutdown,
            ret.descriptor().check == old(self).descriptor().check,
            ret.descriptor().apply == old(self).descriptor().apply,
            ret.descriptor().cleanup == old(self).descriptor().cleanup,
            *final(self) == *final(ret),
    {
        self.inner.raw.initialize = true;
        self.inner.initialize = Some(Box::new(FilterCallback::<'f, P, F>::new(callback)));
        self
    }

    /// Installs the callback that shuts the filter down and publishes the
    /// entry point for it.
    pub fn on_shutdown<F>(&mut self, callback: F) -> (ret: &mut Self) where
        F: Fn(&RawFilter) -> Result<(), Error> + 'f,

        requires
            old(self).wf(),
        ensures
            ret.wf(),
            ret.descriptor().raw == (RawFilter { shutdown: true, ..old(self).descriptor().raw }),
            ret.descriptor().shutdown is Some,
            forall|filter: &RawFilter| #[trigger]
                ret.descriptor().shutdown.unwrap().admits(filter) == call_requires(
                    callback,
                    (filter,),
                ),
            forall|filter: &RawFilter, result: Result<(), Error>| #[trigger]
                ret.descriptor().shutdown.unwrap().relates(filter, result) == call_ensures(
                    callback,
                    (filter,),
                    result,
                ),
            ret.descriptor().initialize == old(self).descriptor().initialize,
            ret.descriptor().check == old(self).descriptor().check,
            ret.descriptor().apply == old(self).descriptor().apply,
            ret.descriptor().cleanup == old(self).descriptor().cleanup,
            *final(self) == *final(ret),
    {
        self.inner.raw.shutdown = true;
        self.inner.shutdown = Some(Box::new(FilterCallback::<'f, P, F>::new(callback)));
        self
    }

    /// Installs the callback that decides whether the filter applies to a
    /// file and publishes the entry point for it.
    pub fn on_check<F>(&mut self, callback: F) -> (ret: &mut Self) where
        F: Fn(&RawFilter, FilterPayload<P>, &FilterSource, Option<&str>) -> Checked<P> + 'f,

        requires
            old(self).wf(),
        ensures
            ret.wf(),
            ret.descriptor().raw == (RawFilter { check: true, ..old(self).descriptor().raw }),
            ret.descriptor().check is Some,
            forall|
                filter: &RawFilter,
                payload: FilterPayload<P>,
                src: &FilterSource,
                attr_values: Option<&str>,
            | #[trigger]
                ret.descriptor().check.unwrap().admits(filter, payload, src, attr_values)
                    == call_requires(callback, (filter, payload, src, attr_values)),
            forall|
                filter: &RawFilter,
                payload: FilterPayload<P>,
                src: &FilterSource,
                attr_values: Option<&str>,
                reply: Checked<P>,
            | #[trigger]
                ret.descriptor().check.unwrap().relates(filter, payload, src, attr_values, reply)
                    == call_ensures(callback, (filter, payload, src, attr_values), reply),
            ret.descriptor().initialize == old(self).descriptor().initialize,
            ret.descriptor().shutdown == old(self).descriptor().shutdown,
            ret.descriptor().apply == old(self).descriptor().apply,
            ret.descriptor().cleanup == old(self).descriptor().cleanup,
            *final(self) == *final(ret),
    {
        self.inner.raw.check = true;
        self.inner.check = Some(Box::new(FilterCallback::<'f, P, F>::new(callback)));
        self
    }

    /// Installs the callback that transforms content. The engine reaches
    /// it through the stream entry point, which is the one published; the
    /// entry point for a direct transformation stays unpublished.
    pub fn on_apply<F>(&mut self, callback: F) -> (ret: &mut Self) where
        F: Fn(&RawFilter, FilterPayload<P>, FilterBuf, &FilterBuf, &FilterSource) -> Applied<P>
            + 'f,

        requires
            old(self).wf(),
        ensures
            ret.wf(),
            ret.descriptor().raw == (RawFilter { stream: true, ..old(self).descriptor().raw }),
            !ret.descriptor().raw.apply,
            ret.descriptor().apply is Some,
            forall|
                filter: &RawFilter,
                payload: FilterPayload<P>,
                to: FilterBuf,
                from: &FilterBuf,
                src: &FilterSource,
            | #[trigger]
                ret.descriptor().apply.unwrap().admits(filter, payload, to, from, src)
                    == call_requires(callback, (filter, payload, to, from, src)),
            forall|
                filter: &RawFilter,
                payload: FilterPayload<P>,
                to: FilterBuf,
                from: &FilterBuf,
                src: &FilterSource,
                reply: Applied<P>,
            | #[trigger]
                ret.descriptor().apply.unwrap().relates(filter, payload, to, from, src, reply)
                    == call_ensures(callback, (filter, payload, to, from, src), reply),
            ret.descriptor().initialize == old(self).descriptor().initialize,
            ret.descriptor().shutdown == old(self).descriptor().shutdown,
            ret.descriptor().check == old(self).descriptor().check,
            ret.descriptor().cleanup == old(self).descriptor().cleanup,
            *final(self) == *final(ret),
    {
        self.inner.raw.stream = true;
        self.inner.apply = Some(Box::new(FilterCallback::<'f, P, F>::new(callback)));
        self
    }

    /// Installs the callback that releases the payload of an invocation.
    /// The entry point for it is published from the start and stays so.
    pub fn on_cleanup<F>(&mut self, callback: F) -> (ret: &mut Self) where
        F: Fn(&RawFilter, Option<Box<P>>) -> Result<(), Error> + 'f,

        requires
            old(self).wf(),
        ensures
            ret.wf(),
            ret.descriptor().raw == old(self).descriptor().raw,
            ret.descriptor().cleanup is Some,
            forall|filter: &RawFilter, payload: Option<Box<P>>| #[trigger]
                ret.descriptor().cleanup.unwrap().admits(filter, payload) == call_requires(
                    callback,
                    (filter, payload),
                ),
            forall|filter: &RawFilter, payload: Option<Box<P>>, result: Result<(), Error>|
                #[trigger]
                ret.descriptor().cleanup.unwrap().relates(filter, payload, result) == call_ensures(
                    callback,
                    (filter, payload),
                    result,
                ),
            ret.descriptor().initialize == old(self).descriptor().initialize,
            ret.descriptor().shutdown == old(self).descriptor().shutdown,
            ret.descriptor().check == old(self).descriptor().check,
            ret.descriptor().apply == old(self).descriptor().apply,
            *final(self) == *final(ret),
    {
        self.inner.cleanup = Some(Box::new(FilterCallback::<'f, P, F>::new(callback)));
        self
    }

    /// Installs the attribute pattern that selects the filter, such as
    /// `filter=name`, in place of any earlier one. The filter keeps its own
    /// NUL-terminated copy. A pattern that holds a NUL cannot be encoded:
    /// it gives an error and leaves the filter as it was.
    pub fn attributes(&mut self, attrs: &str) -> (r: Result<&mut Self, Error>)
        requires
            old(self).wf(),
        ensures
            has_nul(attrs.spec_bytes()) <==> r is Err,
            r is Err ==> r->Err_0@.code == CODE_ERROR && *final(self) == *old(self),
            r is Ok ==> ({
                let ret = r->Ok_0;
                &&& ret.wf()
                &&& ret.descriptor().raw.attributes is Some
                &&& ret.descriptor().raw.attributes->Some_0@ == terminated(attrs.spec_bytes())
                &&& same_entry_points(ret.descriptor().raw, old(self).descriptor().raw)
                &&& ret.descriptor().initialize == old(self).descriptor().initialize
                &&& ret.descriptor().shutdown == old(self).descriptor().shutdown
                &&& ret.descriptor().check == old(self).descriptor().check
                &&& ret.descriptor().apply == old(self).descriptor().apply
                &&& ret.descriptor().cleanup == old(self).descriptor().cleanup
                &&& *final(self) == *final(ret)
            }),
    {
        match into_c_string(attrs) {
            Ok(encoded) => {
                self.inner.raw.attributes = Some(encoded);
                Ok(self)
            },
            Err(e) => Err(e),
        }
    }

    /// Prepares the registration of the filter under `name` with
    /// `priority`, which passes the filter on to the engine. If no cleanup
    /// callback is installed, one that does nothing and succeeds is
    /// installed first, since the engine calls cleanup in any case. A name
    /// that holds a NUL cannot be encoded and gives an error before
    /// anything reaches the engine.
    pub fn register(self, name: &str, priority: i32) -> (r: Result<Registration<'f, P>, Error>)
        requires
            self.wf(),
        ensures
            has_nul(name.spec_bytes()) <==> r is Err,
            r is Err ==> r->Err_0@.code == CODE_ERROR,
            r is Ok ==> ({
                let reg = r->Ok_0;
                let was = self.descriptor();
                let now = reg.filter.descriptor();
                &&& reg.name@ == terminated(name.spec_bytes())
                &&& reg.priority == priority
                &&& reg.filter.wf()
                &&& now.raw == was.raw
                &&& now.initialize == was.initialize
                &&& now.shutdown == was.shutdown
                &&& now.check == was.check
                &&& now.apply == was.apply
                &&& now.cleanup is Some
                &&& was.cleanup is Some ==> now.cleanup == was.cleanup
                &&& was.cleanup is None ==> forall|filter: &RawFilter, payload: Option<Box<P>>|
                    #[trigger] now.cleanup.unwrap().admits(filter, payload)
                &&& was.cleanup is None ==> forall|
                    filter: &RawFilter,
                    payload: Option<Box<P>>,
                    result: Result<(), Error>,
                | #[trigger]
                    now.cleanup.unwrap().relates(filter, payload, result) ==> result is Ok
            }),
    {
        let mut filter = self;
        if filter.inner.cleanup.is_none() {
            let nothing = |_filter: &RawFilter, _payload: Option<Box<P>>| -> (done: Result<
                (),
                Error,
            >)
                ensures
                    done is Ok,
                { Ok(()) };
            filter.on_cleanup(nothing);
        }
        match into_c_string(name) {
            Ok(encoded) => Ok(Registration { name: encoded, priority, filter }),
            Err(e) => Err(e),
        }
    }
}

/// A filter on its way to the engine: the NUL-terminated name and the
/// priority to register it under, and the filter itself, which belongs to
/// the engine once the registration has gone through.
#[verifier::reject_recursive_types(P)]
pub struct Registration<'f, P> {
    /// Name of the filter, NUL-terminated.
    pub name: Vec<u8>,
    /// Priority among the filters of a file.
    pub priority: i32,
    /// The filter.
    pub filter: Filter<'f, P>,
}

} // verus!
