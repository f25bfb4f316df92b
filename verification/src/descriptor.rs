//! The part of a filter that the engine reads: a version tag, the attribute
//! pattern that selects the filter, and the entry points it may call.

use vstd::prelude::*;
use crate::cstring::is_c_string;

verus! {

/// Version tag of the engine's filter layout.
pub const FILTER_VERSION: u32 = 1;

/// The engine-visible description of a filter. Each entry point is a flag
/// that says whether the bridge has published its trampoline for it.
#[derive(Debug)]
pub struct RawFilter {
    /// Version tag.
    pub version: u32,
    /// Attribute pattern as a NUL-terminated string; `None` for null.
    pub attributes: Option<Vec<u8>>,
    /// Entry point called when the engine first uses the filter.
    pub initialize: bool,
    /// Entry point called when the engine shuts down.
    pub shutdown: bool,
    /// Entry point that decides whether the filter applies to a file.
    pub check: bool,
    /// Entry point for a direct, buffered transformation. The bridge never
    /// publishes it: transformations go through `stream`.
    pub apply: bool,
    /// Entry point that opens a stream for a transformation.
    pub stream: bool,
    /// Entry point that releases the payload of an invocation.
    pub cleanup: bool,
}

/// The description right after the engine's initializer has run on a
/// zeroed one and the bridge has published its cleanup entry point.
pub open spec fn initial_raw_filter(raw: RawFilter) -> bool {
    &&& raw.version == FILTER_VERSION
    &&& raw.attributes is None
    &&& !raw.initialize
    &&& !raw.shutdown
    &&& !raw.check
    &&& !raw.apply
    &&& !raw.stream
    &&& raw.cleanup
}

/// What holds of every description the bridge hands to the engine: the
/// version is the engine's, the pattern (if any) is a well-formed
/// NUL-terminated string, cleanup is always published and the direct
/// transformation entry point never is.
pub open spec fn raw_filter_wf(raw: RawFilter) -> bool {
    &&& raw.version == FILTER_VERSION
    &&& raw.attributes is Some ==> is_c_string(raw.attributes->Some_0@)
    &&& raw.cleanup
    &&& !raw.apply
}

/// Whether two descriptions agree in everything but the attribute pattern.
pub open spec fn same_entry_points(a: RawFilter, b: RawFilter) -> bool {
    &&& a.version == b.version
    &&& a.initialize == b.initialize
    &&& a.shutdown == b.shutdown
    &&& a.check == b.check
    &&& a.apply == b.apply
    &&& a.stream == b.stream
    &&& a.cleanup == b.cleanup
}

impl RawFilter {
    /// The description of a filter that has no callback and no pattern yet.
    pub fn new() -> (raw: RawFilter)
        ensures
            initial_raw_filter(raw),
            raw_filter_wf(raw),
    {
        RawFilter {
            version: FILTER_VERSION,
            attributes: None,
            initialize: false,
            shutdown: false,
            check: false,
            apply: false,
            stream: false,
            cleanup: true,
        }
    }
}

} // verus!
