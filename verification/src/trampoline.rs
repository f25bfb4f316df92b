//! The entry points that the engine calls on a registered filter. Each one
//! finds the host's callback, calls it, and turns the outcome into the
//! engine's return code.
//!
//! A host callback may panic. The caller at the foreign boundary captures
//! the panic and reports it as the outcome `None`, which the code
//! functions here map to the engine's generic failure code.

use vstd::prelude::*;
use crate::buf::FilterBuf;
use crate::callback::{Applied, Checked};
use crate::error::{Error, CODE_ERROR, CODE_OK, CODE_PASSTHROUGH};
use crate::filter::Filter;
use crate::payload::{FilterPayload, slot_for};
use crate::source::FilterSource;

verus! {

/// The engine code for the outcome of a callback that succeeds or fails:
/// success is `0`, an error its own raw code, a captured panic (`None`) the
/// generic failure code.
pub open spec fn unit_outcome_code(outcome: Option<Result<(), Error>>) -> int {
    match outcome {
        Some(Ok(())) => CODE_OK as int,
        Some(Err(e)) => e@.code,
        None => CODE_ERROR as int,
    }
}

/// The engine code for the outcome of a callback that may also decline:
/// `true` is `0`, `false` the pass-through code, an error its own raw code,
/// a captured panic (`None`) the generic failure code.
pub open spec fn bool_outcome_code(outcome: Option<Result<bool, Error>>) -> int {
    match outcome {
        Some(Ok(true)) => CODE_OK as int,
        Some(Ok(false)) => CODE_PASSTHROUGH as int,
        Some(Err(e)) => e@.code,
        None => CODE_ERROR as int,
    }
}

/// The table of return codes: success is `0`, a declined check or
/// transformation is the pass-through code `-30`, an error travels under
/// the raw code it carries, and a captured panic is `-1` whatever the
/// callback.
pub proof fn lemma_outcome_codes(e: Error)
    ensures
        unit_outcome_code(Some(Ok(()))) == 0,
        unit_outcome_code(Some(Err(e))) == e@.code,
        unit_outcome_code(None) == -1,
        bool_outcome_code(Some(Ok(true))) == 0,
        bool_outcome_code(Some(Ok(false))) == -30,
        bool_outcome_code(Some(Err(e))) == e@.code,
        bool_outcome_code(None) == -1,
{
}

/// The engine code for the outcome of an initialize or shutdown callback.
pub fn unit_code(outcome: &Option<Result<(), Error>>) -> (code: i32)
    ensures
        code == unit_outcome_code(*outcome),
        *outcome is None ==> code == -1,
{
    match outcome {
        Some(Ok(())) => CODE_OK,
        Some(Err(e)) => e.raw_code(),
        None => CODE_ERROR,
    }
}

/// The engine code for the outcome of a check or apply callback.
pub fn bool_code(outcome: &Option<Result<bool, Error>>) -> (code: i32)
    ensures
        code == bool_outcome_code(*outcome),
        *outcome is None ==> code == -1,
{
    match outcome {
        Some(Ok(true)) => CODE_OK,
        Some(Ok(false)) => CODE_PASSTHROUGH,
        Some(Err(e)) => e.raw_code(),
        None => CODE_ERROR,
    }
}

/// Entry point for initialization. Without a callback it succeeds.
pub fn on_init<'f, P: 'f>(filter: &Filter<'f, P>) -> (code: i32)
    requires
        filter.descriptor().initialize is Some ==> filter.descriptor().initialize.unwrap().admits(
            &filter.descriptor().raw,
        ),
    ensures
        filter.descriptor().initialize is None ==> code == CODE_OK,
        filter.descriptor().initialize is Some ==> exists|result: Result<(), Error>|
            #[trigger] filter.descriptor().initialize.unwrap().relates(
                &filter.descriptor().raw,
                result,
            ) && code == unit_outcome_code(Some(result)),
{
    let raw = filter.raw();
    let outcome = match &raw.initialize {
        Some(initialize) => initialize.call(&raw.raw),
        None => Ok(()),
    };
    unit_code(&Some(outcome))
}

/// Entry point for shutdown. Without a callback it succeeds.
pub fn on_shutdown<'f, P: 'f>(filter: &Filter<'f, P>) -> (code: i32)
    requires
        filter.descriptor().shutdown is Some ==> filter.descriptor().shutdown.unwrap().admits(
            &filter.descriptor().raw,
        ),
    ensures
        filter.descriptor().shutdown is None ==> code == CODE_OK,
        filter.descriptor().shutdown is Some ==> exists|result: Result<(), Error>|
            #[trigger] filter.descriptor().shutdown.unwrap().relates(
                &filter.descriptor().raw,
                result,
            ) && code == unit_outcome_code(Some(result)),
{
    let raw = filter.raw();
    let outcome = match &raw.shutdown {
        Some(shutdown) => shutdown.call(&raw.raw),
        None => Ok(()),
    };
    unit_code(&Some(outcome))
}

/// Entry point for the check. The cell is opened on the engine's slot, the
/// callback decides, and the slot gets what the callback left in the cell.
/// Without a callback the content passes through and the slot is left as
/// it was.
pub fn on_check<'f, P: 'f>(
    filter: &Filter<'f, P>,
    payload: &mut Option<Box<P>>,
    src: &FilterSource,
    attr_values: Option<&str>,
) -> (code: i32)
    requires
        filter.descriptor().check is Some ==> filter.descriptor().check.unwrap().admits(
            &filter.descriptor().raw,
            FilterPayload::opened(*old(payload)),
            src,
            attr_values,
        ),
    ensures
        filter.descriptor().check is None ==> code == CODE_PASSTHROUGH && *final(payload) == *old(
            payload,
        ),
        filter.descriptor().check is Some ==> exists|reply: Checked<P>|
            #[trigger] filter.descriptor().check.unwrap().relates(
                &filter.descriptor().raw,
                FilterPayload::opened(*old(payload)),
                src,
                attr_values,
                reply,
            ) && code == bool_outcome_code(Some(reply.result)) && *final(payload) == slot_for(
                reply.payload@,
            ),
{
    let raw = filter.raw();
    match &raw.check {
        Some(check) => {
            let cell = FilterPayload::from_raw(payload.take());
            let reply = check.call(&raw.raw, cell, src, attr_values);
            let Checked { payload: cell, result } = reply;
            *payload = cell.into_raw();
            bool_code(&Some(result))
        },
        None => CODE_PASSTHROUGH,
    }
}

/// Entry point for the transformation. The cell is opened on the engine's
/// slot and the callback gets the output buffer `to` and the input buffer
/// `from`. Afterwards the slot holds what the callback left in the cell,
/// and `to` is the buffer the callback handed back, with the engine's
/// descriptor brought up to date. Without a callback the call succeeds
/// and changes nothing.
pub fn on_apply<'f, P: 'f>(
    filter: &Filter<'f, P>,
    payload: &mut Option<Box<P>>,
    to: &mut FilterBuf,
    from: &FilterBuf,
    src: &FilterSource,
) -> (code: i32)
    requires
        filter.descriptor().apply is Some ==> filter.descriptor().apply.unwrap().admits(
            &filter.descriptor().raw,
            FilterPayload::opened(*old(payload)),
            *old(to),
            from,
            src,
        ),
    ensures
        filter.descriptor().apply is None ==> code == CODE_OK && *final(payload) == *old(payload)
            && *final(to) == *old(to),
        filter.descriptor().apply is Some ==> exists|reply: Applied<P>|
            #[trigger] filter.descriptor().apply.unwrap().relates(
                &filter.descriptor().raw,
                FilterPayload::opened(*old(payload)),
                *old(to),
                from,
                src,
                reply,
            ) && code == bool_outcome_code(Some(reply.result)) && *final(payload) == slot_for(
                reply.payload@,
            ) && final(to)@ == reply.to@ && final(to).is_populated() == reply.to.is_populated() && (
            reply.to.is_populated() ==> final(to).in_sync()),
{
    let raw = filter.raw();
    match &raw.apply {
        Some(apply) => {
            let cell = FilterPayload::from_raw(payload.take());
            let mut output = FilterBuf::from_raw(None);
            std::mem::swap(to, &mut output);
            let reply = apply.call(&raw.raw, cell, output, from, src);
            let Applied { payload: cell, to: written, result } = reply;
            *payload = cell.into_raw();
            *to = written;
            to.sync();
            bool_code(&Some(result))
        },
        None => CODE_OK,
    }
}

/// Entry point for the cleanup. The payload that the invocation carried
/// goes to the callback, which owns it from then on. The result says
/// whether the cleanup went well; the engine does not ask. Without a
/// callback the payload is dropped.
pub fn on_cleanup<'f, P: 'f>(filter: &Filter<'f, P>, payload: Option<Box<P>>) -> (done: bool)
    requires
        filter.descriptor().cleanup is Some ==> filter.descriptor().cleanup.unwrap().admits(
            &filter.descriptor().raw,
            payload,
        ),
    ensures
        filter.descriptor().cleanup is None ==> done,
        filter.descriptor().cleanup is Some ==> exists|result: Result<(), Error>|
            #[trigger] filter.descriptor().cleanup.unwrap().relates(
                &filter.descriptor().raw,
                payload,
                result,
            ) && done == (result is Ok),
{
    let raw = filter.raw();
    match &raw.cleanup {
        Some(cleanup) => {
            let cell = FilterPayload::from_raw(payload);
            proof {
                cell.lemma_opened();
            }
            cleanup.call(&raw.raw, cell).is_ok()
        },
        None => true,
    }
}

} // verus!
