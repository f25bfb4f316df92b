use std::cell::{Cell, RefCell};

use git_filter::buf::FilterBuf;
use git_filter::callback::{Applied, Checked};
use git_filter::descriptor::{RawFilter, FILTER_VERSION};
use git_filter::error::{Error, CODE_ERROR, CODE_OK, CODE_PASSTHROUGH};
use git_filter::filter::Filter;
use git_filter::payload::FilterPayload;
use git_filter::source::{FilterSource, RawSource};
use git_filter::trampoline::{
    bool_code, on_apply, on_check, on_cleanup, on_init, on_shutdown, unit_code,
};

fn smudge_source(path: &str) -> FilterSource {
    FilterSource::from_raw(RawSource {
        id: None,
        mode: 0,
        path: Some(path.as_bytes().to_vec()),
        filemode: 0o100644,
        repo: 1,
    })
}

/// Drives one filtering operation the way the engine does: the check if
/// one is published, the transformation if the check accepted, and the
/// cleanup in any case. A declined check or transformation leaves the
/// input as it is.
fn filter_once<P>(filter: &Filter<'_, P>, src: &FilterSource, input: &[u8]) -> Result<Vec<u8>, i32> {
    let published = filter.raw();
    let mut slot: Option<Box<P>> = None;
    let mut outcome = Ok(input.to_vec());
    let mut accepted = true;
    if published.raw.check {
        let code = on_check(filter, &mut slot, src, Some("upper"));
        if code == CODE_PASSTHROUGH {
            accepted = false;
        } else if code != CODE_OK {
            accepted = false;
            outcome = Err(code);
        }
    }
    if accepted && published.raw.stream {
        let from = FilterBuf::from_raw(Some(input.to_vec()));
        let mut to = FilterBuf::from_raw(None);
        let code = on_apply(filter, &mut slot, &mut to, &from, src);
        let (descriptor, bytes) = to.into_raw();
        if code == CODE_OK {
            let bytes = bytes.unwrap_or_default();
            assert_eq!(descriptor.size, bytes.len());
            outcome = Ok(bytes);
        } else if code != CODE_PASSTHROUGH {
            outcome = Err(code);
        }
    }
    if published.raw.cleanup {
        on_cleanup(filter, slot);
    }
    outcome
}

fn upper<P>(
    _filter: &RawFilter,
    payload: FilterPayload<P>,
    mut to: FilterBuf,
    from: &FilterBuf,
    _src: &FilterSource,
) -> Applied<P> {
    let out = to.as_allocated_vec();
    out.clear();
    out.extend(from.as_bytes().iter().map(|b| b.to_ascii_uppercase()));
    Applied { payload, to, result: Ok(true) }
}

#[test]
fn new_filter_publishes_cleanup_only() {
    let filter: Filter<u32> = Filter::new();
    let raw = filter.raw();
    assert_eq!(raw.raw.version, FILTER_VERSION);
    assert_eq!(raw.raw.version, 1);
    assert!(raw.raw.attributes.is_none());
    assert!(!raw.raw.initialize);
    assert!(!raw.raw.shutdown);
    assert!(!raw.raw.check);
    assert!(!raw.raw.apply);
    assert!(!raw.raw.stream);
    assert!(raw.raw.cleanup);
    assert!(raw.initialize.is_none());
    assert!(raw.shutdown.is_none());
    assert!(raw.check.is_none());
    assert!(raw.apply.is_none());
    assert!(raw.cleanup.is_none());
}

#[test]
fn builders_publish_their_entry_points() {
    let mut filter: Filter<u32> = Filter::new();
    filter.on_init(|_| Ok(()));
    assert!(filter.raw().raw.initialize && filter.raw().initialize.is_some());
    assert!(!filter.raw().raw.shutdown);
    filter.on_shutdown(|_| Ok(()));
    assert!(filter.raw().raw.shutdown && filter.raw().shutdown.is_some());
    filter.on_check(|_, payload, _, _| Checked { payload, result: Ok(true) });
    assert!(filter.raw().raw.check && filter.raw().check.is_some());
    assert!(!filter.raw().raw.stream);
    filter.on_cleanup(|_, _| Ok(()));
    assert!(filter.raw().cleanup.is_some());
    assert!(filter.raw().raw.cleanup);
}

#[test]
fn apply_is_published_as_a_stream() {
    let mut filter: Filter<u32> = Filter::new();
    filter.on_apply(upper);
    let raw = filter.raw();
    assert!(raw.apply.is_some());
    assert!(raw.raw.stream);
    assert!(!raw.raw.apply);
}

#[test]
fn builders_chain() {
    let mut filter: Filter<u32> = Filter::new();
    filter
        .on_init(|_| Ok(()))
        .on_check(|_, payload, _, _| Checked { payload, result: Ok(true) })
        .on_apply(upper)
        .attributes("filter=upper")
        .unwrap()
        .on_shutdown(|_| Ok(()));
    let raw = filter.raw();
    assert!(raw.raw.initialize && raw.raw.check && raw.raw.stream && raw.raw.shutdown);
    assert_eq!(raw.raw.attributes.as_deref(), Some(&b"filter=upper\0"[..]));
}

#[test]
fn attributes_are_copied_and_replaced() {
    let mut filter: Filter<u32> = Filter::new();
    filter.attributes("filter=one").unwrap();
    assert_eq!(filter.raw().raw.attributes.as_deref(), Some(&b"filter=one\0"[..]));
    filter.attributes("filter=two text").unwrap();
    assert_eq!(filter.raw().raw.attributes.as_deref(), Some(&b"filter=two text\0"[..]));
    filter.attributes("").unwrap();
    assert_eq!(filter.raw().raw.attributes.as_deref(), Some(&b"\0"[..]));
}

#[test]
fn attributes_with_nul_are_refused_and_change_nothing() {
    let mut filter: Filter<u32> = Filter::new();
    filter.attributes("filter=keep").unwrap();
    let e = filter.attributes("filter=\0bad").err().unwrap();
    assert_eq!(e.raw_code(), CODE_ERROR);
    assert_eq!(filter.raw().raw.attributes.as_deref(), Some(&b"filter=keep\0"[..]));
}

#[test]
fn register_encodes_the_name_and_installs_cleanup() {
    let mut filter: Filter<u32> = Filter::new();
    filter.on_apply(upper).attributes("filter=upper").unwrap();
    let reg = filter.register("upper", 100).unwrap();
    assert_eq!(reg.name, b"upper\0".to_vec());
    assert_eq!(reg.priority, 100);
    let raw = reg.filter.raw();
    assert!(raw.cleanup.is_some());
    assert!(raw.raw.cleanup && raw.raw.stream && !raw.raw.apply);
    assert_eq!(raw.raw.attributes.as_deref(), Some(&b"filter=upper\0"[..]));
    assert!(on_cleanup(&reg.filter, Some(Box::new(3))));
    assert!(on_cleanup(&reg.filter, None));
}

#[test]
fn register_keeps_an_installed_cleanup() {
    let seen = Cell::new(None);
    let mut filter: Filter<u32> = Filter::new();
    filter.on_cleanup(|_, payload| {
        seen.set(payload.map(|b| *b));
        Err(Error::new(-5, "cleanup failed"))
    });
    let reg = filter.register("keeper", -3).unwrap();
    assert_eq!(reg.priority, -3);
    assert!(!on_cleanup(&reg.filter, Some(Box::new(11))));
    assert_eq!(seen.get(), Some(11));
}

#[test]
fn register_refuses_a_name_with_nul() {
    let filter: Filter<u32> = Filter::new();
    let e = filter.register("up\0per", 0).err().unwrap();
    assert_eq!(e.raw_code(), CODE_ERROR);
}

#[test]
fn outcome_codes_follow_the_table() {
    assert_eq!(unit_code(&Some(Ok(()))), 0);
    assert_eq!(unit_code(&Some(Err(Error::new(-12, "x")))), -12);
    assert_eq!(unit_code(&None), -1);
    assert_eq!(bool_code(&Some(Ok(true))), 0);
    assert_eq!(bool_code(&Some(Ok(false))), -30);
    assert_eq!(bool_code(&Some(Ok(false))), CODE_PASSTHROUGH);
    assert_eq!(bool_code(&Some(Err(Error::new(-7, "x")))), -7);
    assert_eq!(bool_code(&Some(Err(Error::new(5, "x")))), 5);
    assert_eq!(bool_code(&None), -1);
}

#[test]
fn entry_points_without_callbacks_take_their_defaults() {
    let filter: Filter<u32> = Filter::new();
    let src = smudge_source("a.txt");
    assert_eq!(on_init(&filter), 0);
    assert_eq!(on_shutdown(&filter), 0);
    let mut slot = Some(Box::new(1u32));
    assert_eq!(on_check(&filter, &mut slot, &src, None), CODE_PASSTHROUGH);
    assert_eq!(slot, Some(Box::new(1)));
    let from = FilterBuf::from_raw(Some(b"in".to_vec()));
    let mut to = FilterBuf::from_raw(Some(b"out".to_vec()));
    assert_eq!(on_apply(&filter, &mut slot, &mut to, &from, &src), 0);
    assert_eq!(to.as_bytes(), b"out");
    assert_eq!(slot, Some(Box::new(1)));
    assert!(on_cleanup(&filter, slot));
}

#[test]
fn init_and_shutdown_report_the_callback_result() {
    let calls = Cell::new(0u32);
    let mut filter: Filter<u32> = Filter::new();
    filter
        .on_init(|raw| {
            calls.set(calls.get() + 1);
            assert!(raw.initialize);
            Ok(())
        })
        .on_shutdown(|_| Err(Error::new(-9, "late")));
    assert_eq!(on_init(&filter), 0);
    assert_eq!(on_init(&filter), 0);
    assert_eq!(calls.get(), 2);
    assert_eq!(on_shutdown(&filter), -9);
}

#[test]
fn check_gets_source_and_attribute_value() {
    let mut filter: Filter<u32> = Filter::new();
    filter.on_check(|_, payload, src, attr| {
        assert_eq!(src.path_bytes(), Some(&b"a.txt"[..]));
        Checked { payload, result: Ok(attr == Some("yes")) }
    });
    let src = smudge_source("a.txt");
    let mut slot = None;
    assert_eq!(on_check(&filter, &mut slot, &src, Some("yes")), 0);
    assert_eq!(on_check(&filter, &mut slot, &src, Some("no")), CODE_PASSTHROUGH);
    assert_eq!(on_check(&filter, &mut slot, &src, None), CODE_PASSTHROUGH);
}

#[test]
fn check_error_travels_under_its_code_and_keeps_the_cell() {
    let mut filter: Filter<u32> = Filter::new();
    filter.on_check(|_, mut payload, _, _| {
        payload.replace(8);
        Checked { payload, result: Err(Error::new(-22, "no")) }
    });
    let mut slot = None;
    assert_eq!(on_check(&filter, &mut slot, &smudge_source("a"), None), -22);
    assert_eq!(slot, Some(Box::new(8)));
}

#[test]
fn each_entry_point_calls_its_callback_once() {
    let log = RefCell::new(Vec::new());
    let mut filter: Filter<u32> = Filter::new();
    filter
        .on_check(|_, payload, _, _| {
            log.borrow_mut().push("check");
            Checked { payload, result: Ok(true) }
        })
        .on_apply(|raw, payload, to, from, src| {
            log.borrow_mut().push("apply");
            upper(raw, payload, to, from, src)
        })
        .on_cleanup(|_, _| {
            log.borrow_mut().push("cleanup");
            Ok(())
        });
    let out = filter_once(&filter, &smudge_source("a.txt"), b"abc").unwrap();
    assert_eq!(out, b"ABC");
    assert_eq!(*log.borrow(), vec!["check", "apply", "cleanup"]);
}

#[test]
fn register_and_smudge_round_trip() {
    let mut filter: Filter<u32> = Filter::new();
    filter.on_apply(upper).attributes("filter=upper").unwrap();
    let reg = filter.register("upper", 0).unwrap();
    let out = filter_once(&reg.filter, &smudge_source("a.txt"), b"abc").unwrap();
    assert_eq!(out, b"ABC");
}

#[test]
fn declined_check_passes_content_through() {
    let applied = Cell::new(false);
    let mut filter: Filter<u32> = Filter::new();
    filter
        .on_check(|_, payload, _, _| Checked { payload, result: Ok(false) })
        .on_apply(|raw, payload, to, from, src| {
            applied.set(true);
            upper(raw, payload, to, from, src)
        })
        .attributes("filter=upper")
        .unwrap();
    let reg = filter.register("upper", 0).unwrap();
    let out = filter_once(&reg.filter, &smudge_source("a.txt"), b"abc").unwrap();
    assert_eq!(out, b"abc");
    assert!(!applied.get());
}

#[test]
fn declined_apply_passes_content_through() {
    let mut filter: Filter<u32> = Filter::new();
    filter.on_apply(|_, payload, mut to, _, _| {
        to.as_allocated_vec().extend_from_slice(b"discarded");
        Applied { payload, to, result: Ok(false) }
    });
    let src = smudge_source("a.txt");
    let from = FilterBuf::from_raw(Some(b"abc".to_vec()));
    let mut to = FilterBuf::from_raw(None);
    let mut slot = None;
    assert_eq!(on_apply(&filter, &mut slot, &mut to, &from, &src), CODE_PASSTHROUGH);
    assert_eq!(filter_once(&filter, &src, b"abc").unwrap(), b"abc");
}

#[test]
fn payload_continuity() {
    let cleaned = Cell::new(None);
    let mut filter: Filter<u32> = Filter::new();
    filter
        .on_check(|_, mut payload, _, _| {
            payload.replace(42u32);
            Checked { payload, result: Ok(true) }
        })
        .on_apply(|_, payload, mut to, _, _| {
            let text = payload.inner().map(|v| v.to_string()).unwrap_or_default();
            to.as_allocated_vec().extend_from_slice(text.as_bytes());
            Applied { payload, to, result: Ok(true) }
        })
        .on_cleanup(|_, payload| {
            cleaned.set(Some(payload.map(|b| *b)));
            Ok(())
        });
    let out = filter_once(&filter, &smudge_source("a.txt"), b"abc").unwrap();
    assert_eq!(out, b"42");
    assert_eq!(cleaned.get(), Some(Some(42u32)));
}

#[test]
fn cleanup_gets_absence_when_nothing_was_installed() {
    let cleaned = Cell::new(None);
    let mut filter: Filter<u32> = Filter::new();
    filter.on_apply(upper).on_cleanup(|_, payload| {
        cleaned.set(Some(payload.map(|b| *b)));
        Ok(())
    });
    filter_once(&filter, &smudge_source("a.txt"), b"abc").unwrap();
    assert_eq!(cleaned.get(), Some(None));
}

#[test]
fn cleanup_gets_the_very_payload_that_was_installed() {
    let installed = Cell::new(0usize);
    let received = Cell::new(0usize);
    let mut filter: Filter<Vec<u8>> = Filter::new();
    filter
        .on_check(|_, mut payload, _, _| {
            payload.replace(vec![1, 2, 3]);
            installed.set(payload.inner().map(|b| b.as_ptr() as usize).unwrap());
            Checked { payload, result: Ok(true) }
        })
        .on_cleanup(|_, payload| {
            let payload = payload.unwrap();
            assert_eq!(*payload, vec![1, 2, 3]);
            received.set(payload.as_ptr() as usize);
            Ok(())
        });
    filter_once(&filter, &smudge_source("a.txt"), b"abc").unwrap();
    assert_ne!(installed.get(), 0);
    assert_eq!(installed.get(), received.get());
}

#[test]
fn apply_may_take_the_payload() {
    let mut filter: Filter<u32> = Filter::new();
    filter.on_apply(|_, mut payload, to, _, _| {
        assert_eq!(payload.take(), Some(Box::new(4)));
        Applied { payload, to, result: Ok(true) }
    });
    let mut slot = Some(Box::new(4u32));
    let from = FilterBuf::from_raw(None);
    let mut to = FilterBuf::from_raw(None);
    assert_eq!(on_apply(&filter, &mut slot, &mut to, &from, &smudge_source("a")), 0);
    assert_eq!(slot, None);
}

#[test]
fn apply_output_reaches_the_engine_in_sync() {
    let mut filter: Filter<u32> = Filter::new();
    filter.on_apply(|_, payload, mut to, from, _| {
        let out = to.as_allocated_vec();
        out.extend_from_slice(from.as_bytes());
        out.extend_from_slice(from.as_bytes());
        Applied { payload, to, result: Ok(true) }
    });
    let from = FilterBuf::from_raw(Some(b"xy".to_vec()));
    let mut to = FilterBuf::from_raw(Some(b"old:".to_vec()));
    let mut slot = None;
    assert_eq!(on_apply(&filter, &mut slot, &mut to, &from, &smudge_source("a")), 0);
    assert_eq!(to.as_bytes(), b"old:xyxy");
    let (descriptor, bytes) = to.into_raw();
    assert!(descriptor.present);
    assert_eq!(descriptor.size, 8);
    assert_eq!(bytes.unwrap(), b"old:xyxy");
    assert_eq!(from.as_bytes(), b"xy");
}

#[test]
fn error_code_passthrough() {
    let mut filter: Filter<u32> = Filter::new();
    filter.on_apply(|_, payload, to, _, _| {
        Applied { payload, to, result: Err(Error::new(-7, "refused")) }
    });
    let src = smudge_source("a.txt");
    assert_eq!(filter_once(&filter, &src, b"abc"), Err(-7));
    let from = FilterBuf::from_raw(Some(b"abc".to_vec()));
    let mut to = FilterBuf::from_raw(None);
    let mut slot = None;
    assert_eq!(on_apply(&filter, &mut slot, &mut to, &from, &src), -7);
}

#[test]
fn captured_panic_is_the_generic_failure() {
    assert_eq!(unit_code(&None), -1);
    assert_eq!(bool_code(&None), -1);
    assert_eq!(bool_code(&None), CODE_ERROR);
    let mut filter: Filter<u32> = Filter::new();
    filter.on_apply(upper);
    assert_eq!(filter_once(&filter, &smudge_source("a.txt"), b"fresh").unwrap(), b"FRESH");
}
