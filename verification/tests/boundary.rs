use neon::Env;
use neon::convert::{to_object, to_string};
use neon::scope::{
    ContextInternal, Handle, Host, ModuleContext, Scope, ScopeMetadata, Throw, initialize_module,
    resolve_boundary,
};
use neon::value::HostValue;

fn chars(s: &str) -> Vec<char> {
    s.chars().collect()
}

fn text_of(v: Vec<char>) -> String {
    v.into_iter().collect()
}

fn host() -> Host {
    Host {
        env: Env { id: 3 },
        regions: vec![],
        next_region: 1,
        enters: 0,
        exits: 0,
        pending: None,
        running: false,
    }
}

#[test]
fn region_exit_runs_once_for_plain_body() {
    let h0 = host();
    let (h1, r) = Scope::with(h0, |h: Host, _s| (h, 5u32));
    assert_eq!(r, 5);
    assert_eq!(h1.enters, 1);
    assert_eq!(h1.exits, 1);
    assert_eq!(h1.regions.len(), 0);
}

#[test]
fn region_exit_runs_once_for_failing_body() {
    let h0 = host();
    let (h1, r) = Scope::with(h0, |h: Host, _s| (h, Err::<u32, ()>(())));
    assert!(r.is_err());
    assert_eq!(h1.enters, 1);
    assert_eq!(h1.exits, 1);
    assert_eq!(h1.regions.len(), 0);
}

#[test]
fn nested_regions_exit_in_order() {
    let h0 = host();
    let (h1, _) = Scope::with(h0, |h: Host, _s| Scope::with(h, |h2: Host, _s2| (h2, ())));
    assert_eq!(h1.enters, 2);
    assert_eq!(h1.exits, 2);
    assert_eq!(h1.regions.len(), 0);
}

#[test]
fn scope_body_sees_fresh_active_region() {
    let h0 = host();
    let (_h1, seen) = Scope::with(h0, |h: Host, s: Scope| {
        let ok = s.metadata.active && h.regions.last() == Some(&s.region);
        (h, ok)
    });
    assert!(seen);
}

#[test]
fn host_exception_comes_back_as_typed_error() {
    let mut h = host();
    let _ = h.enter_region();
    let env = h.env;
    let (h1, r) = env.try_catch(h, |mut inner: Host| {
        inner.throw(HostValue::Text(chars("boom")));
        (inner, Err::<u32, Throw>(Throw))
    });
    match r {
        Err(handle) => match handle.value {
            HostValue::Text(m) => assert_eq!(text_of(m), "boom"),
            other => panic!("unexpected: {:?}", other),
        },
        Ok(_) => panic!("expected a captured exception"),
    }
    assert!(h1.pending.is_none());
}

#[test]
fn normal_completion_passes_through() {
    let mut h = host();
    let _ = h.enter_region();
    let env = h.env;
    let (h1, r) = env.try_catch(h, |inner: Host| (inner, Ok::<u32, Throw>(9)));
    assert_eq!(r.unwrap(), 9);
    assert!(h1.pending.is_none());
    assert_eq!(h1.regions.len(), 1);
}

#[test]
fn pending_exception_wins_over_returned_value() {
    let mut h = host();
    let _ = h.enter_region();
    h.throw(HostValue::Boolean(true));
    let (h1, r) = resolve_boundary(h, Ok::<u32, Throw>(5));
    assert!(matches!(r, Err(Handle { value: HostValue::Boolean(true), .. })));
    assert!(h1.pending.is_none());
}

#[test]
fn captured_handle_lives_in_innermost_region() {
    let mut h = host();
    let _ = h.enter_region();
    let top = h.enter_region();
    h.throw(HostValue::Null);
    let (_h1, r) = resolve_boundary(h, Err::<u32, Throw>(Throw));
    match r {
        Err(handle) => assert_eq!(handle.region, top),
        Ok(_) => panic!("expected a captured exception"),
    }
}

#[test]
fn initialize_module_sets_running_and_balances_regions() {
    let h0 = host();
    let exports = HostValue::Object(vec![]);
    let h1 = initialize_module(h0, exports, |h: Host, cx: ModuleContext| {
        assert!(cx.metadata.active);
        assert!(matches!(cx.exports.value, HostValue::Object(_)));
        assert!(h.regions.contains(&cx.exports.region));
        (h, Ok::<(), Throw>(()))
    });
    assert!(h1.running);
    assert_eq!(h1.enters, 1);
    assert_eq!(h1.exits, 1);
    assert_eq!(h1.regions.len(), 0);
}

#[test]
fn initialize_module_exits_region_when_init_fails() {
    let h0 = host();
    let h1 = initialize_module(h0, HostValue::Null, |h: Host, _cx| (h, Err::<(), Throw>(Throw)));
    assert!(h1.running);
    assert_eq!(h1.enters, 1);
    assert_eq!(h1.exits, 1);
}

#[test]
fn context_activity_flag_toggles() {
    let mut cx = ModuleContext {
        metadata: ScopeMetadata { env: Env { id: 3 }, active: true },
        exports: Handle { value: HostValue::Null, region: 1 },
    };
    assert!(cx.is_active());
    cx.check_active();
    cx.deactivate();
    assert!(!cx.is_active());
    cx.activate();
    assert!(cx.is_active());
    assert_eq!(cx.env().id, 3);
    assert!(cx.scope_metadata().active);
}

#[test]
fn object_coercion_refuses_null_and_undefined() {
    let mut out = HostValue::Null;
    assert!(!to_object(&mut out, Env { id: 0 }, HostValue::Null));
    assert!(!to_object(&mut out, Env { id: 0 }, HostValue::Undefined));
    assert!(to_object(&mut out, Env { id: 0 }, HostValue::Boolean(true)));
    assert!(matches!(out, HostValue::Boolean(true)));
}

#[test]
fn text_coercion_matches_host_wording() {
    let mut out: Vec<char> = Vec::new();
    assert!(to_string(&mut out, Env { id: 0 }, HostValue::Undefined));
    assert_eq!(text_of(out.clone()), "undefined");
    assert!(to_string(&mut out, Env { id: 0 }, HostValue::Null));
    assert_eq!(text_of(out.clone()), "null");
    assert!(to_string(&mut out, Env { id: 0 }, HostValue::Text(chars("hi"))));
    assert_eq!(text_of(out.clone()), "hi");
    assert!(to_string(&mut out, Env { id: 0 }, HostValue::Object(vec![])));
    assert_eq!(text_of(out.clone()), "[object Object]");
    assert!(!to_string(&mut out, Env { id: 0 }, HostValue::Symbol));
}

#[test]
fn env_round_trips_through_raw_form() {
    let e = Env::from(77u64);
    assert_eq!(e.to_raw(), 77);
}
