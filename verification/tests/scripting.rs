use bevy_rhai::binding::{BindingRegistry, NativeState, TypeBinding};
use bevy_rhai::bridge::{tick, TickReport};
use bevy_rhai::cache::{AssetCache, LoadState};
use bevy_rhai::context::ExecutionContext;
use bevy_rhai::error::ExecutionError;
use bevy_rhai::reload::HotReloadMonitor;
use bevy_rhai::scope::StandardScope;
use bevy_rhai::value::ScriptValue;
use bevy_rhai::{ScriptLoader, StandardEngine, StandardScript, StandardScriptPlugin};

fn counter_registry() -> BindingRegistry {
    let mut registry = BindingRegistry::new();
    let mut binding = TypeBinding::new("counter");
    assert!(binding.add_property("count"));
    assert!(registry.register(binding));
    registry
}

fn counter_state(count: i64) -> NativeState {
    let mut state = NativeState::new("counter");
    state.set_field("count", ScriptValue::Int(count));
    state
}

fn ready_cache(source: &str) -> (AssetCache, bevy_rhai::cache::AssetHandle) {
    let engine = rhai::Engine::new();
    let mut cache = AssetCache::new();
    let handle = cache.load("scripts/counter.rhai");
    let monitor = HotReloadMonitor;
    monitor
        .recompile(&mut cache, &engine, handle, source)
        .expect("source should compile");
    (cache, handle)
}

#[test]
fn test_compile_valid_source() {
    let loader: ScriptLoader<StandardScript> = StandardScriptPlugin.loader();
    assert!(loader.compile("let x = 1;").is_ok());
}

#[test]
fn test_compile_error_reports_message() {
    let loader = ScriptLoader::<StandardScript>::make_default();
    let err = loader.compile("let = ;").unwrap_err();
    assert!(!err.message.is_empty());
}

#[test]
fn test_loader_extensions() {
    let loader = ScriptLoader::<StandardScript>::new()
        .add_extension("rhai")
        .add_extensions(&vec!["script", "rs2"]);
    assert_eq!(loader.extensions(), &vec!["rhai", "script", "rs2"]);
    let default_loader = ScriptLoader::<StandardScript>::make_default();
    assert_eq!(default_loader.extensions(), &vec!["rhai"]);
    let default_loader: ScriptLoader<StandardScript> = Default::default();
    assert_eq!(default_loader.extensions(), &vec!["rhai"]);
}

#[test]
fn test_scope_bind_read_round_trip() {
    let mut scope = StandardScope::new();
    scope.bind("count", ScriptValue::Int(5));
    scope.bind("name", ScriptValue::Str("hero".to_owned()));
    assert_eq!(scope.read("count"), Some(ScriptValue::Int(5)));
    assert_eq!(scope.read_int("count"), Some(5));
    assert_eq!(scope.read_str("name"), Some("hero".to_owned()));
    scope.bind("count", ScriptValue::Int(6));
    assert_eq!(scope.read_int("count"), Some(6));
    assert_eq!(scope.len(), 2);
}

#[test]
fn test_scope_read_typed_mismatch() {
    let mut scope = StandardScope::new();
    scope.bind("flag", ScriptValue::Bool(true));
    assert_eq!(scope.read_int("flag"), None);
    assert_eq!(scope.read_bool("flag"), Some(true));
    assert_eq!(scope.read("absent"), None);
    assert_eq!(scope.read_int("absent"), None);
}

#[test]
fn test_with_scope_binds_in_order() {
    let scope = StandardScope::with_scope(vec![
        ("a".to_owned(), ScriptValue::Int(1)),
        ("b".to_owned(), ScriptValue::Int(2)),
        ("a".to_owned(), ScriptValue::Int(3)),
    ]);
    assert_eq!(scope.len(), 2);
    assert_eq!(scope.read_int("a"), Some(3));
    assert_eq!(scope.read_int("b"), Some(2));
}

#[test]
fn test_round_trip_identity_empty_script() {
    let registry = counter_registry();
    let (cache, handle) = ready_cache("");
    let mut ctx = ExecutionContext::new_raw();
    let mut state = counter_state(5);
    let report = tick(&mut ctx, &cache, handle, &mut state, &registry);
    assert_eq!(report, TickReport::Completed);
    assert_eq!(state.field("count"), Some(ScriptValue::Int(5)));
}

#[test]
fn test_marshaled_values_round_trip() {
    let registry = counter_registry();
    let (cache, handle) = ready_cache("");
    let mut ctx = ExecutionContext::new();
    ctx.bind("flag", ScriptValue::Bool(true));
    ctx.bind("name", ScriptValue::Str("hero".to_owned()));
    ctx.bind("nothing", ScriptValue::Unit);
    let mut state = counter_state(9);
    let report = tick(&mut ctx, &cache, handle, &mut state, &registry);
    assert_eq!(report, TickReport::Completed);
    assert_eq!(ctx.read_bool("flag"), Some(true));
    assert_eq!(ctx.read_str("name"), Some("hero".to_owned()));
    assert_eq!(ctx.read("nothing"), Some(ScriptValue::Unit));
    assert_eq!(ctx.read_int("count"), Some(9));
}

#[test]
fn test_increment_n_ticks() {
    let registry = counter_registry();
    let (cache, handle) = ready_cache("count += 1;");
    let mut ctx = ExecutionContext::new();
    let mut state = counter_state(10);
    for _ in 0..5 {
        let report = tick(&mut ctx, &cache, handle, &mut state, &registry);
        assert_eq!(report, TickReport::Completed);
    }
    assert_eq!(state.field("count"), Some(ScriptValue::Int(15)));
}

#[test]
fn test_rollback_on_execution_error() {
    let registry = counter_registry();
    let (cache, handle) = ready_cache("count += 1; count += no_such_variable;");
    let mut ctx = ExecutionContext::new();
    let mut state = counter_state(7);
    let report = tick(&mut ctx, &cache, handle, &mut state, &registry);
    match report {
        TickReport::Faulted(ExecutionError::Runtime { message }) => {
            assert!(!message.is_empty());
        }
        other => panic!("expected a runtime fault, got {:?}", other),
    }
    assert_eq!(state.field("count"), Some(ScriptValue::Int(7)));
}

#[test]
fn test_rollback_on_shape_mismatch() {
    let registry = counter_registry();
    let (cache, handle) = ready_cache("count = true;");
    let mut ctx = ExecutionContext::new();
    let mut state = counter_state(3);
    let report = tick(&mut ctx, &cache, handle, &mut state, &registry);
    match report {
        TickReport::Faulted(ExecutionError::BindingMismatch { .. }) => {}
        other => panic!("expected a shape mismatch, got {:?}", other),
    }
    assert_eq!(state.field("count"), Some(ScriptValue::Int(3)));
}

#[test]
fn test_mismatch_on_unmarshalable_value() {
    let registry = counter_registry();
    let (cache, handle) = ready_cache("count = [1, 2];");
    let mut ctx = ExecutionContext::new();
    let mut state = counter_state(3);
    let report = tick(&mut ctx, &cache, handle, &mut state, &registry);
    match report {
        TickReport::Faulted(ExecutionError::BindingMismatch { .. }) => {}
        other => panic!("expected a shape mismatch, got {:?}", other),
    }
    assert_eq!(state.field("count"), Some(ScriptValue::Int(3)));
}

#[test]
fn test_mismatch_on_unregistered_type() {
    let registry = BindingRegistry::new();
    let (cache, handle) = ready_cache("");
    let mut ctx = ExecutionContext::new();
    let mut state = counter_state(4);
    let report = tick(&mut ctx, &cache, handle, &mut state, &registry);
    match report {
        TickReport::Faulted(ExecutionError::BindingMismatch { message }) => {
            assert!(!message.is_empty());
        }
        other => panic!("expected a binding mismatch, got {:?}", other),
    }
    assert_eq!(state.field("count"), Some(ScriptValue::Int(4)));
}

#[test]
fn test_mismatch_on_missing_property() {
    let registry = counter_registry();
    let (cache, handle) = ready_cache("");
    let mut ctx = ExecutionContext::new();
    let mut state = NativeState::new("counter");
    let report = tick(&mut ctx, &cache, handle, &mut state, &registry);
    match report {
        TickReport::Faulted(ExecutionError::BindingMismatch { .. }) => {}
        other => panic!("expected a binding mismatch, got {:?}", other),
    }
    assert_eq!(state.field("count"), None);
}

#[test]
fn test_not_ready_skips_execution() {
    let registry = counter_registry();
    let mut cache = AssetCache::new();
    let handle = cache.load("scripts/unready.rhai");
    let mut ctx = ExecutionContext::new();
    let mut state = counter_state(2);
    let report = tick(&mut ctx, &cache, handle, &mut state, &registry);
    assert_eq!(report, TickReport::NotReady);
    assert_eq!(state.field("count"), Some(ScriptValue::Int(2)));
    assert_eq!(ctx.read_int("count"), Some(2));
}

#[test]
fn test_isolation_of_untouched_entries() {
    let mut registry = counter_registry();
    let mut extra = TypeBinding::new("unused");
    assert!(extra.add_function("helper"));
    assert!(registry.register(extra));
    let (cache, handle) = ready_cache("count += 1;");
    let mut ctx = ExecutionContext::new();
    ctx.bind("keep", ScriptValue::Str("untouched".to_owned()));
    let mut state = counter_state(0);
    state.set_field("hidden", ScriptValue::Int(99));
    let report = tick(&mut ctx, &cache, handle, &mut state, &registry);
    assert_eq!(report, TickReport::Completed);
    assert_eq!(ctx.read_str("keep"), Some("untouched".to_owned()));
    assert_eq!(state.field("count"), Some(ScriptValue::Int(1)));
    assert_eq!(state.field("hidden"), Some(ScriptValue::Int(99)));
}

#[test]
fn test_scope_persists_across_ticks() {
    let registry = counter_registry();
    let (cache, handle) = ready_cache("count += 1; let marker = 42;");
    let mut ctx = ExecutionContext::new();
    let mut state = counter_state(0);
    let report = tick(&mut ctx, &cache, handle, &mut state, &registry);
    assert_eq!(report, TickReport::Completed);
    assert_eq!(ctx.read_int("marker"), Some(42));
    let report = tick(&mut ctx, &cache, handle, &mut state, &registry);
    assert_eq!(report, TickReport::Completed);
    assert_eq!(state.field("count"), Some(ScriptValue::Int(2)));
    assert_eq!(ctx.read_int("marker"), Some(42));
}

#[test]
fn test_context_isolation() {
    let registry = counter_registry();
    let (cache, handle) = ready_cache("count += 1;");
    let mut ctx1 = ExecutionContext::new();
    let mut ctx2 = ExecutionContext::new();
    ctx1.bind("counter", ScriptValue::Int(1));
    let mut state1 = counter_state(0);
    let mut state2 = counter_state(100);
    let report = tick(&mut ctx1, &cache, handle, &mut state1, &registry);
    assert_eq!(report, TickReport::Completed);
    assert_eq!(ctx2.read("counter"), None);
    assert_eq!(ctx2.read("count"), None);
    let report = tick(&mut ctx2, &cache, handle, &mut state2, &registry);
    assert_eq!(report, TickReport::Completed);
    assert_eq!(state1.field("count"), Some(ScriptValue::Int(1)));
    assert_eq!(state2.field("count"), Some(ScriptValue::Int(101)));
    assert_eq!(ctx2.read("counter"), None);
    assert_eq!(ctx1.read_int("count"), Some(1));
}

#[test]
fn test_stale_serving_on_failed_reload() {
    let registry = counter_registry();
    let engine = rhai::Engine::new();
    let mut cache = AssetCache::new();
    let handle = cache.load("scripts/counter.rhai");
    let monitor = HotReloadMonitor;
    monitor
        .recompile(&mut cache, &engine, handle, "count += 1;")
        .expect("first source should compile");
    assert_eq!(cache.state(handle), Some(LoadState::Ready));

    let mut ctx = ExecutionContext::new();
    let mut state = counter_state(0);
    assert_eq!(
        tick(&mut ctx, &cache, handle, &mut state, &registry),
        TickReport::Completed
    );
    assert_eq!(state.field("count"), Some(ScriptValue::Int(1)));

    monitor.on_asset_changed(&mut cache, handle);
    assert_eq!(cache.state(handle), Some(LoadState::Compiling));
    let err = monitor
        .recompile(&mut cache, &engine, handle, "let = broken ;")
        .unwrap_err();
    assert!(!err.message.is_empty());
    assert_eq!(cache.state(handle), Some(LoadState::Failed));

    // The old executable is still served: the next tick keeps incrementing.
    assert_eq!(
        tick(&mut ctx, &cache, handle, &mut state, &registry),
        TickReport::Completed
    );
    assert_eq!(state.field("count"), Some(ScriptValue::Int(2)));
}

#[test]
fn test_cache_load_idempotent() {
    let mut cache = AssetCache::new();
    let a = cache.load("scripts/a.rhai");
    let b = cache.load("scripts/b.rhai");
    let a_again = cache.load("scripts/a.rhai");
    assert_eq!(a, a_again);
    assert_ne!(a, b);
    assert_eq!(cache.state(a), Some(LoadState::Unloaded));
    assert!(cache.get(a).is_none());
}

#[test]
fn test_unload_is_terminal() {
    let engine = rhai::Engine::new();
    let mut cache = AssetCache::new();
    let handle = cache.load("scripts/gone.rhai");
    let monitor = HotReloadMonitor;
    monitor
        .recompile(&mut cache, &engine, handle, "let x = 1;")
        .expect("source should compile");
    assert!(cache.get(handle).is_some());
    cache.unload(handle);
    assert!(cache.get(handle).is_none());
    assert_eq!(cache.state(handle), Some(LoadState::Unloaded));
}

#[test]
fn test_registry_rejects_duplicate_type() {
    let mut registry = BindingRegistry::new();
    let mut first = TypeBinding::new("counter");
    assert!(first.add_property("count"));
    assert!(registry.register(first));
    let second = TypeBinding::new("counter");
    assert!(!registry.register(second));
    assert!(registry.binding("counter").is_some());
    assert!(registry.binding("unknown").is_none());
}

#[test]
fn test_binding_rejects_duplicate_names() {
    let mut binding = TypeBinding::new("counter");
    assert!(binding.add_property("count"));
    assert!(!binding.add_property("count"));
    assert!(binding.add_property("step"));
    assert_eq!(binding.property_count(), 2);
    assert!(binding.add_function("reset"));
    assert!(!binding.add_function("reset"));
}

#[test]
fn test_compile_error_carries_location() {
    let engine = rhai::Engine::new();
    let mut cache = AssetCache::new();
    let handle = cache.load("scripts/bad.rhai");
    let monitor = HotReloadMonitor;
    let err = monitor
        .recompile(&mut cache, &engine, handle, "\nlet = ;")
        .unwrap_err();
    assert_eq!(err.line, Some(2));
}

#[test]
fn test_rollback_on_overflow() {
    let registry = counter_registry();
    let (cache, handle) = ready_cache("count += 1;");
    let mut ctx = ExecutionContext::new();
    let mut state = counter_state(i64::MAX);
    let report = tick(&mut ctx, &cache, handle, &mut state, &registry);
    match report {
        TickReport::Faulted(ExecutionError::Runtime { .. }) => {}
        other => panic!("expected a runtime fault on overflow, got {:?}", other),
    }
    assert_eq!(state.field("count"), Some(ScriptValue::Int(i64::MAX)));
}

#[test]
fn test_standard_engine_wraps_runtime() {
    let engine = StandardEngine::with_engine(rhai::Engine::new());
    let mut cache = AssetCache::new();
    let handle = cache.load("scripts/wrapped.rhai");
    let monitor = HotReloadMonitor;
    monitor
        .recompile(&mut cache, engine.engine(), handle, "let x = 1;")
        .expect("source should compile");
    assert_eq!(cache.state(handle), Some(LoadState::Ready));
}

#[test]
fn test_context_runtime_config_is_per_context() {
    // A raw runtime has no packages, so the same executable that completes in
    // a fully equipped context faults in a raw one when it calls a package
    // function.
    let registry = counter_registry();
    let (cache, handle) = ready_cache("count += abs(1);");
    let mut full = ExecutionContext::new();
    let mut raw = ExecutionContext::new_raw();
    let mut state_full = counter_state(0);
    let mut state_raw = counter_state(0);
    assert_eq!(
        tick(&mut full, &cache, handle, &mut state_full, &registry),
        TickReport::Completed
    );
    assert_eq!(state_full.field("count"), Some(ScriptValue::Int(1)));
    match tick(&mut raw, &cache, handle, &mut state_raw, &registry) {
        TickReport::Faulted(ExecutionError::Runtime { .. }) => {}
        other => panic!("expected a runtime fault in the raw context, got {:?}", other),
    }
    assert_eq!(state_raw.field("count"), Some(ScriptValue::Int(0)));
}

#[test]
fn test_bind_preserves_insertion_order() {
    let mut scope = StandardScope::new();
    scope.bind("a", ScriptValue::Int(1));
    scope.bind("b", ScriptValue::Int(2));
    scope.bind("a", ScriptValue::Int(3));
    let (name, value) = scope.entry_at(0);
    assert_eq!(name, "a");
    assert_eq!(value, &ScriptValue::Int(3));
    let (name, value) = scope.entry_at(1);
    assert_eq!(name, "b");
    assert_eq!(value, &ScriptValue::Int(2));
}

#[test]
fn test_change_note_on_unloaded_entry() {
    let mut cache = AssetCache::new();
    let handle = cache.load("scripts/never_compiled.rhai");
    let monitor = HotReloadMonitor;
    monitor.on_asset_changed(&mut cache, handle);
    assert_eq!(cache.state(handle), Some(LoadState::Unloaded));
}

#[test]
fn test_loader_with_engine_uses_given_runtime() {
    let mut engine = rhai::Engine::new_raw();
    engine.disable_symbol("let");
    let loader = ScriptLoader::<StandardScript>::new().with_engine(engine);
    assert!(loader.compile("let x = 1;").is_err());
    let plain = ScriptLoader::<StandardScript>::make_default();
    assert!(plain.compile("let x = 1;").is_ok());
}

#[test]
fn test_context_with_engine_uses_given_runtime() {
    let registry = counter_registry();
    let (cache, handle) = ready_cache("count += abs(1);");
    let mut raw = ExecutionContext::with_engine(rhai::Engine::new_raw());
    let mut state_raw = counter_state(0);
    match tick(&mut raw, &cache, handle, &mut state_raw, &registry) {
        TickReport::Faulted(ExecutionError::Runtime { .. }) => {}
        other => panic!("expected a runtime fault in the raw context, got {:?}", other),
    }
    let mut full = ExecutionContext::with_engine(rhai::Engine::new());
    let mut state_full = counter_state(0);
    assert_eq!(
        tick(&mut full, &cache, handle, &mut state_full, &registry),
        TickReport::Completed
    );
    assert_eq!(state_full.field("count"), Some(ScriptValue::Int(1)));
}

#[test]
fn test_standard_script_compile_entry() {
    let engine = rhai::Engine::new();
    assert!(StandardScript::compile(&engine, "let x = 1;").is_ok());
    let err = StandardScript::compile(&engine, "let = ;").unwrap_err();
    assert!(!err.message.is_empty());
}
