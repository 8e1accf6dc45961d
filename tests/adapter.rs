use std::cell::Cell;

use js_plugin_adapter::adapter::{JsPluginAdapter, DEFAULT_PRIORITY};
use js_plugin_adapter::hooks::{ConfigError, HookKind, PluginDescription, Probe};
use js_plugin_adapter::update_modules::{
    merge_update_modules, PluginUpdateModulesHookParams, UpdateType,
};
use js_plugin_adapter::virtual_module::{
    ends_with, is_internal_virtual_module, starts_with, DYNAMIC_VIRTUAL_PREFIX,
    FARM_CSS_MODULES_SUFFIX, RUNTIME_SUFFIX,
};

fn bare(name: Probe<String>) -> PluginDescription<u32> {
    PluginDescription {
        name,
        priority: Probe::Absent,
        build_start: Probe::Absent,
        resolve: Probe::Absent,
        load: Probe::Absent,
        transform: Probe::Absent,
        build_end: Probe::Absent,
        finish: Probe::Absent,
        update_modules: Probe::Absent,
        plugin_cache_loaded: Probe::Absent,
        write_plugin_cache: Probe::Absent,
    }
}

fn named(name: &str) -> PluginDescription<u32> {
    bare(Probe::Found(name.to_string()))
}

fn with_all_hooks() -> JsPluginAdapter<u32> {
    let mut d = named("all");
    d.build_start = Probe::Found(1);
    d.resolve = Probe::Found(2);
    d.load = Probe::Found(3);
    d.transform = Probe::Found(4);
    d.build_end = Probe::Found(5);
    d.finish = Probe::Found(6);
    d.update_modules = Probe::Found(7);
    d.plugin_cache_loaded = Probe::Found(8);
    d.write_plugin_cache = Probe::Found(9);
    JsPluginAdapter::new(d).unwrap()
}

fn entries(paths: &[(&str, UpdateType)]) -> Vec<(String, UpdateType)> {
    paths.iter().map(|(p, k)| (p.to_string(), *k)).collect()
}

#[test]
fn markers_are_the_compiler_constants() {
    assert_eq!(DYNAMIC_VIRTUAL_PREFIX, "farm_dynamic_import_virtual_module:");
    assert_eq!(FARM_CSS_MODULES_SUFFIX, ".FARM_CSS_MODULES");
    assert_eq!(RUNTIME_SUFFIX, ".farm-runtime");
    assert_eq!(DEFAULT_PRIORITY, 100);
}

#[test]
fn prefix_and_suffix_checks() {
    assert!(starts_with("abc", "ab"));
    assert!(starts_with("abc", ""));
    assert!(!starts_with("ab", "abc"));
    assert!(!starts_with("xabc", "ab"));
    assert!(ends_with("abc", "bc"));
    assert!(ends_with("abc", "abc"));
    assert!(!ends_with("bc", "abc"));
    assert!(!ends_with("abcx", "bc"));
    assert!(ends_with("héllo", "llo"));
    assert!(starts_with("héllo", "hé"));
}

#[test]
fn internal_virtual_paths() {
    assert!(is_internal_virtual_module("farm_dynamic_import_virtual_module:./a.ts"));
    assert!(is_internal_virtual_module("/src/index.module.css.FARM_CSS_MODULES"));
    assert!(is_internal_virtual_module("@farmfe/runtime/src/module-system.ts.farm-runtime"));
    assert!(!is_internal_virtual_module("/src/index.ts"));
    assert!(!is_internal_virtual_module(""));
    assert!(!is_internal_virtual_module("x.farm-runtime.ts"));
    assert!(!is_internal_virtual_module("a.FARM-RUNTIME"));
    assert!(!is_internal_virtual_module("FARM_DYNAMIC_IMPORT_VIRTUAL_MODULE:a"));
    assert!(!is_internal_virtual_module("./farm_dynamic_import_virtual_module:a"));
    let a = JsPluginAdapter::new(named("p")).unwrap();
    assert!(a.is_internal_virtual_module("a.FARM_CSS_MODULES"));
    assert!(!a.is_internal_virtual_module("a.css"));
}

#[test]
fn internal_paths_never_reach_path_hooks() {
    let a = with_all_hooks();
    let calls = Cell::new(0u32);
    let hook = |_: &u32, p: &String| -> Result<Option<String>, String> {
        calls.set(calls.get() + 1);
        Ok(Some(format!("handled {}", p)))
    };
    for path in [
        "farm_dynamic_import_virtual_module:./lazy.ts",
        "/src/a.module.css.FARM_CSS_MODULES",
        "/runtime/index.ts.farm-runtime",
    ] {
        let param = path.to_string();
        assert_eq!(a.resolve(&param, path, hook), Ok(None));
        assert_eq!(a.load(&param, path, hook), Ok(None));
        assert_eq!(a.transform(&param, path, hook), Ok(None));
    }
    assert_eq!(calls.get(), 0);
    let param = "/src/index.ts".to_string();
    assert_eq!(a.resolve(&param, "/src/index.ts", hook), Ok(Some("handled /src/index.ts".to_string())));
    assert_eq!(calls.get(), 1);
}

#[test]
fn path_hooks_return_what_the_hook_returns() {
    let a = with_all_hooks();
    let param = 10u32;
    let seen = Cell::new(0u32);
    let hook = |h: &u32, p: &u32| -> Result<Option<u32>, String> {
        seen.set(*h);
        Ok(Some(*h * 100 + *p))
    };
    assert_eq!(a.resolve(&param, "a.ts", hook), Ok(Some(210)));
    assert_eq!(seen.get(), 2);
    assert_eq!(a.load(&param, "a.ts", hook), Ok(Some(310)));
    assert_eq!(seen.get(), 3);
    assert_eq!(a.transform(&param, "a.ts", hook), Ok(Some(410)));
    assert_eq!(seen.get(), 4);
    let declines = |_: &u32, _: &u32| -> Result<Option<u32>, String> { Ok(None) };
    assert_eq!(a.load(&param, "a.ts", declines), Ok(None));
    let fails = |_: &u32, _: &u32| -> Result<Option<u32>, String> { Err("boom".to_string()) };
    assert_eq!(a.transform(&param, "a.ts", fails), Err("boom".to_string()));
}

#[test]
fn missing_resolve_hook_is_never_handled() {
    let a = JsPluginAdapter::new(named("p")).unwrap();
    let calls = Cell::new(0u32);
    let hook = |_: &u32, _: &u32| -> Result<Option<u32>, String> {
        calls.set(calls.get() + 1);
        Ok(Some(1))
    };
    for path in ["", "a.ts", "/src/index.tsx", "farm_dynamic_import_virtual_module:x"] {
        assert_eq!(a.resolve(&0, path, hook), Ok(None));
    }
    assert_eq!(calls.get(), 0);
}

#[test]
fn priority_defaults_when_absent() {
    let a = JsPluginAdapter::new(named("p")).unwrap();
    assert_eq!(a.priority(), DEFAULT_PRIORITY);
    assert_eq!(a.priority(), 100);
    assert_eq!(a.name(), "p");
    let mut d = named("q");
    d.priority = Probe::Found(-5);
    assert_eq!(JsPluginAdapter::new(d).unwrap().priority(), -5);
    let mut d = named("q");
    d.priority = Probe::Mismatch("not a number".to_string());
    assert_eq!(JsPluginAdapter::new(d).unwrap().priority(), 100);
}

#[test]
fn missing_name_is_a_config_error() {
    let r = JsPluginAdapter::new(bare(Probe::Absent));
    assert_eq!(r.err(), Some(ConfigError::MissingField { field: "name".to_string() }));
    let r = JsPluginAdapter::new(bare(Probe::Mismatch("expected a string".to_string())));
    assert_eq!(
        r.err(),
        Some(ConfigError::InvalidField {
            field: "name".to_string(),
            detail: "expected a string".to_string()
        })
    );
}

#[test]
fn malformed_hook_is_a_config_error() {
    let mut d = named("p");
    d.load = Probe::Mismatch("not callable".to_string());
    d.finish = Probe::Mismatch("also not callable".to_string());
    assert_eq!(
        JsPluginAdapter::new(d).err(),
        Some(ConfigError::InvalidField {
            field: "load".to_string(),
            detail: "not callable".to_string()
        })
    );
    let mut d = bare(Probe::Absent);
    d.load = Probe::Mismatch("not callable".to_string());
    assert_eq!(
        JsPluginAdapter::new(d).err(),
        Some(ConfigError::MissingField { field: "name".to_string() })
    );
}

#[test]
fn hook_presence_follows_the_description() {
    let mut d = named("p");
    d.resolve = Probe::Found(2);
    d.write_plugin_cache = Probe::Found(9);
    let a = JsPluginAdapter::new(d).unwrap();
    assert!(a.has_hook(HookKind::Resolve));
    assert!(a.has_hook(HookKind::WritePluginCache));
    assert!(!a.has_hook(HookKind::Load));
    assert!(!a.has_hook(HookKind::BuildStart));
    let all = with_all_hooks();
    assert!(all.has_hook(HookKind::UpdateModules));
}

#[test]
fn field_names() {
    assert_eq!(HookKind::BuildStart.field_name(), "buildStart");
    assert_eq!(HookKind::Resolve.field_name(), "resolve");
    assert_eq!(HookKind::Load.field_name(), "load");
    assert_eq!(HookKind::Transform.field_name(), "transform");
    assert_eq!(HookKind::BuildEnd.field_name(), "buildEnd");
    assert_eq!(HookKind::Finish.field_name(), "finish");
    assert_eq!(HookKind::UpdateModules.field_name(), "updateModules");
    assert_eq!(HookKind::PluginCacheLoaded.field_name(), "pluginCacheLoaded");
    assert_eq!(HookKind::WritePluginCache.field_name(), "writePluginCache");
}

#[test]
fn lifecycle_hooks() {
    let a = with_all_hooks();
    let none = JsPluginAdapter::new(named("p")).unwrap();
    let seen = Cell::new(0u32);
    let ok = |h: &u32| -> Result<(), String> {
        seen.set(*h);
        Ok(())
    };
    let fails = |_: &u32| -> Result<(), String> { Err("hook failed".to_string()) };
    assert_eq!(a.build_start(ok), Ok(Some(())));
    assert_eq!(seen.get(), 1);
    assert_eq!(a.build_end(ok), Ok(Some(())));
    assert_eq!(seen.get(), 5);
    assert_eq!(a.finish(ok), Ok(Some(())));
    assert_eq!(seen.get(), 6);
    assert_eq!(a.build_start(fails), Err("hook failed".to_string()));
    assert_eq!(a.finish(fails), Err("hook failed".to_string()));
    assert_eq!(none.build_start(fails), Ok(None));
    assert_eq!(none.build_end(fails), Ok(None));
    assert_eq!(none.finish(fails), Ok(None));
}

#[test]
fn merge_keeps_order_and_drops_repeats() {
    let mut paths = entries(&[("a", UpdateType::Added), ("b", UpdateType::Removed)]);
    let extra = vec!["b".to_string(), "c".to_string(), "c".to_string(), "a".to_string()];
    merge_update_modules(&mut paths, &extra);
    assert_eq!(
        paths,
        entries(&[("a", UpdateType::Added), ("b", UpdateType::Removed), ("c", UpdateType::Updated)])
    );
    merge_update_modules(&mut paths, &extra);
    assert_eq!(paths.len(), 3);
    let mut empty = Vec::new();
    merge_update_modules(&mut empty, &vec!["x".to_string(), "y".to_string(), "x".to_string()]);
    assert_eq!(empty, entries(&[("x", UpdateType::Updated), ("y", UpdateType::Updated)]));
}

#[test]
fn update_modules_merges_hook_output() {
    let a = with_all_hooks();
    let mut params = PluginUpdateModulesHookParams {
        paths: entries(&[("a", UpdateType::Updated), ("b", UpdateType::Updated)]),
    };
    let hook = |_: &u32, p: &PluginUpdateModulesHookParams| -> Result<Option<Vec<String>>, String> {
        assert_eq!(p.paths.len(), 2);
        Ok(Some(vec!["b".to_string(), "c".to_string(), "c".to_string(), "a".to_string()]))
    };
    assert_eq!(a.update_modules(&mut params, hook), Ok(Some(())));
    let got: Vec<&str> = params.paths.iter().map(|(p, _)| p.as_str()).collect();
    assert_eq!(got, vec!["a", "b", "c"]);
    assert_eq!(params.paths[2].1, UpdateType::Updated);
}

#[test]
fn update_modules_without_hook_or_on_failure() {
    let original = entries(&[("a", UpdateType::Added)]);
    let mut params = PluginUpdateModulesHookParams { paths: original.clone() };
    let adds = |_: &u32, _: &PluginUpdateModulesHookParams| -> Result<Option<Vec<String>>, String> {
        Ok(Some(vec!["z".to_string()]))
    };
    let none = JsPluginAdapter::new(named("p")).unwrap();
    assert_eq!(none.update_modules(&mut params, adds), Ok(None));
    assert_eq!(params.paths, original);
    let a = with_all_hooks();
    let fails = |_: &u32, _: &PluginUpdateModulesHookParams| -> Result<Option<Vec<String>>, String> {
        Err("no".to_string())
    };
    assert_eq!(a.update_modules(&mut params, fails), Err("no".to_string()));
    assert_eq!(params.paths, original);
    let nothing = |_: &u32, _: &PluginUpdateModulesHookParams| -> Result<Option<Vec<String>>, String> {
        Ok(None)
    };
    assert_eq!(a.update_modules(&mut params, nothing), Ok(Some(())));
    assert_eq!(params.paths, original);
}

#[test]
fn cache_hooks() {
    let a = with_all_hooks();
    let none = JsPluginAdapter::new(named("p")).unwrap();
    let bytes = vec![1u8, 2, 3];
    let write = |_: &u32| -> Result<Option<Vec<u8>>, String> { Ok(Some(vec![9u8, 8, 7])) };
    assert_eq!(none.write_plugin_cache(write), Ok(None));
    assert_eq!(a.write_plugin_cache(write), Ok(Some(vec![9u8, 8, 7])));
    let write_nothing = |_: &u32| -> Result<Option<Vec<u8>>, String> { Ok(None) };
    assert_eq!(a.write_plugin_cache(write_nothing), Ok(None));
    let got = Cell::new(0usize);
    let loaded = |_: &u32, c: &Vec<u8>| -> Result<(), String> {
        got.set(c.len());
        assert_eq!(c, &vec![1u8, 2, 3]);
        Ok(())
    };
    assert_eq!(a.plugin_cache_loaded(&bytes, loaded), Ok(Some(())));
    assert_eq!(got.get(), 3);
    assert_eq!(none.plugin_cache_loaded(&bytes, loaded), Ok(None));
    let fails = |_: &u32, _: &Vec<u8>| -> Result<(), String> { Err("bad cache".to_string()) };
    assert_eq!(a.plugin_cache_loaded(&bytes, fails), Err("bad cache".to_string()));
}
