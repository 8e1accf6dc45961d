use vstd::prelude::*;

use crate::hooks::{
    is_invalid, is_missing, spec_field_name, ConfigError, HookKind, PluginDescription, Probe,
};
use crate::update_modules::{
    merge_update_modules, merged, paths_of, PluginUpdateModulesHookParams, UpdateType,
};
use crate::virtual_module::{is_internal_virtual, is_internal_virtual_module};

verus! {

/// The priority of a plugin whose description gives none.
pub const DEFAULT_PRIORITY: i32 = 100;

/// The hook handle that a probe yields, if it found one.
pub open spec fn found<H>(p: Probe<H>) -> Option<H> {
    match p {
        Probe::Found(h) => Some(h),
        _ => None,
    }
}

/// The first hook field of `d`, in reading order, that is present but malformed,
/// with the reason it could not be read.
pub open spec fn first_hook_error<H>(d: PluginDescription<H>) -> Option<(HookKind, Seq<char>)> {
    if d.build_start is Mismatch {
        Some((HookKind::BuildStart, d.build_start->Mismatch_0@))
    } else if d.resolve is Mismatch {
        Some((HookKind::Resolve, d.resolve->Mismatch_0@))
    } else if d.load is Mismatch {
        Some((HookKind::Load, d.load->Mismatch_0@))
    } else if d.transform is Mismatch {
        Some((HookKind::Transform, d.transform->Mismatch_0@))
    } else if d.build_end is Mismatch {
        Some((HookKind::BuildEnd, d.build_end->Mismatch_0@))
    } else if d.finish is Mismatch {
        Some((HookKind::Finish, d.finish->Mismatch_0@))
    } else if d.update_modules is Mismatch {
        Some((HookKind::UpdateModules, d.update_modules->Mismatch_0@))
    } else if d.plugin_cache_loaded is Mismatch {
        Some((HookKind::PluginCacheLoaded, d.plugin_cache_loaded->Mismatch_0@))
    } else if d.write_plugin_cache is Mismatch {
        Some((HookKind::WritePluginCache, d.write_plugin_cache->Mismatch_0@))
    } else {
        None
    }
}

/// The priority that a description asks for, or the default one.
pub open spec fn priority_of<H>(d: PluginDescription<H>) -> i32 {
    match d.priority {
        Probe::Found(p) => p,
        _ => DEFAULT_PRIORITY,
    }
}

/// What a hook that reports nothing back makes of its call: handled on success,
/// the hook's own error otherwise.
pub open spec fn handled<E>(res: Result<(), E>) -> Result<Option<()>, E> {
    match res {
        Ok(()) => Ok(Some(())),
        Err(e) => Err(e),
    }
}

/// What `update_modules` leaves behind once the hook returned `res`: on an
/// error, that error and the scheduled modules unchanged; otherwise handled, with
/// the returned paths merged after the scheduled ones and marked as updated.
pub open spec fn update_outcome<E>(
    before: PluginUpdateModulesHookParams,
    res: Result<Option<Vec<String>>, E>,
    after: PluginUpdateModulesHookParams,
    r: Result<Option<()>, E>,
) -> bool {
    match res {
        Err(e) => r == Err::<Option<()>, E>(e) && after.paths@ == before.paths@,
        Ok(extra) => {
            let added = match extra {
                Some(v) => v@.map_values(|s: String| s@),
                None => Seq::empty(),
            };
            &&& r == Ok::<Option<()>, E>(Some(()))
            &&& paths_of(after.paths@) == merged(paths_of(before.paths@), added)
            &&& after.paths@.subrange(0, before.paths@.len() as int) == before.paths@
            &&& forall|i: int|
                before.paths@.len() <= i < after.paths@.len() ==> #[trigger] after.paths@[i].1
                    == UpdateType::Updated
        },
    }
}

/// A plugin of the scripting side, seen through the pipeline's uniform plugin
/// interface. Which hooks it has is fixed when it is built.
pub struct JsPluginAdapter<H> {
    name: String,
    priority: i32,
    js_build_start_hook: Option<H>,
    js_resolve_hook: Option<H>,
    js_load_hook: Option<H>,
    js_transform_hook: Option<H>,
    js_build_end_hook: Option<H>,
    js_finish_hook: Option<H>,
    js_update_modules_hook: Option<H>,
    js_plugin_cache_loaded_hook: Option<H>,
    js_write_plugin_cache_hook: Option<H>,
}

fn take_hook<H>(probe: Probe<H>, kind: HookKind) -> (r: Result<Option<H>, ConfigError>)
    ensures
        probe is Mismatch ==> r is Err && is_invalid(
            r->Err_0,
            spec_field_name(kind),
            probe->Mismatch_0@,
        ),
        !(probe is Mismatch) ==> r == Ok::<Option<H>, ConfigError>(found(probe)),
{
    match probe {
        Probe::Absent => Ok(None),
        Probe::Found(h) => Ok(Some(h)),
        Probe::Mismatch(detail) => Err(
            ConfigError::InvalidField { field: kind.field_name().to_owned(), detail },
        ),
    }
}

impl<H> JsPluginAdapter<H> {
    pub closed spec fn spec_name(&self) -> Seq<char> {
        self.name@
    }

    pub closed spec fn spec_priority(&self) -> i32 {
        self.priority
    }

    /// The handle of the hook `kind`, if the plugin has it.
    pub closed spec fn hook(&self, kind: HookKind) -> Option<H> {
        match kind {
            HookKind::BuildStart => self.js_build_start_hook,
            HookKind::Resolve => self.js_resolve_hook,
            HookKind::Load => self.js_load_hook,
            HookKind::Transform => self.js_transform_hook,
            HookKind::BuildEnd => self.js_build_end_hook,
            HookKind::Finish => self.js_finish_hook,
            HookKind::UpdateModules => self.js_update_modules_hook,
            HookKind::PluginCacheLoaded => self.js_plugin_cache_loaded_hook,
            HookKind::WritePluginCache => self.js_write_plugin_cache_hook,
        }
    }

    /// The adapter that `d` describes: what a successful `new` returns.
    pub open spec fn describes(&self, d: PluginDescription<H>) -> bool {
        &&& d.name is Found
        &&& self.spec_name() == d.name->Found_0@
        &&& self.spec_priority() == priority_of(d)
        &&& forall|k: HookKind| #[trigger] self.hook(k) == found(d.probe(k))
    }

    /// Builds the adapter of a plugin description. The name is required, the
    /// priority falls back to the default, and each hook is optional; a field that
    /// is present but malformed is refused, the name first, then the hooks in
    /// reading order.
    pub fn new(desc: PluginDescription<H>) -> (r: Result<Self, ConfigError>)
        ensures
            desc.name is Absent ==> r is Err && is_missing(r->Err_0, "name"@),
            desc.name is Mismatch ==> r is Err && is_invalid(
                r->Err_0,
                "name"@,
                desc.name->Mismatch_0@,
            ),
            desc.name is Found ==> match first_hook_error(desc) {
                Some((k, detail)) => r is Err && is_invalid(r->Err_0, spec_field_name(k), detail),
                None => r is Ok && r->Ok_0.describes(desc),
            },
    {
        proof {
            reveal_strlit("name");
        }
        let name = match desc.name {
            Probe::Absent => {
                return Err(ConfigError::MissingField { field: "name".to_owned() });
            },
            Probe::Mismatch(detail) => {
                return Err(ConfigError::InvalidField { field: "name".to_owned(), detail });
            },
            Probe::Found(n) => n,
        };
        let priority = match desc.priority {
            Probe::Found(p) => p,
            _ => DEFAULT_PRIORITY,
        };
        let js_build_start_hook = match take_hook(desc.build_start, HookKind::BuildStart) {
            Ok(h) => h,
            Err(e) => return Err(e),
        };
        let js_resolve_hook = match take_hook(desc.resolve, HookKind::Resolve) {
            Ok(h) => h,
            Err(e) => return Err(e),
        };
        let js_load_hook = match take_hook(desc.load, HookKind::Load) {
            Ok(h) => h,
            Err(e) => return Err(e),
        };
        let js_transform_hook = match take_hook(desc.transform, HookKind::Transform) {
            Ok(h) => h,
            Err(e) => return Err(e),
        };
        let js_build_end_hook = match take_hook(desc.build_end, HookKind::BuildEnd) {
            Ok(h) => h,
            Err(e) => return Err(e),
        };
        let js_finish_hook = match take_hook(desc.finish, HookKind::Finish) {
            Ok(h) => h,
            Err(e) => return Err(e),
        };
        let js_update_modules_hook = match take_hook(desc.update_modules, HookKind::UpdateModules) {
            Ok(h) => h,
            Err(e) => return Err(e),
        };
        let js_plugin_cache_loaded_hook = match take_hook(desc.plugin_cache_loaded, HookKind::PluginCacheLoaded) {
            Ok(h) => h,
            Err(e) => return Err(e),
        };
        let js_write_plugin_cache_hook = match take_hook(desc.write_plugin_cache, HookKind::WritePluginCache) {
            Ok(h) => h,
            Err(e) => return Err(e),
        };
        let r = JsPluginAdapter {
            name,
            priority,
            js_build_start_hook,
            js_resolve_hook,
            js_load_hook,
            js_transform_hook,
            js_build_end_hook,
            js_finish_hook,
            js_update_modules_hook,
            js_plugin_cache_loaded_hook,
            js_write_plugin_cache_hook,
        };
        assert forall|k: HookKind| #[trigger] r.hook(k) == found(desc.probe(k)) by {}
        Ok(r)
    }

    fn slot(&self, kind: HookKind) -> (r: &Option<H>)
        ensures
            *r == self.hook(kind),
    {
        match kind {
            HookKind::BuildStart => &self.js_build_start_hook,
            HookKind::Resolve => &self.js_resolve_hook,
            HookKind::Load => &self.js_load_hook,
            HookKind::Transform => &self.js_transform_hook,
            HookKind::BuildEnd => &self.js_build_end_hook,
            HookKind::Finish => &self.js_finish_hook,
            HookKind::UpdateModules => &self.js_update_modules_hook,
            HookKind::PluginCacheLoaded => &self.js_plugin_cache_loaded_hook,
            HookKind::WritePluginCache => &self.js_write_plugin_cache_hook,
        }
    }

    /// Whether the plugin has the hook `kind`.
    pub fn has_hook(&self, kind: HookKind) -> (r: bool)
        ensures
            r == self.hook(kind) is Some,
    {
        self.slot(kind).is_some()
    }

    /// Whether `path` is a module that the compiler synthesized, which no hook of
    /// the plugin may see.
    pub fn is_internal_virtual_module(&self, path: &str) -> (r: bool)
        ensures
            r == is_internal_virtual(path@),
    {
        is_internal_virtual_module(path)
    }

    fn run_lifecycle_hook<E, F: Fn(&H) -> Result<(), E>>(&self, kind: HookKind, call: F) -> (r:
        Result<Option<()>, E>)
        requires
            self.hook(kind) is Some ==> call.requires((&self.hook(kind)->0,)),
        ensures
            self.hook(kind) is None ==> r is Ok && r->Ok_0 is None,
            self.hook(kind) is Some ==> exists|res: Result<(), E>|
                #[trigger] call.ensures((&self.hook(kind)->0,), res) && r == handled(res),
    {
        match self.slot(kind) {
            Some(h) => {
                let res = call(h);
                assert(call.ensures((&self.hook(kind)->0,), res));
                match res {
                    Ok(()) => Ok(Some(())),
                    Err(e) => Err(e),
                }
            },
            None => Ok(None),
        }
    }

    /// Runs the plugin's hook for the start of a build, if it has one, through `call`.
    /// The result is `Ok(None)` without one, and `call` is not made; `Ok(Some(()))` when the hook
    /// succeeds, and the hook's error otherwise.
    pub fn build_start<E, F: Fn(&H) -> Result<(), E>>(&self, call: F) -> (r: Result<Option<()>, E>)
        requires
            self.hook(HookKind::BuildStart) is Some ==> call.requires(
                (&self.hook(HookKind::BuildStart)->0,),
            ),
        ensures
            self.hook(HookKind::BuildStart) is None ==> r is Ok && r->Ok_0 is None,
            self.hook(HookKind::BuildStart) is Some ==> exists|res: Result<(), E>|
                #[trigger] call.ensures((&self.hook(HookKind::BuildStart)->0,), res) && r == handled(res),
    {
        self.run_lifecycle_hook(HookKind::BuildStart, call)
    }
    /// Runs the plugin's hook for the end of a build, if it has one, through `call`.
    /// The result is `Ok(None)` without one, and `call` is not made; `Ok(Some(()))` when the hook
    /// succeeds, and the hook's error otherwise.
    pub fn build_end<E, F: Fn(&H) -> Result<(), E>>(&self, call: F) -> (r: Result<Option<()>, E>)
        requires
            self.hook(HookKind::BuildEnd) is Some ==> call.requires(
                (&self.hook(HookKind::BuildEnd)->0,),
            ),
        ensures
            self.hook(HookKind::BuildEnd) is None ==> r is Ok && r->Ok_0 is None,
            self.hook(HookKind::BuildEnd) is Some ==> exists|res: Result<(), E>|
                #[trigger] call.ensures((&self.hook(HookKind::BuildEnd)->0,), res) && r == handled(res),
    {
        self.run_lifecycle_hook(HookKind::BuildEnd, call)
    }
    /// Runs the plugin's hook for the end of a compilation, if it has one, through `call`.
    /// The result is `Ok(None)` without one, and `call` is not made; `Ok(Some(()))` when the hook
    /// succeeds, and the hook's error otherwise.
    pub fn finish<E, F: Fn(&H) -> Result<(), E>>(&self, call: F) -> (r: Result<Option<()>, E>)
        requires
            self.hook(HookKind::Finish) is Some ==> call.requires(
                (&self.hook(HookKind::Finish)->0,),
            ),
        ensures
            self.hook(HookKind::Finish) is None ==> r is Ok && r->Ok_0 is None,
            self.hook(HookKind::Finish) is Some ==> exists|res: Result<(), E>|
                #[trigger] call.ensures((&self.hook(HookKind::Finish)->0,), res) && r == handled(res),
    {
        self.run_lifecycle_hook(HookKind::Finish, call)
    }

    fn run_path_hook<P, R, E, F: Fn(&H, &P) -> Result<Option<R>, E>>(
        &self,
        kind: HookKind,
        param: &P,
        path: &str,
        call: F,
    ) -> (r: Result<Option<R>, E>)
        requires
            !is_internal_virtual(path@) && self.hook(kind) is Some ==> call.requires(
                (&self.hook(kind)->0, param),
            ),
        ensures
            is_internal_virtual(path@) || self.hook(kind) is None ==> r is Ok && r->Ok_0 is None,
            !is_internal_virtual(path@) && self.hook(kind) is Some ==> call.ensures(
                (&self.hook(kind)->0, param),
                r,
            ),
    {
        if is_internal_virtual_module(path) {
            return Ok(None);
        }
        match self.slot(kind) {
            Some(h) => call(h, param),
            None => Ok(None),
        }
    }

    /// Hands `param`, which resolves a module at `path` (its `source`), to the plugin's
    /// hook through `call`, and returns what the hook returns. Without the hook,
    /// or for a module that the compiler synthesized, the result is `Ok(None)` and
    /// the hook is not called.
    pub fn resolve<P, R, E, F: Fn(&H, &P) -> Result<Option<R>, E>>(
        &self,
        param: &P,
        path: &str,
        call: F,
    ) -> (r: Result<Option<R>, E>)
        requires
            !is_internal_virtual(path@) && self.hook(HookKind::Resolve) is Some ==> call.requires(
                (&self.hook(HookKind::Resolve)->0, param),
            ),
        ensures
            is_internal_virtual(path@) || self.hook(HookKind::Resolve) is None ==> r is Ok
                && r->Ok_0 is None,
            !is_internal_virtual(path@) && self.hook(HookKind::Resolve) is Some ==> call.ensures(
                (&self.hook(HookKind::Resolve)->0, param),
                r,
            ),
    {
        self.run_path_hook(HookKind::Resolve, param, path, call)
    }
    /// Hands `param`, which loads a module at `path` (its `resolved_path`), to the plugin's
    /// hook through `call`, and returns what the hook returns. Without the hook,
    /// or for a module that the compiler synthesized, the result is `Ok(None)` and
    /// the hook is not called.
    pub fn load<P, R, E, F: Fn(&H, &P) -> Result<Option<R>, E>>(
        &self,
        param: &P,
        path: &str,
        call: F,
    ) -> (r: Result<Option<R>, E>)
        requires
            !is_internal_virtual(path@) && self.hook(HookKind::Load) is Some ==> call.requires(
                (&self.hook(HookKind::Load)->0, param),
            ),
        ensures
            is_internal_virtual(path@) || self.hook(HookKind::Load) is None ==> r is Ok
                && r->Ok_0 is None,
            !is_internal_virtual(path@) && self.hook(HookKind::Load) is Some ==> call.ensures(
                (&self.hook(HookKind::Load)->0, param),
                r,
            ),
    {
        self.run_path_hook(HookKind::Load, param, path, call)
    }
    /// Hands `param`, which transforms a module at `path` (its `resolved_path`), to the plugin's
    /// hook through `call`, and returns what the hook returns. Without the hook,
    /// or for a module that the compiler synthesized, the result is `Ok(None)` and
    /// the hook is not called.
    pub fn transform<P, R, E, F: Fn(&H, &P) -> Result<Option<R>, E>>(
        &self,
        param: &P,
        path: &str,
        call: F,
    ) -> (r: Result<Option<R>, E>)
        requires
            !is_internal_virtual(path@) && self.hook(HookKind::Transform) is Some ==> call.requires(
                (&self.hook(HookKind::Transform)->0, param),
            ),
        ensures
            is_internal_virtual(path@) || self.hook(HookKind::Transform) is None ==> r is Ok
                && r->Ok_0 is None,
            !is_internal_virtual(path@) && self.hook(HookKind::Transform) is Some ==> call.ensures(
                (&self.hook(HookKind::Transform)->0, param),
                r,
            ),
    {
        self.run_path_hook(HookKind::Transform, param, path, call)
    }

    /// Asks the plugin's update hook, through `call`, for more modules to rebuild,
    /// and appends those not scheduled yet, in the order given, as updated.
    /// Without the hook the result is `Ok(None)` and `params` is left as it was;
    /// when the hook fails its error comes back and `params` is left as it was.
    pub fn update_modules<E, F: Fn(&H, &PluginUpdateModulesHookParams) -> Result<
        Option<Vec<String>>,
        E,
    >>(&self, params: &mut PluginUpdateModulesHookParams, call: F) -> (r: Result<Option<()>, E>)
        requires
            self.hook(HookKind::UpdateModules) is Some ==> call.requires(
                (&self.hook(HookKind::UpdateModules)->0, &*old(params)),
            ),
        ensures
            self.hook(HookKind::UpdateModules) is None ==> r is Ok && r->Ok_0 is None
                && final(params).paths@ == old(params).paths@,
            self.hook(HookKind::UpdateModules) is Some ==> exists|
                res: Result<Option<Vec<String>>, E>,
            |
                #[trigger] call.ensures((&self.hook(HookKind::UpdateModules)->0, &*old(params)), res)
                    && update_outcome(*old(params), res, *final(params), r),
    {
        match self.slot(HookKind::UpdateModules) {
            Some(h) => {
                let res = call(h, params);
                assert(call.ensures((&self.hook(HookKind::UpdateModules)->0, &*old(params)), res));
                let ghost res0 = res;
                match res {
                    Ok(Some(extra)) => {
                        merge_update_modules(&mut params.paths, &extra);
                        assert(update_outcome(*old(params), res0, *params, Ok(Some(()))));
                        Ok(Some(()))
                    },
                    Ok(None) => {
                        assert(paths_of(params.paths@) == merged(paths_of(params.paths@), Seq::empty()));
                        assert(params.paths@.subrange(0, params.paths@.len() as int) == params.paths@);
                        Ok(Some(()))
                    },
                    Err(e) => Err(e),
                }
            },
            None => Ok(None),
        }
    }

    /// Hands the cache bytes restored for the plugin to its hook, through `call`.
    /// The result is `Ok(None)` without the hook, and `call` is not made; `Ok(Some(()))` when it
    /// succeeds, and its error otherwise.
    pub fn plugin_cache_loaded<E, F: Fn(&H, &Vec<u8>) -> Result<(), E>>(
        &self,
        cache: &Vec<u8>,
        call: F,
    ) -> (r: Result<Option<()>, E>)
        requires
            self.hook(HookKind::PluginCacheLoaded) is Some ==> call.requires(
                (&self.hook(HookKind::PluginCacheLoaded)->0, cache),
            ),
        ensures
            self.hook(HookKind::PluginCacheLoaded) is None ==> r is Ok && r->Ok_0 is None,
            self.hook(HookKind::PluginCacheLoaded) is Some ==> exists|res: Result<(), E>|
                #[trigger] call.ensures((&self.hook(HookKind::PluginCacheLoaded)->0, cache), res)
                    && r == handled(res),
    {
        match self.slot(HookKind::PluginCacheLoaded) {
            Some(h) => {
                let res = call(h, cache);
                assert(call.ensures((&self.hook(HookKind::PluginCacheLoaded)->0, cache), res));
                match res {
                    Ok(()) => Ok(Some(())),
                    Err(e) => Err(e),
                }
            },
            None => Ok(None),
        }
    }

    /// The bytes that the plugin's hook, called through `call`, wants cached;
    /// `Ok(None)` without the hook, and `call` is then not made.
    pub fn write_plugin_cache<E, F: Fn(&H) -> Result<Option<Vec<u8>>, E>>(&self, call: F) -> (r:
        Result<Option<Vec<u8>>, E>)
        requires
            self.hook(HookKind::WritePluginCache) is Some ==> call.requires(
                (&self.hook(HookKind::WritePluginCache)->0,),
            ),
        ensures
            self.hook(HookKind::WritePluginCache) is None ==> r is Ok && r->Ok_0 is None,
            self.hook(HookKind::WritePluginCache) is Some ==> call.ensures(
                (&self.hook(HookKind::WritePluginCache)->0,),
                r,
            ),
    {
        match self.slot(HookKind::WritePluginCache) {
            Some(h) => call(h),
            None => Ok(None),
        }
    }

    pub fn name(&self) -> (r: &str)
        ensures
            r@ == self.spec_name(),
    {
        self.name.as_str()
    }

    pub fn priority(&self) -> (r: i32)
        ensures
            r == self.spec_priority(),
    {
        self.priority
    }
}

} // verus!
