use vstd::prelude::*;

verus! {

/// The lifecycle hooks that a plugin may implement.
#[derive(Clone, Copy, Debug, PartialEq, Eq, Structural)]
pub enum HookKind {
    BuildStart,
    Resolve,
    Load,
    Transform,
    BuildEnd,
    Finish,
    UpdateModules,
    PluginCacheLoaded,
    WritePluginCache,
}

pub open spec fn spec_field_name(kind: HookKind) -> Seq<char> {
    match kind {
        HookKind::BuildStart => "buildStart"@,
        HookKind::Resolve => "resolve"@,
        HookKind::Load => "load"@,
        HookKind::Transform => "transform"@,
        HookKind::BuildEnd => "buildEnd"@,
        HookKind::Finish => "finish"@,
        HookKind::UpdateModules => "updateModules"@,
        HookKind::PluginCacheLoaded => "pluginCacheLoaded"@,
        HookKind::WritePluginCache => "writePluginCache"@,
    }
}

impl HookKind {
    /// The field of a plugin description that holds this hook.
    pub fn field_name(&self) -> (r: &'static str)
        ensures
            r@ == spec_field_name(*self),
    {
        match self {
            HookKind::BuildStart => "buildStart",
            HookKind::Resolve => "resolve",
            HookKind::Load => "load",
            HookKind::Transform => "transform",
            HookKind::BuildEnd => "buildEnd",
            HookKind::Finish => "finish",
            HookKind::UpdateModules => "updateModules",
            HookKind::PluginCacheLoaded => "pluginCacheLoaded",
            HookKind::WritePluginCache => "writePluginCache",
        }
    }
}

/// What probing one field of a plugin description found.
#[derive(Clone, Debug)]
pub enum Probe<T> {
    /// The description has no such field.
    Absent,
    /// The field is there and of the expected shape.
    Found(T),
    /// The field is there but could not be read as expected; the text says why.
    Mismatch(String),
}

/// A plugin description as read from the scripting side, field by field.
pub struct PluginDescription<H> {
    pub name: Probe<String>,
    pub priority: Probe<i32>,
    pub build_start: Probe<H>,
    pub resolve: Probe<H>,
    pub load: Probe<H>,
    pub transform: Probe<H>,
    pub build_end: Probe<H>,
    pub finish: Probe<H>,
    pub update_modules: Probe<H>,
    pub plugin_cache_loaded: Probe<H>,
    pub write_plugin_cache: Probe<H>,
}

impl<H> PluginDescription<H> {
    /// The probe of the field that holds `kind`.
    pub open spec fn probe(&self, kind: HookKind) -> Probe<H> {
        match kind {
            HookKind::BuildStart => self.build_start,
            HookKind::Resolve => self.resolve,
            HookKind::Load => self.load,
            HookKind::Transform => self.transform,
            HookKind::BuildEnd => self.build_end,
            HookKind::Finish => self.finish,
            HookKind::UpdateModules => self.update_modules,
            HookKind::PluginCacheLoaded => self.plugin_cache_loaded,
            HookKind::WritePluginCache => self.write_plugin_cache,
        }
    }
}

/// A plugin description that cannot be turned into an adapter.
#[derive(Clone, Debug, PartialEq, Eq)]
pub enum ConfigError {
    /// A required field is missing.
    MissingField { field: String },
    /// A field is present but not of the expected shape.
    InvalidField { field: String, detail: String },
}

pub open spec fn is_missing(e: ConfigError, field: Seq<char>) -> bool {
    match e {
        ConfigError::MissingField { field: f } => f@ == field,
        _ => false,
    }
}

pub open spec fn is_invalid(e: ConfigError, field: Seq<char>, detail: Seq<char>) -> bool {
    match e {
        ConfigError::InvalidField { field: f, detail: d } => f@ == field && d@ == detail,
        _ => false,
    }
}

} // verus!
