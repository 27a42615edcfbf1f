//! Collects what a runtime is made of before it is built.

use vstd::prelude::*;
use std::time::Duration;
use crate::esruntime::EsRuntime;
use crate::features::fetch::FetchResponseProviderAdapter;
use crate::quickjsruntime::NativeModuleLoaderAdapter;
use crate::quickjsruntime::ScriptModuleLoaderAdapter;

verus! {

/// The settings of a runtime to be.
pub struct EsRuntimeBuilder {
    script_module_loaders: Vec<ScriptModuleLoaderAdapter>,
    native_module_loaders: Vec<NativeModuleLoaderAdapter>,
    opt_fetch_response_provider: Option<FetchResponseProviderAdapter>,
    opt_memory_limit_bytes: Option<u64>,
    opt_gc_threshold: Option<u64>,
    opt_max_stack_size: Option<u64>,
    opt_gc_interval: Option<Duration>,
}

/// The mathematical content of an [`EsRuntimeBuilder`]: the loaders of each
/// kind in the order in which they were added, and the optional settings.
pub struct EsRuntimeBuilderView {
    pub script_module_loaders: Seq<ScriptModuleLoaderAdapter>,
    pub native_module_loaders: Seq<NativeModuleLoaderAdapter>,
    pub fetch_response_provider: Option<FetchResponseProviderAdapter>,
    pub limits: ResourceLimits,
}

/// The limits that are handed to the engine when it is made. `None` leaves
/// the engine's default in place.
pub struct ResourceLimits {
    pub memory_limit_bytes: Option<u64>,
    pub gc_threshold: Option<u64>,
    pub max_stack_size: Option<u64>,
    pub gc_interval: Option<Duration>,
}

impl View for EsRuntimeBuilder {
    type V = EsRuntimeBuilderView;

    closed spec fn view(&self) -> EsRuntimeBuilderView {
        EsRuntimeBuilderView {
            script_module_loaders: self.script_module_loaders@,
            native_module_loaders: self.native_module_loaders@,
            fetch_response_provider: self.opt_fetch_response_provider,
            limits: ResourceLimits {
                memory_limit_bytes: self.opt_memory_limit_bytes,
                gc_threshold: self.opt_gc_threshold,
                max_stack_size: self.opt_max_stack_size,
                gc_interval: self.opt_gc_interval,
            },
        }
    }
}

impl EsRuntimeBuilder {
    /// Builds the runtime, see [`EsRuntime::new`].
    pub fn build(self) -> (rt: EsRuntime)
        ensures
            rt.built_from(self@),
    {
        EsRuntime::new(self)
    }

    /// Takes the builder apart.
    pub(crate) fn into_parts(self) -> (parts: (
        Vec<ScriptModuleLoaderAdapter>,
        Vec<NativeModuleLoaderAdapter>,
        Option<FetchResponseProviderAdapter>,
        ResourceLimits,
    ))
        ensures
            parts.0@ == self@.script_module_loaders,
            parts.1@ == self@.native_module_loaders,
            parts.2 == self@.fetch_response_provider,
            parts.3 == self@.limits,
    {
        (
            self.script_module_loaders,
            self.native_module_loaders,
            self.opt_fetch_response_provider,
            ResourceLimits {
                memory_limit_bytes: self.opt_memory_limit_bytes,
                gc_threshold: self.opt_gc_threshold,
                max_stack_size: self.opt_max_stack_size,
                gc_interval: self.opt_gc_interval,
            },
        )
    }

    /// A builder without loaders, provider or limits.
    pub fn new() -> (builder: Self)
        ensures
            builder@ == (EsRuntimeBuilderView {
                script_module_loaders: Seq::empty(),
                native_module_loaders: Seq::empty(),
                fetch_response_provider: None,
                limits: ResourceLimits {
                    memory_limit_bytes: None,
                    gc_threshold: None,
                    max_stack_size: None,
                    gc_interval: None,
                },
            }),
    {
        Self {
            script_module_loaders: Vec::new(),
            native_module_loaders: Vec::new(),
            opt_fetch_response_provider: None,
            opt_memory_limit_bytes: None,
            opt_gc_threshold: None,
            opt_max_stack_size: None,
            opt_gc_interval: None,
        }
    }

    /// Adds a loader of script modules behind those added before.
    pub fn script_module_loader(self, loader: ScriptModuleLoaderAdapter) -> (builder: Self)
        ensures
            builder@ == (EsRuntimeBuilderView {
                script_module_loaders: self@.script_module_loaders.push(loader),
                ..self@
            }),
    {
        let mut builder = self;
        builder.script_module_loaders.push(loader);
        builder
    }

    /// Adds a loader of native modules behind those added before.
    pub fn native_module_loader(self, loader: NativeModuleLoaderAdapter) -> (builder: Self)
        ensures
            builder@ == (EsRuntimeBuilderView {
                native_module_loaders: self@.native_module_loaders.push(loader),
                ..self@
            }),
    {
        let mut builder = self;
        builder.native_module_loaders.push(loader);
        builder
    }

    /// Sets the provider that answers the requests of scripts. A builder
    /// takes one provider only.
    pub fn fetch_response_provider(self, provider: FetchResponseProviderAdapter) -> (builder: Self)
        requires
            self@.fetch_response_provider is None,
        ensures
            builder@ == (EsRuntimeBuilderView { fetch_response_provider: Some(provider), ..self@ }),
    {
        let mut builder = self;
        builder.opt_fetch_response_provider = Some(provider);
        builder
    }

    /// Sets the most memory the engine may use.
    pub fn memory_limit(self, bytes: u64) -> (builder: Self)
        ensures
            builder@ == (EsRuntimeBuilderView {
                limits: ResourceLimits { memory_limit_bytes: Some(bytes), ..self@.limits },
                ..self@
            }),
    {
        let mut builder = self;
        builder.opt_memory_limit_bytes = Some(bytes);
        builder
    }

    /// Sets the number of allocations after which the engine collects.
    pub fn gc_threshold(self, size: u64) -> (builder: Self)
        ensures
            builder@ == (EsRuntimeBuilderView {
                limits: ResourceLimits { gc_threshold: Some(size), ..self@.limits },
                ..self@
            }),
    {
        let mut builder = self;
        builder.opt_gc_threshold = Some(size);
        builder
    }

    /// Sets the largest stack the engine may use.
    pub fn max_stack_size(self, size: u64) -> (builder: Self)
        ensures
            builder@ == (EsRuntimeBuilderView {
                limits: ResourceLimits { max_stack_size: Some(size), ..self@.limits },
                ..self@
            }),
    {
        let mut builder = self;
        builder.opt_max_stack_size = Some(size);
        builder
    }

    /// Sets the interval at which the engine collects without being asked.
    pub fn gc_interval(self, interval: Duration) -> (builder: Self)
        ensures
            builder@ == (EsRuntimeBuilderView {
                limits: ResourceLimits { gc_interval: Some(interval), ..self@.limits },
                ..self@
            }),
    {
        let mut builder = self;
        builder.opt_gc_interval = Some(interval);
        builder
    }
}

impl Default for EsRuntimeBuilder {
    fn default() -> (builder: Self)
        ensures
            builder@ == (EsRuntimeBuilderView {
                script_module_loaders: Seq::empty(),
                native_module_loaders: Seq::empty(),
                fetch_response_provider: None,
                limits: ResourceLimits {
                    memory_limit_bytes: None,
                    gc_threshold: None,
                    max_stack_size: None,
                    gc_interval: None,
                },
            }),
    {
        EsRuntimeBuilder::new()
    }
}

} // verus!
