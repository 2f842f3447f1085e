//! Transitions: policies attached to module-graph edges that rewrite the
//! context a module is compiled under when traversal crosses the edge.
use vstd::prelude::*;

verus! {

/// The environment that compiled code targets.
#[derive(Clone, Copy, PartialEq, Eq, Structural, Debug)]
pub enum Environment {
    Browser,
    NodeJs,
    EdgeWorker,
}

/// Global defines and the target environment a module is compiled with.
#[derive(Clone, Copy, PartialEq, Eq, Structural, Debug)]
pub struct CompileTimeInfo {
    pub environment: Environment,
    /// A reference to the set of global defines.
    pub defines: u64,
}

/// A reference to a set of source-processing rules.
#[derive(Clone, Copy, PartialEq, Eq, Structural, Debug)]
pub struct ModuleOptionsContext {
    pub id: u64,
}

/// A reference to a set of module-resolution rules.
#[derive(Clone, Copy, PartialEq, Eq, Structural, Debug)]
pub struct ResolveOptionsContext {
    pub id: u64,
}

/// A reference to a chunking context: where chunks of a group are emitted.
#[derive(Clone, Copy, PartialEq, Eq, Structural, Debug)]
pub struct ChunkingContext {
    pub id: u64,
}

/// The whole context a module is processed under.
#[derive(Clone, Copy, PartialEq, Eq, Structural, Debug)]
pub struct ModuleAssetContext {
    pub compile_time_info: CompileTimeInfo,
    pub module_options: ModuleOptionsContext,
    pub resolve_options: ResolveOptionsContext,
}

/// A module node of the graph.
#[derive(Clone, Copy, PartialEq, Eq, Structural, Debug)]
pub enum Module {
    /// A module as its source yields it.
    Asset { id: u64 },
    /// A chunkable module tied to a chunking context, so that it is emitted
    /// into a chunk group of its own.
    WithChunks { placeable: u64, chunking_context: ChunkingContext },
}

/// An error of the computation engine, such as a failed evaluation.
#[derive(Clone, Copy, PartialEq, Eq, Structural, Debug)]
pub struct EngineError {
    pub code: u64,
}

/// A policy that rewrites the context of a module reached through an edge.
/// Each operation is a function of its inputs and of the transition's own
/// configuration.
pub trait Transition {
    /// The compile-time info used past the edge.
    spec fn compile_time_info_after(&self, info: CompileTimeInfo) -> CompileTimeInfo;

    /// The processing rules used past the edge.
    spec fn module_options_after(&self, context: ModuleOptionsContext) -> ModuleOptionsContext;

    /// The resolution rules used past the edge.
    spec fn resolve_options_after(&self, context: ResolveOptionsContext) -> ResolveOptionsContext;

    /// The module node used past the edge, given whether the module reached
    /// is chunkable.
    spec fn module_after(&self, module: Module, placeable: bool) -> Module;

    fn process_compile_time_info(&self, info: CompileTimeInfo) -> (r: CompileTimeInfo)
        ensures
            r == self.compile_time_info_after(info),
    ;

    fn process_module_options_context(&self, context: ModuleOptionsContext) -> (r:
        ModuleOptionsContext)
        ensures
            r == self.module_options_after(context),
    ;

    fn process_resolve_options_context(&self, context: ResolveOptionsContext) -> (r:
        ResolveOptionsContext)
        ensures
            r == self.resolve_options_after(context),
    ;

    /// Wraps or replaces the module reached through the edge. `placeable` is
    /// the engine's answer to whether the module is chunkable; an error in
    /// it is handed on.
    fn process_module(
        &self,
        module: Module,
        context: ModuleAssetContext,
        placeable: Result<bool, EngineError>,
    ) -> (r: Result<Module, EngineError>)
        ensures
            match placeable {
                Ok(p) => r == Ok::<Module, EngineError>(self.module_after(module, p)),
                Err(e) => r == Err::<Module, EngineError>(e),
            },
    ;
}

/// The context past an edge tagged with `t`.
pub open spec fn context_after<T: Transition>(t: &T, context: ModuleAssetContext) -> ModuleAssetContext {
    ModuleAssetContext {
        compile_time_info: t.compile_time_info_after(context.compile_time_info),
        module_options: t.module_options_after(context.module_options),
        resolve_options: t.resolve_options_after(context.resolve_options),
    }
}

/// Rewrites the context of a module reached through an edge tagged with `t`.
pub fn transition_context<T: Transition>(t: &T, context: ModuleAssetContext) -> (r:
    ModuleAssetContext)
    ensures
        r == context_after(t, context),
{
    ModuleAssetContext {
        compile_time_info: t.process_compile_time_info(context.compile_time_info),
        module_options: t.process_module_options_context(context.module_options),
        resolve_options: t.process_resolve_options_context(context.resolve_options),
    }
}

/// A transition that changes nothing.
#[derive(Clone, Copy, PartialEq, Eq, Structural, Debug)]
pub struct IdentityTransition;

impl Transition for IdentityTransition {
    open spec fn compile_time_info_after(&self, info: CompileTimeInfo) -> CompileTimeInfo {
        info
    }

    open spec fn module_options_after(&self, context: ModuleOptionsContext) -> ModuleOptionsContext {
        context
    }

    open spec fn resolve_options_after(&self, context: ResolveOptionsContext) -> ResolveOptionsContext {
        context
    }

    open spec fn module_after(&self, module: Module, placeable: bool) -> Module {
        module
    }

    fn process_compile_time_info(&self, info: CompileTimeInfo) -> (r: CompileTimeInfo) {
        info
    }

    fn process_module_options_context(&self, context: ModuleOptionsContext) -> (r:
        ModuleOptionsContext) {
        context
    }

    fn process_resolve_options_context(&self, context: ResolveOptionsContext) -> (r:
        ResolveOptionsContext) {
        context
    }

    fn process_module(
        &self,
        module: Module,
        context: ModuleAssetContext,
        placeable: Result<bool, EngineError>,
    ) -> (r: Result<Module, EngineError>) {
        match placeable {
            Ok(_) => Ok(module),
            Err(e) => Err(e),
        }
    }
}

/// The transition into the client: modules past it are compiled for the
/// client environment with the client's processing and resolution rules,
/// and chunkable ones are emitted into the client's chunk groups.
#[derive(Clone, Copy, PartialEq, Eq, Structural, Debug)]
pub struct NextClientChunksTransition {
    pub client_compile_time_info: CompileTimeInfo,
    pub client_module_options_context: ModuleOptionsContext,
    pub client_resolve_options_context: ResolveOptionsContext,
    pub client_chunking_context: ChunkingContext,
}

/// The id of the module node that a chunk-group wrapper holds.
pub open spec fn placeable_id(module: Module) -> u64 {
    match module {
        Module::Asset { id } => id,
        Module::WithChunks { placeable, .. } => placeable,
    }
}

impl NextClientChunksTransition {
    /// The client transition of a project, from the client's chunking
    /// context, compile-time info, and the processing and resolution rules
    /// derived for the client.
    pub fn new(
        client_chunking_context: ChunkingContext,
        client_compile_time_info: CompileTimeInfo,
        client_module_options_context: ModuleOptionsContext,
        client_resolve_options_context: ResolveOptionsContext,
    ) -> (r: NextClientChunksTransition)
        ensures
            r.client_chunking_context == client_chunking_context,
            r.client_compile_time_info == client_compile_time_info,
            r.client_module_options_context == client_module_options_context,
            r.client_resolve_options_context == client_resolve_options_context,
    {
        NextClientChunksTransition {
            client_compile_time_info,
            client_module_options_context,
            client_resolve_options_context,
            client_chunking_context,
        }
    }
}

impl Transition for NextClientChunksTransition {
    open spec fn compile_time_info_after(&self, info: CompileTimeInfo) -> CompileTimeInfo {
        self.client_compile_time_info
    }

    open spec fn module_options_after(&self, context: ModuleOptionsContext) -> ModuleOptionsContext {
        self.client_module_options_context
    }

    open spec fn resolve_options_after(&self, context: ResolveOptionsContext) -> ResolveOptionsContext {
        self.client_resolve_options_context
    }

    open spec fn module_after(&self, module: Module, placeable: bool) -> Module {
        if placeable {
            Module::WithChunks {
                placeable: placeable_id(module),
                chunking_context: self.client_chunking_context,
            }
        } else {
            module
        }
    }

    fn process_compile_time_info(&self, info: CompileTimeInfo) -> (r: CompileTimeInfo) {
        self.client_compile_time_info
    }

    fn process_module_options_context(&self, context: ModuleOptionsContext) -> (r:
        ModuleOptionsContext) {
        self.client_module_options_context
    }

    fn process_resolve_options_context(&self, context: ResolveOptionsContext) -> (r:
        ResolveOptionsContext) {
        self.client_resolve_options_context
    }

    fn process_module(
        &self,
        module: Module,
        context: ModuleAssetContext,
        placeable: Result<bool, EngineError>,
    ) -> (r: Result<Module, EngineError>) {
        match placeable {
            Ok(true) => {
                let id = match module {
                    Module::Asset { id } => id,
                    Module::WithChunks { placeable, .. } => placeable,
                };
                Ok(Module::WithChunks { placeable: id, chunking_context: self.client_chunking_context })
            },
            Ok(false) => Ok(module),
            Err(e) => Err(e),
        }
    }
}


/// Crossing an edge is a function of the edge's transition and of what
/// crosses it: the same context and module, crossed twice, give the same
/// context and module.
pub proof fn lemma_transition_pure<T: Transition>(
    t: &T,
    c1: ModuleAssetContext,
    c2: ModuleAssetContext,
    m1: Module,
    m2: Module,
    placeable: bool,
)
    requires
        c1 == c2,
        m1 == m2,
    ensures
        context_after(t, c1) == context_after(t, c2),
        t.module_after(m1, placeable) == t.module_after(m2, placeable),
{
}

/// Past the client transition a module's context is the client's, whatever
/// it was before the edge.
pub proof fn lemma_client_context_substituted(
    t: &NextClientChunksTransition,
    c1: ModuleAssetContext,
    c2: ModuleAssetContext,
)
    ensures
        context_after(t, c1) == context_after(t, c2),
        context_after(t, c1).compile_time_info == t.client_compile_time_info,
        context_after(t, c1).module_options == t.client_module_options_context,
        context_after(t, c1).resolve_options == t.client_resolve_options_context,
{
}

} // verus!
