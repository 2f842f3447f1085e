use next_build_core::transition::{
    transition_context, ChunkingContext, CompileTimeInfo, EngineError, Environment,
    IdentityTransition, Module, ModuleAssetContext, ModuleOptionsContext,
    NextClientChunksTransition, ResolveOptionsContext, Transition,
};

fn server_context() -> ModuleAssetContext {
    ModuleAssetContext {
        compile_time_info: CompileTimeInfo { environment: Environment::NodeJs, defines: 1 },
        module_options: ModuleOptionsContext { id: 10 },
        resolve_options: ResolveOptionsContext { id: 20 },
    }
}

fn client_transition() -> NextClientChunksTransition {
    NextClientChunksTransition::new(
        ChunkingContext { id: 99 },
        CompileTimeInfo { environment: Environment::Browser, defines: 2 },
        ModuleOptionsContext { id: 11 },
        ResolveOptionsContext { id: 21 },
    )
}

#[test]
fn client_and_server_views_of_one_module_coexist() {
    let server = server_context();
    let t = client_transition();
    let via_client = transition_context(&t, server);
    let via_server = transition_context(&IdentityTransition, server);
    assert_eq!(via_client.compile_time_info.environment, Environment::Browser);
    assert_eq!(via_client.compile_time_info.defines, 2);
    assert_eq!(via_client.module_options, ModuleOptionsContext { id: 11 });
    assert_eq!(via_client.resolve_options, ResolveOptionsContext { id: 21 });
    assert_eq!(via_server, server);
    assert_eq!(via_server.compile_time_info.environment, Environment::NodeJs);
}

#[test]
fn client_transition_ignores_upstream_context() {
    let t = client_transition();
    let edge = CompileTimeInfo { environment: Environment::EdgeWorker, defines: 5 };
    assert_eq!(t.process_compile_time_info(edge), t.client_compile_time_info);
    assert_eq!(
        t.process_module_options_context(ModuleOptionsContext { id: 1 }),
        ModuleOptionsContext { id: 11 }
    );
    assert_eq!(
        t.process_resolve_options_context(ResolveOptionsContext { id: 1 }),
        ResolveOptionsContext { id: 21 }
    );
}

#[test]
fn chunkable_module_is_wrapped_for_client_chunks() {
    let t = client_transition();
    let m = Module::Asset { id: 42 };
    let r = t.process_module(m, server_context(), Ok(true));
    assert_eq!(
        r,
        Ok(Module::WithChunks { placeable: 42, chunking_context: ChunkingContext { id: 99 } })
    );
}

#[test]
fn other_module_passes_through() {
    let t = client_transition();
    let m = Module::Asset { id: 42 };
    assert_eq!(t.process_module(m, server_context(), Ok(false)), Ok(m));
    assert_eq!(IdentityTransition.process_module(m, server_context(), Ok(true)), Ok(m));
}

#[test]
fn engine_error_is_handed_on() {
    let t = client_transition();
    let m = Module::Asset { id: 42 };
    let e = EngineError { code: 3 };
    assert_eq!(t.process_module(m, server_context(), Err(e)), Err(e));
    assert_eq!(IdentityTransition.process_module(m, server_context(), Err(e)), Err(e));
}

#[test]
fn crossing_twice_gives_the_same_result() {
    let t = client_transition();
    let c = server_context();
    assert_eq!(transition_context(&t, c), transition_context(&t, c));
    let m = Module::Asset { id: 7 };
    assert_eq!(
        t.process_module(m, c, Ok(true)),
        t.process_module(m, c, Ok(true))
    );
}
