use deno_pack::{assemble, build_config, BundleRequest, PipelinePlugin};

fn config_for(root: &str, entry: &str) -> deno_pack::CompilerConfiguration {
    let req = BundleRequest { entry_file: "index.js".to_string(), out_file: None, watch: None };
    build_config(&req, root, Some(entry.to_string())).unwrap()
}

#[test]
fn plugins_come_in_fixed_order() {
    let plugins = assemble(&config_for("/work", "/work/index.js"));
    assert_eq!(plugins.len(), 6);
    assert!(matches!(plugins[0], PipelinePlugin::JavaScript));
    assert!(matches!(plugins[1], PipelinePlugin::Entry(_)));
    assert!(matches!(plugins[2], PipelinePlugin::NaturalChunkIds));
    assert!(matches!(plugins[3], PipelinePlugin::NamedModuleIds));
    assert!(matches!(plugins[4], PipelinePlugin::DataUri));
    assert!(matches!(plugins[5], PipelinePlugin::Runtime));
}

#[test]
fn entry_plugin_carries_context_and_entry() {
    let plugins = assemble(&config_for("/srv/app", "/srv/app/src/main.js"));
    match &plugins[1] {
        PipelinePlugin::Entry(e) => {
            assert_eq!(e.context, "/srv/app");
            assert_eq!(e.request, "/srv/app/src/main.js");
            assert_eq!(e.name, "main");
            assert!(e.runtime.is_none());
            assert!(e.chunk_loading.is_none());
        }
        _ => panic!("second plugin is not the entry plugin"),
    }
}

#[test]
fn order_does_not_depend_on_configuration() {
    let a = assemble(&config_for("/a", "/a/x.js"));
    let b = assemble(&config_for("/b/c", "/elsewhere/y.js"));
    let kinds = |v: &Vec<PipelinePlugin>| {
        v.iter().map(|p| std::mem::discriminant(p)).collect::<Vec<_>>()
    };
    assert_eq!(kinds(&a), kinds(&b));
}
