use deno_pack::config::{
    BuildMode, ChunkLoadingMode, DigestEncoding, DynamicImportMode, HashAlgorithm, ImportOrder,
};
use deno_pack::{build_config, entry_candidate, BundleRequest, ConfigError, WatchOptions};

fn request(entry: &str, out: Option<&str>, watch: bool) -> BundleRequest {
    BundleRequest {
        entry_file: entry.to_string(),
        out_file: out.map(|s| s.to_string()),
        watch: if watch { Some(WatchOptions { no_clear_screen: false }) } else { None },
    }
}

#[test]
fn entry_candidate_joins_relative_path() {
    assert_eq!(entry_candidate("/work", "index.js"), "/work/index.js");
    assert_eq!(entry_candidate("/work/", "src/a.js"), "/work/src/a.js");
}

#[test]
fn entry_candidate_keeps_absolute_path() {
    assert_eq!(entry_candidate("/work", "/abs/main.js"), "/abs/main.js");
    assert_eq!(entry_candidate("", "main.js"), "main.js");
}

#[test]
fn default_output_file_is_output_js() {
    let c = build_config(&request("index.js", None, false), "/work", Some("/work/index.js".to_string()))
        .unwrap();
    assert_eq!(c.output.filenames.main, "output.js");
    assert_eq!(c.entry, "/work/index.js");
    assert_eq!(c.context, "/work");
    assert_eq!(c.output.path, "/work");
}

#[test]
fn requested_output_file_is_kept() {
    let c = build_config(
        &request("index.js", Some("bundle.js"), false),
        "/work",
        Some("/work/index.js".to_string()),
    )
    .unwrap();
    assert_eq!(c.output.filenames.main, "bundle.js");
}

#[test]
fn missing_entry_is_reported_before_any_build() {
    let r = build_config(&request("missing.js", None, false), "/work", None);
    assert_eq!(r.unwrap_err(), ConfigError::EntryNotFound { path: "/work/missing.js".to_string() });
}

#[test]
fn every_field_has_its_documented_value() {
    let c = build_config(&request("index.js", None, false), "/work", Some("/work/index.js".to_string()))
        .unwrap();
    let f = &c.output.filenames;
    assert_eq!(f.chunk, "[id].js");
    assert_eq!(f.asset, "asset-[name].js");
    assert_eq!(f.css, "[name].css");
    assert_eq!(f.css_chunk, "[id].css");
    assert_eq!(f.hot_update_main, "[name].[hash].hot-update.js");
    assert_eq!(f.hot_update_chunk, "[id].[hash].hot-update.js");
    assert_eq!(f.source_map, "[file].map");
    assert_eq!(f.webassembly_module, "webassembly.js");
    assert_eq!(c.output.hashing.function, HashAlgorithm::Md4);
    assert_eq!(c.output.hashing.digest, DigestEncoding::Hex);
    assert_eq!(c.output.hashing.digest_length, 20);
    assert_eq!(c.output.hashing.salt, "salt");
    assert_eq!(c.output.chunk_loading, ChunkLoadingMode::Import);
    assert_eq!(c.output.worker_chunk_loading, ChunkLoadingMode::Disabled);
    assert_eq!(c.output.unique_name, "main");
    assert_eq!(c.output.global_object, "window");
    assert_eq!(c.output.import_function_name, "import");
    assert_eq!(c.output.script_type, "text/javascript");
    assert!(!c.output.clean);
    assert!(!c.output.async_chunks);
    assert!(c.output.public_path_auto);
    assert!(c.output.env_const && c.output.env_arrow_function);
    assert_eq!(c.mode, BuildMode::Development);
    assert_eq!(c.target, vec!["es2022".to_string(), "node".to_string()]);
    assert_eq!(c.resolve.extensions, vec![".js".to_string()]);
    assert_eq!(c.resolve_loader.extensions, vec![".js".to_string()]);
    assert_eq!(c.js_parser.dynamic_import_mode, DynamicImportMode::Eager);
    assert_eq!(c.js_parser.dynamic_import_prefetch, ImportOrder::Order(1));
    assert_eq!(c.js_parser.dynamic_import_preload, ImportOrder::Order(1));
    assert!(c.js_parser.worker.is_empty());
    assert!(c.optimization.inner_graph);
    assert!(!c.optimization.mangle_exports && !c.optimization.concatenate_modules);
    assert!(!c.experiments.layers);
    assert!(!c.profile && !c.bail);
    assert!(c.validate().is_ok());
}

#[test]
fn building_twice_gives_the_same_configuration() {
    let req = request("index.js", Some("out.js"), true);
    let a = build_config(&req, "/work", Some("/work/index.js".to_string())).unwrap();
    let b = build_config(&req, "/work", Some("/work/index.js".to_string())).unwrap();
    assert_eq!(format!("{:?}", a), format!("{:?}", b));
}

#[test]
fn inconsistent_hashing_is_invalid() {
    let good = build_config(&request("index.js", None, false), "/work", Some("/work/index.js".to_string()))
        .unwrap();
    let mut too_long = good.clone();
    too_long.output.hashing.digest_length = 33;
    assert_eq!(too_long.validate(), Err(ConfigError::ConfigInvalid));
    let mut xx = good.clone();
    xx.output.hashing.function = HashAlgorithm::Xxhash64;
    assert_eq!(xx.validate(), Err(ConfigError::ConfigInvalid));
    xx.output.hashing.digest_length = 16;
    assert!(xx.validate().is_ok());
    let mut zero = good.clone();
    zero.output.hashing.digest_length = 0;
    assert_eq!(zero.validate(), Err(ConfigError::ConfigInvalid));
    let mut no_chunk = good;
    no_chunk.output.filenames.chunk = String::new();
    assert_eq!(no_chunk.validate(), Err(ConfigError::ConfigInvalid));
}
