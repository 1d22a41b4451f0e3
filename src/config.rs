use vstd::prelude::*;
use crate::request::{BundleRequest, entry_candidate, joined_path};

verus! {

/// Number of hex digits that a digest of the hash function can give.
pub open spec fn hex_digest_capacity(f: HashAlgorithm) -> nat {
    match f {
        HashAlgorithm::Md4 => 32,
        HashAlgorithm::Xxhash64 => 16,
    }
}

/// Hash function used for content hashes in file names.
#[derive(Clone, Copy, Debug, PartialEq, Eq)]
pub enum HashAlgorithm {
    Md4,
    Xxhash64,
}

/// How a digest is written out.
#[derive(Clone, Copy, Debug, PartialEq, Eq)]
pub enum DigestEncoding {
    Hex,
}

/// How chunks are loaded at run time.
#[derive(Clone, Copy, Debug, PartialEq, Eq)]
pub enum ChunkLoadingMode {
    Import,
    Disabled,
}

/// How dynamic `import()` calls are compiled.
#[derive(Clone, Copy, Debug, PartialEq, Eq)]
pub enum DynamicImportMode {
    Lazy,
    Weak,
    Eager,
    LazyOnce,
}

/// Prefetch or preload order of dynamic imports.
#[derive(Clone, Copy, Debug, PartialEq, Eq)]
pub enum ImportOrder {
    Disabled,
    Order(u32),
}

/// Build mode of the engine.
#[derive(Clone, Copy, Debug, PartialEq, Eq)]
pub enum BuildMode {
    Development,
    Production,
}

/// One file-name template for each kind of output artifact.
#[derive(Clone, Debug)]
pub struct FilenameTemplates {
    pub main: String,
    pub chunk: String,
    pub asset: String,
    pub css: String,
    pub css_chunk: String,
    pub hot_update_main: String,
    pub hot_update_chunk: String,
    pub source_map: String,
    pub webassembly_module: String,
}

/// Parameters of the content hashes that appear in file names.
#[derive(Clone, Debug)]
pub struct HashingOptions {
    pub function: HashAlgorithm,
    pub digest: DigestEncoding,
    pub digest_length: usize,
    pub salt: String,
}

/// Where and how the bundle is written.
#[derive(Clone, Debug)]
pub struct OutputConfig {
    /// Directory that receives the output files.
    pub path: String,
    pub filenames: FilenameTemplates,
    pub hashing: HashingOptions,
    pub chunk_loading: ChunkLoadingMode,
    pub worker_chunk_loading: ChunkLoadingMode,
    /// Whether WebAssembly loading is on, for the page and for workers.
    pub wasm_loading: bool,
    pub worker_wasm_loading: bool,
    /// `true` when the public path is found at run time.
    pub public_path_auto: bool,
    pub cross_origin_loading: bool,
    pub unique_name: String,
    pub global_object: String,
    pub import_function_name: String,
    pub import_meta_name: String,
    pub script_type: String,
    pub chunk_loading_global: String,
    pub hot_update_global: String,
    pub worker_public_path: String,
    pub chunk_load_timeout: u32,
    pub clean: bool,
    pub pathinfo: bool,
    pub charset: bool,
    pub css_head_data_compression: bool,
    pub async_chunks: bool,
    pub iife: bool,
    pub module: bool,
    pub strict_module_error_handling: bool,
    /// Whether the emitted code may use `const` and arrow functions.
    pub env_const: bool,
    pub env_arrow_function: bool,
}

/// File extensions tried when a request names none.
#[derive(Clone, Debug)]
pub struct ResolveConfig {
    pub extensions: Vec<String>,
}

/// Parser options of the automatically detected JavaScript module type.
#[derive(Clone, Debug)]
pub struct JsParserConfig {
    pub dynamic_import_mode: DynamicImportMode,
    pub dynamic_import_prefetch: ImportOrder,
    pub dynamic_import_preload: ImportOrder,
    /// Whether `new URL(..)` is treated as a dependency.
    pub url: bool,
    pub import_meta: bool,
    pub expr_context_critical: bool,
    pub wrapped_context_critical: bool,
    pub strict_export_presence: bool,
    /// Extra syntax that starts a worker.
    pub worker: Vec<String>,
}

/// Optimisations of the chunk and module graph.
#[derive(Clone, Copy, Debug, PartialEq, Eq)]
pub struct OptimizationConfig {
    pub concatenate_modules: bool,
    pub remove_available_modules: bool,
    pub provided_exports: bool,
    pub mangle_exports: bool,
    pub inner_graph: bool,
    pub used_exports: bool,
    pub side_effects: bool,
}

/// Experimental features of the engine.
#[derive(Clone, Copy, Debug, PartialEq, Eq)]
pub struct ExperimentsConfig {
    pub layers: bool,
    pub top_level_await: bool,
    pub incremental_make: bool,
    pub incremental_emit_assets: bool,
}

/// Everything the compilation engine reads, each knob with an explicit value.
#[derive(Clone, Debug)]
pub struct CompilerConfiguration {
    /// Absolute directory that requests are resolved against.
    pub context: String,
    /// Canonical absolute path of the entry module.
    pub entry: String,
    pub mode: BuildMode,
    /// Language level and host runtime, in that order.
    pub target: Vec<String>,
    pub output: OutputConfig,
    pub resolve: ResolveConfig,
    pub resolve_loader: ResolveConfig,
    pub js_parser: JsParserConfig,
    pub optimization: OptimizationConfig,
    pub experiments: ExperimentsConfig,
    pub profile: bool,
    pub bail: bool,
}

/// Why no configuration could be made.
#[derive(Clone, Debug, PartialEq, Eq)]
pub enum ConfigError {
    /// The entry file does not exist at the path given.
    EntryNotFound { path: String },
    /// The configuration breaks one of its own invariants.
    ConfigInvalid,
}

impl HashingOptions {
    /// The digest length fits what the hash function gives.
    pub open spec fn wf(&self) -> bool {
        &&& self.digest_length > 0
        &&& self.digest_length as nat <= hex_digest_capacity(self.function)
    }
}

impl FilenameTemplates {
    /// Every template of an artifact kind that the engine names on its own
    /// is non-empty; the main bundle is named by the user.
    pub open spec fn wf(&self) -> bool {
        &&& self.chunk@.len() > 0
        &&& self.asset@.len() > 0
        &&& self.css@.len() > 0
        &&& self.css_chunk@.len() > 0
        &&& self.hot_update_main@.len() > 0
        &&& self.hot_update_chunk@.len() > 0
        &&& self.source_map@.len() > 0
        &&& self.webassembly_module@.len() > 0
    }
}

impl CompilerConfiguration {
    /// The invariant of a configuration: consistent hashing, one non-empty
    /// template per artifact kind, and every name the engine needs present.
    pub open spec fn wf(&self) -> bool {
        &&& self.output.hashing.wf()
        &&& self.output.filenames.wf()
        &&& self.output.unique_name@.len() > 0
        &&& self.output.global_object@.len() > 0
        &&& self.output.import_function_name@.len() > 0
        &&& self.output.script_type@.len() > 0
        &&& self.target@.len() == 2
        &&& self.resolve.extensions@.len() > 0
        &&& self.resolve_loader.extensions@.len() > 0
    }

    /// Checks the invariant, for a configuration that was put together by
    /// hand rather than by [`build_config`].
    pub fn validate(&self) -> (r: Result<(), ConfigError>)
        ensures
            r is Ok <==> self.wf(),
            r is Err ==> r == Err::<(), ConfigError>(ConfigError::ConfigInvalid),
    {
        let h = &self.output.hashing;
        let cap: usize = match h.function {
            HashAlgorithm::Md4 => 32,
            HashAlgorithm::Xxhash64 => 16,
        };
        let f = &self.output.filenames;
        let names_ok = f.chunk.unicode_len() > 0
            && f.asset.unicode_len() > 0 && f.css.unicode_len() > 0
            && f.css_chunk.unicode_len() > 0 && f.hot_update_main.unicode_len() > 0
            && f.hot_update_chunk.unicode_len() > 0 && f.source_map.unicode_len() > 0
            && f.webassembly_module.unicode_len() > 0;
        let o = &self.output;
        let output_ok = o.unique_name.unicode_len() > 0 && o.global_object.unicode_len() > 0
            && o.import_function_name.unicode_len() > 0 && o.script_type.unicode_len() > 0;
        if h.digest_length > 0 && h.digest_length <= cap && names_ok && output_ok
            && self.target.len() == 2 && self.resolve.extensions.len() > 0
            && self.resolve_loader.extensions.len() > 0 {
            Ok(())
        } else {
            Err(ConfigError::ConfigInvalid)
        }
    }
}

/// Name of the main bundle: the one requested, else `output.js`.
pub open spec fn main_filename(request: BundleRequest) -> Seq<char> {
    match request.out_file {
        Some(f) => f@,
        None => "output.js"@,
    }
}

/// The configuration for a bundle of the entry at `entry` (canonical),
/// built in the working directory `root`, written to `out_file`.
pub open spec fn is_config_for(
    c: CompilerConfiguration,
    root: Seq<char>,
    entry: Seq<char>,
    out_file: Seq<char>,
) -> bool {
    let o = c.output;
    let f = o.filenames;
    let h = o.hashing;
    let p = c.js_parser;
    &&& c.context@ == root
    &&& c.entry@ == entry
    &&& c.mode == BuildMode::Development
    &&& c.target@.len() == 2
    &&& c.target@[0]@ == "es2022"@
    &&& c.target@[1]@ == "node"@
    &&& o.path@ == root
    &&& f.main@ == out_file
    &&& f.chunk@ == "[id].js"@
    &&& f.asset@ == "asset-[name].js"@
    &&& f.css@ == "[name].css"@
    &&& f.css_chunk@ == "[id].css"@
    &&& f.hot_update_main@ == "[name].[hash].hot-update.js"@
    &&& f.hot_update_chunk@ == "[id].[hash].hot-update.js"@
    &&& f.source_map@ == "[file].map"@
    &&& f.webassembly_module@ == "webassembly.js"@
    &&& h.function == HashAlgorithm::Md4
    &&& h.digest == DigestEncoding::Hex
    &&& h.digest_length == 20
    &&& h.salt@ == "salt"@
    &&& o.chunk_loading == ChunkLoadingMode::Import
    &&& o.worker_chunk_loading == ChunkLoadingMode::Disabled
    &&& !o.wasm_loading
    &&& !o.worker_wasm_loading
    &&& o.public_path_auto
    &&& !o.cross_origin_loading
    &&& o.unique_name@ == "main"@
    &&& o.global_object@ == "window"@
    &&& o.import_function_name@ == "import"@
    &&& o.import_meta_name@ == ""@
    &&& o.script_type@ == "text/javascript"@
    &&& o.chunk_loading_global@ == ""@
    &&& o.hot_update_global@ == ""@
    &&& o.worker_public_path@ == ""@
    &&& o.chunk_load_timeout == 0
    &&& !o.clean
    &&& !o.pathinfo
    &&& !o.charset
    &&& !o.css_head_data_compression
    &&& !o.async_chunks
    &&& !o.iife
    &&& !o.module
    &&& !o.strict_module_error_handling
    &&& o.env_const
    &&& o.env_arrow_function
    &&& c.resolve.extensions@.len() == 1
    &&& c.resolve.extensions@[0]@ == ".js"@
    &&& c.resolve_loader.extensions@.len() == 1
    &&& c.resolve_loader.extensions@[0]@ == ".js"@
    &&& p.dynamic_import_mode == DynamicImportMode::Eager
    &&& p.dynamic_import_prefetch == ImportOrder::Order(1)
    &&& p.dynamic_import_preload == ImportOrder::Order(1)
    &&& !p.url
    &&& !p.import_meta
    &&& !p.expr_context_critical
    &&& !p.wrapped_context_critical
    &&& !p.strict_export_presence
    &&& p.worker@.len() == 0
    &&& c.optimization == (OptimizationConfig {
        concatenate_modules: false,
        remove_available_modules: false,
        provided_exports: false,
        mangle_exports: false,
        inner_graph: true,
        used_exports: false,
        side_effects: false,
    })
    &&& c.experiments == (ExperimentsConfig {
        layers: false,
        top_level_await: false,
        incremental_make: false,
        incremental_emit_assets: false,
    })
    &&& !c.profile
    &&& !c.bail
}

/// The two values agree field for field, strings and lists by their contents.
pub open spec fn same_config(a: CompilerConfiguration, b: CompilerConfiguration) -> bool {
    let (x, y) = (a.output, b.output);
    let (f, g) = (x.filenames, y.filenames);
    let (p, q) = (a.js_parser, b.js_parser);
    &&& a.context@ == b.context@
    &&& a.entry@ == b.entry@
    &&& a.mode == b.mode
    &&& a.target.deep_view() == b.target.deep_view()
    &&& x.path@ == y.path@
    &&& f.main@ == g.main@
    &&& f.chunk@ == g.chunk@
    &&& f.asset@ == g.asset@
    &&& f.css@ == g.css@
    &&& f.css_chunk@ == g.css_chunk@
    &&& f.hot_update_main@ == g.hot_update_main@
    &&& f.hot_update_chunk@ == g.hot_update_chunk@
    &&& f.source_map@ == g.source_map@
    &&& f.webassembly_module@ == g.webassembly_module@
    &&& x.hashing.function == y.hashing.function
    &&& x.hashing.digest == y.hashing.digest
    &&& x.hashing.digest_length == y.hashing.digest_length
    &&& x.hashing.salt@ == y.hashing.salt@
    &&& x.chunk_loading == y.chunk_loading
    &&& x.worker_chunk_loading == y.worker_chunk_loading
    &&& x.wasm_loading == y.wasm_loading
    &&& x.worker_wasm_loading == y.worker_wasm_loading
    &&& x.public_path_auto == y.public_path_auto
    &&& x.cross_origin_loading == y.cross_origin_loading
    &&& x.unique_name@ == y.unique_name@
    &&& x.global_object@ == y.global_object@
    &&& x.import_function_name@ == y.import_function_name@
    &&& x.import_meta_name@ == y.import_meta_name@
    &&& x.script_type@ == y.script_type@
    &&& x.chunk_loading_global@ == y.chunk_loading_global@
    &&& x.hot_update_global@ == y.hot_update_global@
    &&& x.worker_public_path@ == y.worker_public_path@
    &&& x.chunk_load_timeout == y.chunk_load_timeout
    &&& x.clean == y.clean
    &&& x.pathinfo == y.pathinfo
    &&& x.charset == y.charset
    &&& x.css_head_data_compression == y.css_head_data_compression
    &&& x.async_chunks == y.async_chunks
    &&& x.iife == y.iife
    &&& x.module == y.module
    &&& x.strict_module_error_handling == y.strict_module_error_handling
    &&& x.env_const == y.env_const
    &&& x.env_arrow_function == y.env_arrow_function
    &&& a.resolve.extensions.deep_view() == b.resolve.extensions.deep_view()
    &&& a.resolve_loader.extensions.deep_view() == b.resolve_loader.extensions.deep_view()
    &&& p.dynamic_import_mode == q.dynamic_import_mode
    &&& p.dynamic_import_prefetch == q.dynamic_import_prefetch
    &&& p.dynamic_import_preload == q.dynamic_import_preload
    &&& p.url == q.url
    &&& p.import_meta == q.import_meta
    &&& p.expr_context_critical == q.expr_context_critical
    &&& p.wrapped_context_critical == q.wrapped_context_critical
    &&& p.strict_export_presence == q.strict_export_presence
    &&& p.worker.deep_view() == q.worker.deep_view()
    &&& a.optimization == b.optimization
    &&& a.experiments == b.experiments
    &&& a.profile == b.profile
    &&& a.bail == b.bail
}

/// Every configuration that the builder may return is well formed: each
/// artifact kind has its template, the hashing parameters agree, and the
/// target, resolution and naming fields are all given.
pub proof fn config_for_is_well_formed(
    c: CompilerConfiguration,
    root: Seq<char>,
    entry: Seq<char>,
    out_file: Seq<char>,
)
    requires
        is_config_for(c, root, entry, out_file),
    ensures
        c.wf(),
{
    reveal_strlit("[id].js");
    reveal_strlit("asset-[name].js");
    reveal_strlit("[name].css");
    reveal_strlit("[id].css");
    reveal_strlit("[name].[hash].hot-update.js");
    reveal_strlit("[id].[hash].hot-update.js");
    reveal_strlit("[file].map");
    reveal_strlit("webassembly.js");
    reveal_strlit("main");
    reveal_strlit("window");
    reveal_strlit("import");
    reveal_strlit("text/javascript");
}

/// Building twice from the same request, working directory and resolved
/// entry gives configurations that agree field for field.
pub proof fn config_is_deterministic(
    a: CompilerConfiguration,
    b: CompilerConfiguration,
    root: Seq<char>,
    entry: Seq<char>,
    out_file: Seq<char>,
)
    requires
        is_config_for(a, root, entry, out_file),
        is_config_for(b, root, entry, out_file),
    ensures
        same_config(a, b),
{
    assert(a.target.deep_view() =~= b.target.deep_view());
    assert(a.resolve.extensions.deep_view() =~= b.resolve.extensions.deep_view());
    assert(a.resolve_loader.extensions.deep_view() =~= b.resolve_loader.extensions.deep_view());
    assert(a.js_parser.worker.deep_view() =~= b.js_parser.worker.deep_view());
}

fn js_extensions() -> (r: Vec<String>)
    ensures
        r@.len() == 1,
        r@[0]@ == ".js"@,
{
    let mut v: Vec<String> = Vec::new();
    v.push(String::from_str(".js"));
    v
}

/// Builds the configuration of a bundle of `request` in the working
/// directory `root`. `resolved_entry` is the canonical form of the path that
/// [`crate::entry_candidate`] gives, or `None` where nothing exists there.
pub fn build_config(
    request: &BundleRequest,
    root: &str,
    resolved_entry: Option<String>,
) -> (r: Result<CompilerConfiguration, ConfigError>)
    ensures
        r is Ok <==> resolved_entry is Some,
        resolved_entry is None ==> (r matches Err(ConfigError::EntryNotFound { path })
            && path@ == joined_path(root@, request.entry_file@)),
        r matches Ok(c) ==> c.wf() && is_config_for(
            c,
            root@,
            resolved_entry.unwrap()@,
            main_filename(*request),
        ),
{
    let entry = match resolved_entry {
        Some(e) => e,
        None => {
            let path = entry_candidate(root, request.entry_file.as_str());
            return Err(ConfigError::EntryNotFound { path });
        },
    };
    let main = match &request.out_file {
        Some(f) => f.clone(),
        None => String::from_str("output.js"),
    };
    let filenames = FilenameTemplates {
        main,
        chunk: String::from_str("[id].js"),
        asset: String::from_str("asset-[name].js"),
        css: String::from_str("[name].css"),
        css_chunk: String::from_str("[id].css"),
        hot_update_main: String::from_str("[name].[hash].hot-update.js"),
        hot_update_chunk: String::from_str("[id].[hash].hot-update.js"),
        source_map: String::from_str("[file].map"),
        webassembly_module: String::from_str("webassembly.js"),
    };
    let hashing = HashingOptions {
        function: HashAlgorithm::Md4,
        digest: DigestEncoding::Hex,
        digest_length: 20,
        salt: String::from_str("salt"),
    };
    let output = OutputConfig {
        path: String::from_str(root),
        filenames,
        hashing,
        chunk_loading: ChunkLoadingMode::Import,
        worker_chunk_loading: ChunkLoadingMode::Disabled,
        wasm_loading: false,
        worker_wasm_loading: false,
        public_path_auto: true,
        cross_origin_loading: false,
        unique_name: String::from_str("main"),
        global_object: String::from_str("window"),
        import_function_name: String::from_str("import"),
        import_meta_name: String::from_str(""),
        script_type: String::from_str("text/javascript"),
        chunk_loading_global: String::from_str(""),
        hot_update_global: String::from_str(""),
        worker_public_path: String::from_str(""),
        chunk_load_timeout: 0,
        clean: false,
        pathinfo: false,
        charset: false,
        css_head_data_compression: false,
        async_chunks: false,
        iife: false,
        module: false,
        strict_module_error_handling: false,
        env_const: true,
        env_arrow_function: true,
    };
    let mut target: Vec<String> = Vec::new();
    target.push(String::from_str("es2022"));
    target.push(String::from_str("node"));
    let js_parser = JsParserConfig {
        dynamic_import_mode: DynamicImportMode::Eager,
        dynamic_import_prefetch: ImportOrder::Order(1),
        dynamic_import_preload: ImportOrder::Order(1),
        url: false,
        import_meta: false,
        expr_context_critical: false,
        wrapped_context_critical: false,
        strict_export_presence: false,
        worker: Vec::new(),
    };
    let config = CompilerConfiguration {
        context: String::from_str(root),
        entry: entry.clone(),
        mode: BuildMode::Development,
        target,
        output,
        resolve: ResolveConfig { extensions: js_extensions() },
        resolve_loader: ResolveConfig { extensions: js_extensions() },
        js_parser,
        optimization: OptimizationConfig {
            concatenate_modules: false,
            remove_available_modules: false,
            provided_exports: false,
            mangle_exports: false,
            inner_graph: true,
            used_exports: false,
            side_effects: false,
        },
        experiments: ExperimentsConfig {
            layers: false,
            top_level_await: false,
            incremental_make: false,
            incremental_emit_assets: false,
        },
        profile: false,
        bail: false,
    };
    proof {
        config_for_is_well_formed(config, root@, entry@, main_filename(*request));
    }
    match config.validate() {
        Ok(()) => Ok(config),
        Err(e) => Err(e),
    }
}

} // verus!
