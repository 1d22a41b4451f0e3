use vstd::prelude::*;
use crate::config::{ChunkLoadingMode, CompilerConfiguration};

verus! {

/// Registration of the entry module, as the entry plugin receives it.
#[derive(Clone, Debug)]
pub struct EntryRegistration {
    /// Directory that the entry request is resolved against.
    pub context: String,
    /// Absolute path of the entry module.
    pub request: String,
    /// Name of the entry chunk.
    pub name: String,
    /// Runtime chunk of the entry, when it has one of its own.
    pub runtime: Option<String>,
    /// Chunk loading of the entry, when it differs from the output's.
    pub chunk_loading: Option<ChunkLoadingMode>,
}

/// A capability attached to the compilation engine.
#[derive(Clone, Debug)]
pub enum PipelinePlugin {
    /// Support for the JavaScript module type.
    JavaScript,
    /// Registers the entry module.
    Entry(EntryRegistration),
    /// Chunk ids in the order in which chunks were created.
    NaturalChunkIds,
    /// Module ids derived from the module paths.
    NamedModuleIds,
    /// `data:` URIs as virtual modules.
    DataUri,
    /// The bootstrap code that every bundle needs.
    Runtime,
}

/// The kind of a plugin, without its parameters.
#[derive(Clone, Copy, Debug, PartialEq, Eq)]
pub enum PluginKind {
    JavaScript,
    Entry,
    NaturalChunkIds,
    NamedModuleIds,
    DataUri,
    Runtime,
}

impl PipelinePlugin {
    pub open spec fn kind_of(&self) -> PluginKind {
        match self {
            PipelinePlugin::JavaScript => PluginKind::JavaScript,
            PipelinePlugin::Entry(_) => PluginKind::Entry,
            PipelinePlugin::NaturalChunkIds => PluginKind::NaturalChunkIds,
            PipelinePlugin::NamedModuleIds => PluginKind::NamedModuleIds,
            PipelinePlugin::DataUri => PluginKind::DataUri,
            PipelinePlugin::Runtime => PluginKind::Runtime,
        }
    }
}

/// The order in which the plugins register their lifecycle hooks.
pub open spec fn pipeline_order() -> Seq<PluginKind> {
    seq![
        PluginKind::JavaScript,
        PluginKind::Entry,
        PluginKind::NaturalChunkIds,
        PluginKind::NamedModuleIds,
        PluginKind::DataUri,
        PluginKind::Runtime,
    ]
}

pub open spec fn plugin_kinds(plugins: Seq<PipelinePlugin>) -> Seq<PluginKind> {
    plugins.map_values(|p: PipelinePlugin| p.kind_of())
}

/// `k` stands at exactly one place of `kinds`.
pub open spec fn occurs_once(kinds: Seq<PluginKind>, k: PluginKind) -> bool {
    exists|i: int|
        0 <= i < kinds.len() && kinds[i] == k && forall|j: int|
            0 <= j < kinds.len() && #[trigger] kinds[j] == k ==> j == i
}

/// The pipeline of a build in `context` whose entry module is at `entry`.
pub open spec fn is_pipeline_for(
    plugins: Seq<PipelinePlugin>,
    context: Seq<char>,
    entry: Seq<char>,
) -> bool {
    &&& plugin_kinds(plugins) == pipeline_order()
    &&& plugins[1] matches PipelinePlugin::Entry(e) && {
        &&& e.context@ == context
        &&& e.request@ == entry
        &&& e.name@ == "main"@
        &&& e.runtime is None
        &&& e.chunk_loading is None
    }
}

/// The plugins that give `config` its meaning, in the order in which the
/// engine must receive them.
pub fn assemble(config: &CompilerConfiguration) -> (r: Vec<PipelinePlugin>)
    ensures
        is_pipeline_for(r@, config.context@, config.entry@),
{
    let entry = EntryRegistration {
        context: config.context.clone(),
        request: config.entry.clone(),
        name: String::from_str("main"),
        runtime: None,
        chunk_loading: None,
    };
    let mut r: Vec<PipelinePlugin> = Vec::new();
    r.push(PipelinePlugin::JavaScript);
    r.push(PipelinePlugin::Entry(entry));
    r.push(PipelinePlugin::NaturalChunkIds);
    r.push(PipelinePlugin::NamedModuleIds);
    r.push(PipelinePlugin::DataUri);
    r.push(PipelinePlugin::Runtime);
    assert(plugin_kinds(r@) =~= pipeline_order());
    r
}

/// The order of the plugins is fixed: it does not depend on the
/// configuration or on the entry.
pub proof fn pipeline_order_is_structural(
    a: Seq<PipelinePlugin>,
    ctx_a: Seq<char>,
    entry_a: Seq<char>,
    b: Seq<PipelinePlugin>,
    ctx_b: Seq<char>,
    entry_b: Seq<char>,
)
    requires
        is_pipeline_for(a, ctx_a, entry_a),
        is_pipeline_for(b, ctx_b, entry_b),
    ensures
        plugin_kinds(a) == plugin_kinds(b),
        a.len() == b.len(),
{
    assert(plugin_kinds(a).len() == a.len());
    assert(plugin_kinds(b).len() == b.len());
}

/// A pipeline registers its one entry, and assigns chunk ids and module ids
/// by exactly one plugin each.
pub proof fn pipeline_has_unique_roles(
    plugins: Seq<PipelinePlugin>,
    context: Seq<char>,
    entry: Seq<char>,
)
    requires
        is_pipeline_for(plugins, context, entry),
    ensures
        occurs_once(plugin_kinds(plugins), PluginKind::Entry),
        occurs_once(plugin_kinds(plugins), PluginKind::NaturalChunkIds),
        occurs_once(plugin_kinds(plugins), PluginKind::NamedModuleIds),
{
    let k = plugin_kinds(plugins);
    assert(k[1] == PluginKind::Entry);
    assert(k[2] == PluginKind::NaturalChunkIds);
    assert(k[3] == PluginKind::NamedModuleIds);
}

} // verus!
