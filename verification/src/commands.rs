//! What the command surface shows of a plugin.

use crate::manifest::{EntryPointView, PluginManifest, PluginManifestView};
use vstd::prelude::*;

verus! {

/// What is shown of an entry point: all but the function behind it.
#[derive(Debug)]
pub struct EntryPointInfo {
    pub name: String,
    pub description: String,
    pub input_format: String,
    pub output_format: String,
}

/// What is shown of an entry point, as mathematical values.
pub struct EntryPointInfoView {
    pub name: Seq<char>,
    pub description: Seq<char>,
    pub input_format: Seq<char>,
    pub output_format: Seq<char>,
}

impl View for EntryPointInfo {
    type V = EntryPointInfoView;

    open spec fn view(&self) -> EntryPointInfoView {
        EntryPointInfoView {
            name: self.name@,
            description: self.description@,
            input_format: self.input_format@,
            output_format: self.output_format@,
        }
    }
}

impl DeepView for EntryPointInfo {
    type V = EntryPointInfoView;

    open spec fn deep_view(&self) -> EntryPointInfoView {
        self@
    }
}

/// What is shown of a plugin: its identity, its capabilities and its entry
/// points, without its sandbox policy and its module.
#[derive(Debug)]
pub struct PluginInfo {
    pub name: String,
    pub version: String,
    pub description: String,
    pub plugin_type: String,
    pub capabilities: Vec<String>,
    pub entry_points: Vec<EntryPointInfo>,
}

/// What is shown of a plugin, as mathematical values.
pub struct PluginInfoView {
    pub name: Seq<char>,
    pub version: Seq<char>,
    pub description: Seq<char>,
    pub plugin_type: Seq<char>,
    pub capabilities: Seq<Seq<char>>,
    pub entry_points: Seq<EntryPointInfoView>,
}

impl View for PluginInfo {
    type V = PluginInfoView;

    open spec fn view(&self) -> PluginInfoView {
        PluginInfoView {
            name: self.name@,
            version: self.version@,
            description: self.description@,
            plugin_type: self.plugin_type@,
            capabilities: self.capabilities.deep_view(),
            entry_points: self.entry_points.deep_view(),
        }
    }
}

/// What is shown of an entry point.
pub open spec fn entry_point_info(e: EntryPointView) -> EntryPointInfoView {
    EntryPointInfoView {
        name: e.name,
        description: e.description,
        input_format: e.input_format,
        output_format: e.output_format,
    }
}

/// What is shown of the plugin with this manifest.
pub open spec fn plugin_info(m: PluginManifestView) -> PluginInfoView {
    PluginInfoView {
        name: m.name,
        version: m.version,
        description: m.description,
        plugin_type: m.plugin_type,
        capabilities: m.capabilities,
        entry_points: m.entry_points.map_values(|e: EntryPointView| entry_point_info(e)),
    }
}

impl From<PluginManifest> for PluginInfo {
    fn from(manifest: PluginManifest) -> (r: PluginInfo)
        ensures
            r@ == plugin_info(manifest@),
    {
        let mut entry_points: Vec<EntryPointInfo> = Vec::new();
        let mut i: usize = 0;
        while i < manifest.entry_points.len()
            invariant
                i <= manifest.entry_points.len(),
                entry_points.len() == i,
                forall|j: int|
                    0 <= j < i ==> (#[trigger] entry_points[j])@ == entry_point_info(
                        manifest.entry_points[j]@,
                    ),
            decreases manifest.entry_points.len() - i,
        {
            entry_points.push(
                EntryPointInfo {
                    name: manifest.entry_points[i].name.clone(),
                    description: manifest.entry_points[i].description.clone(),
                    input_format: manifest.entry_points[i].input_format.clone(),
                    output_format: manifest.entry_points[i].output_format.clone(),
                },
            );
            i = i + 1;
        }
        proof {
            assert(entry_points.deep_view() =~= manifest@.entry_points.map_values(
                |e: EntryPointView| entry_point_info(e),
            ));
        }
        PluginInfo {
            name: manifest.name,
            version: manifest.version,
            description: manifest.description,
            plugin_type: manifest.plugin_type,
            capabilities: manifest.capabilities,
            entry_points,
        }
    }
}

impl vstd::std_specs::convert::FromSpecImpl<PluginManifest> for PluginInfo {
    open spec fn obeys_from_spec() -> bool {
        false
    }

    open spec fn from_spec(manifest: PluginManifest) -> PluginInfo {
        arbitrary()
    }
}

} // verus!
