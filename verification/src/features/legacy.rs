//! Legacy keys that still name features, and the old toggles they came from.
use vstd::prelude::*;

use crate::features::{Feature, Features};
use crate::text::str_eq;

verus! {

/// The feature a legacy key stands for.
pub open spec fn legacy_alias(key: Seq<char>) -> Option<Feature> {
    if key == "connectors"@ {
        Some(Feature::Apps)
    } else if key == "experimental_use_unified_exec_tool"@ {
        Some(Feature::UnifiedExec)
    } else if key == "experimental_use_freeform_apply_patch"@ {
        Some(Feature::ApplyPatchFreeform)
    } else if key == "include_apply_patch_tool"@ {
        Some(Feature::ApplyPatchFreeform)
    } else if key == "web_search"@ {
        Some(Feature::WebSearchRequest)
    } else if key == "collab"@ {
        Some(Feature::Collab)
    } else if key == "memory_tool"@ {
        Some(Feature::MemoryTool)
    } else {
        None
    }
}

/// The legacy keys, in table order.
pub fn legacy_feature_keys() -> (r: Vec<&'static str>)
    ensures
        r@.len() == 7,
        forall|i: int| 0 <= i < 7 ==> legacy_alias((#[trigger] r@[i])@) is Some,
{
    let mut v: Vec<&'static str> = Vec::new();
    v.push("connectors");
    v.push("experimental_use_unified_exec_tool");
    v.push("experimental_use_freeform_apply_patch");
    v.push("include_apply_patch_tool");
    v.push("web_search");
    v.push("collab");
    v.push("memory_tool");
    v
}

/// The feature a legacy key stands for, if it is one.
pub fn feature_for_key(key: &str) -> (r: Option<Feature>)
    ensures
        r == legacy_alias(key@),
{
    if str_eq(key, "connectors") {
        Some(Feature::Apps)
    } else if str_eq(key, "experimental_use_unified_exec_tool") {
        Some(Feature::UnifiedExec)
    } else if str_eq(key, "experimental_use_freeform_apply_patch") {
        Some(Feature::ApplyPatchFreeform)
    } else if str_eq(key, "include_apply_patch_tool") {
        Some(Feature::ApplyPatchFreeform)
    } else if str_eq(key, "web_search") {
        Some(Feature::WebSearchRequest)
    } else if str_eq(key, "collab") {
        Some(Feature::Collab)
    } else if str_eq(key, "memory_tool") {
        Some(Feature::MemoryTool)
    } else {
        None
    }
}

/// Toggles of older configuration keys.
#[derive(Debug, Default)]
pub struct LegacyFeatureToggles {
    pub include_apply_patch_tool: Option<bool>,
    pub experimental_use_freeform_apply_patch: Option<bool>,
    pub experimental_use_unified_exec_tool: Option<bool>,
    pub tools_web_search: Option<bool>,
}

/// `set` after an optional toggle of `f`.
pub open spec fn toggled(set: Set<Feature>, f: Feature, value: Option<bool>) -> Set<Feature> {
    match value {
        Some(true) => set.insert(f),
        Some(false) => set.remove(f),
        None => set,
    }
}

impl LegacyFeatureToggles {
    /// Applies the old toggles in order: both apply-patch keys, then unified
    /// exec, then web search.
    pub fn apply(self, features: &mut Features)
        ensures
            final(features)@ == toggled(
                toggled(
                    toggled(
                        toggled(
                            old(features)@,
                            Feature::ApplyPatchFreeform,
                            self.include_apply_patch_tool,
                        ),
                        Feature::ApplyPatchFreeform,
                        self.experimental_use_freeform_apply_patch,
                    ),
                    Feature::UnifiedExec,
                    self.experimental_use_unified_exec_tool,
                ),
                Feature::WebSearchRequest,
                self.tools_web_search,
            ),
    {
        set_if_some(features, Feature::ApplyPatchFreeform, self.include_apply_patch_tool);
        set_if_some(features, Feature::ApplyPatchFreeform, self.experimental_use_freeform_apply_patch);
        set_if_some(features, Feature::UnifiedExec, self.experimental_use_unified_exec_tool);
        set_if_some(features, Feature::WebSearchRequest, self.tools_web_search);
    }
}

/// Enables or disables `feature` when a value is given.
pub fn set_if_some(features: &mut Features, feature: Feature, maybe_value: Option<bool>)
    ensures
        final(features)@ == toggled(old(features)@, feature, maybe_value),
{
    if let Some(enabled) = maybe_value {
        if enabled {
            features.enable(feature);
        } else {
            features.disable(feature);
        }
    }
}

} // verus!
