//! The authored office scene's naming contract: what each collider name
//! prefix selects at spawn time, and the descriptors spawned bodies carry.

use vstd::prelude::*;

verus! {

use crate::strings::{spec_starts_with, starts_with};

/// What a named node in the authored scene becomes when spawned.
#[derive(Debug, Copy, Clone, PartialEq, Eq, Structural)]
pub enum OfficeAssetKind {
    Collider,
    Sensor,
    Dynamic,
    Interactable,
    Point3D,
    RenderTarget,
    Normal,
    EmissiveNormal,
}

/// The kind a scene name selects: the first matching prefix wins, and a name
/// with no known prefix spawns as a plain render mesh.
pub open spec fn spec_kind_of_name(s: Seq<char>) -> OfficeAssetKind {
    if spec_starts_with(s, "collider_"@) {
        OfficeAssetKind::Collider
    } else if spec_starts_with(s, "sensor_"@) {
        OfficeAssetKind::Sensor
    } else if spec_starts_with(s, "dynamic_"@) {
        OfficeAssetKind::Dynamic
    } else if spec_starts_with(s, "point3d_"@) {
        OfficeAssetKind::Point3D
    } else if spec_starts_with(s, "render_target_"@) {
        OfficeAssetKind::RenderTarget
    } else if spec_starts_with(s, "emissive_"@) {
        OfficeAssetKind::EmissiveNormal
    } else if spec_starts_with(s, "interactable_"@) {
        OfficeAssetKind::Interactable
    } else {
        OfficeAssetKind::Normal
    }
}

impl OfficeAssetKind {
    /// Classify a scene node by its name prefix.
    pub fn from_str_prefix(s: &str) -> (r: Self)
        ensures
            r == spec_kind_of_name(s@),
    {
        if starts_with(s, "collider_") {
            OfficeAssetKind::Collider
        } else if starts_with(s, "sensor_") {
            OfficeAssetKind::Sensor
        } else if starts_with(s, "dynamic_") {
            OfficeAssetKind::Dynamic
        } else if starts_with(s, "point3d_") {
            OfficeAssetKind::Point3D
        } else if starts_with(s, "render_target_") {
            OfficeAssetKind::RenderTarget
        } else if starts_with(s, "emissive_") {
            OfficeAssetKind::EmissiveNormal
        } else if starts_with(s, "interactable_") {
            OfficeAssetKind::Interactable
        } else {
            OfficeAssetKind::Normal
        }
    }

    /// The name prefix that selects this kind; plain render meshes have none.
    pub fn prefix_of(&self) -> (r: &'static str)
        ensures
            r@ == self.spec_prefix_of(),
    {
        match *self {
            OfficeAssetKind::Collider => "collider_",
            OfficeAssetKind::Sensor => "sensor_",
            OfficeAssetKind::Dynamic => "dynamic_",
            OfficeAssetKind::Interactable => "interactable_",
            OfficeAssetKind::Point3D => "point3d_",
            OfficeAssetKind::RenderTarget => "render_target_",
            OfficeAssetKind::Normal => "",
            OfficeAssetKind::EmissiveNormal => "emissive_",
        }
    }

    pub open spec fn spec_prefix_of(&self) -> Seq<char> {
        match *self {
            OfficeAssetKind::Collider => "collider_"@,
            OfficeAssetKind::Sensor => "sensor_"@,
            OfficeAssetKind::Dynamic => "dynamic_"@,
            OfficeAssetKind::Interactable => "interactable_"@,
            OfficeAssetKind::Point3D => "point3d_"@,
            OfficeAssetKind::RenderTarget => "render_target_"@,
            OfficeAssetKind::Normal => ""@,
            OfficeAssetKind::EmissiveNormal => "emissive_"@,
        }
    }
}

/// A name carrying a prefix classifies as that prefix's kind.
pub proof fn lemma_prefix_selects_kind(k: OfficeAssetKind, s: Seq<char>)
    requires
        k != OfficeAssetKind::Normal,
        spec_starts_with(s, k.spec_prefix_of()),
    ensures
        spec_kind_of_name(s) == k,
{
    reveal_strlit("collider_");
    reveal_strlit("sensor_");
    reveal_strlit("dynamic_");
    reveal_strlit("point3d_");
    reveal_strlit("render_target_");
    reveal_strlit("emissive_");
    reveal_strlit("interactable_");
    // every prefix here opens with a different letter, so at most one matches
    assert forall|p: Seq<char>| #[trigger] spec_starts_with(s, p) && p.len() >= 1 implies s[0]
        == p[0] by {
        assert(s.subrange(0, p.len() as int)[0] == s[0]);
    }
}

/// How a static collider behaves: solid scenery, a trigger volume, or a free
/// body.
#[derive(Debug, Copy, Clone, Ord, PartialOrd, Eq, PartialEq, Structural)]
pub enum ColliderType {
    Static,
    Sensor,
    Dynamic,
}

/// The scene name an entity was spawned under; sensors are dispatched by it.
#[derive(Debug, Clone, PartialEq, Eq)]
pub struct EName {
    pub id: String,
}

/// What a spawned scene collider carries: its behaviour and its name.
#[derive(Debug, Clone, PartialEq, Eq)]
pub struct ColliderData {
    pub c_type: ColliderType,
    pub id: EName,
}

/// The structured description of a dynamic scene body: its surface
/// parameters, in thousandths, and the name it keeps.
#[derive(Debug, Clone, PartialEq, Eq)]
pub struct DynamicBodyDesc {
    pub friction_milli: u64,
    pub restitution_milli: u64,
    pub name: String,
}

} // verus!
