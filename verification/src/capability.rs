//! Device feature flags, negotiated once at startup.

use vstd::prelude::*;

verus! {

/// An optional device feature that a pipeline variant may depend on.
#[derive(Clone, Copy, Debug, PartialEq, Eq, Structural)]
pub enum Feature {
    /// Task and mesh stages may replace vertex input.
    MeshShader,
    /// Shader modules may be handed to the driver without translation.
    PassthroughShader,
}

/// A set of device features. Its view is the mathematical set of the
/// features it holds.
#[derive(Clone, Copy, Debug, PartialEq, Eq, Structural)]
pub struct CapabilitySet {
    mesh_shader: bool,
    passthrough_shader: bool,
}

impl View for CapabilitySet {
    type V = Set<Feature>;

    closed spec fn view(&self) -> Set<Feature> {
        Set::new(
            |f: Feature|
                match f {
                    Feature::MeshShader => self.mesh_shader,
                    Feature::PassthroughShader => self.passthrough_shader,
                },
        )
    }
}

impl CapabilitySet {
    /// The set without any feature: what the classic pipelines need.
    pub fn empty() -> (s: CapabilitySet)
        ensures
            s@ == Set::<Feature>::empty(),
    {
        let s = CapabilitySet { mesh_shader: false, passthrough_shader: false };
        s
    }

    /// The two features that a mesh-shading program asks of its adapter.
    pub fn mesh_shading() -> (s: CapabilitySet)
        ensures
            s@ == Set::<Feature>::empty().insert(Feature::MeshShader).insert(
                Feature::PassthroughShader,
            ),
    {
        let s = CapabilitySet { mesh_shader: true, passthrough_shader: true };
        s
    }

    /// This set with `feature` added.
    pub fn with(self, feature: Feature) -> (s: CapabilitySet)
        ensures
            s@ == self@.insert(feature),
    {
        let s = match feature {
            Feature::MeshShader => CapabilitySet {
                mesh_shader: true,
                passthrough_shader: self.passthrough_shader,
            },
            Feature::PassthroughShader => CapabilitySet {
                mesh_shader: self.mesh_shader,
                passthrough_shader: true,
            },
        };
        s
    }

    /// Whether `feature` is in the set.
    pub fn contains(&self, feature: Feature) -> (b: bool)
        ensures
            b == self@.contains(feature),
    {
        match feature {
            Feature::MeshShader => self.mesh_shader,
            Feature::PassthroughShader => self.passthrough_shader,
        }
    }

    /// Whether every feature of `required` is in this set.
    pub fn contains_all(&self, required: &CapabilitySet) -> (b: bool)
        ensures
            b == required@.subset_of(self@),
    {
        let b = (!required.mesh_shader || self.mesh_shader) && (!required.passthrough_shader
            || self.passthrough_shader);
        proof {
            if required.mesh_shader && !self.mesh_shader {
                assert(!self@.contains(Feature::MeshShader));
            }
            if required.passthrough_shader && !self.passthrough_shader {
                assert(!self@.contains(Feature::PassthroughShader));
            }
        }
        b
    }
}

} // verus!
