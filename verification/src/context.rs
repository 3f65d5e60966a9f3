//! Device acquisition: which adapter will do, and what became of the
//! request for a device.

use crate::capability::CapabilitySet;
use crate::surface::{PresentMode, TextureFormat};
use vstd::prelude::*;

verus! {

/// Why no graphics context could be had. Each of them ends the program.
#[derive(Clone, Copy, Debug, PartialEq, Eq, Structural)]
pub enum InitError {
    /// No adapter can present to the window's surface.
    NoAdapter,
    /// The adapter lacks a feature that the pipeline variant requires.
    MissingFeature,
    /// The adapter refused to create a device.
    DeviceCreationFailed,
}

/// What the backend reported of the adapter it offered for the window's
/// surface: its features, and the formats and present modes it supports
/// for that surface, each in the adapter's order of preference.
#[derive(Debug, PartialEq, Eq)]
pub struct AdapterDescription {
    pub features: CapabilitySet,
    pub formats: Vec<TextureFormat>,
    pub present_modes: Vec<PresentMode>,
}

/// What became of the request for a device.
#[derive(Clone, Copy, Debug, PartialEq, Eq, Structural)]
pub enum DeviceOutcome {
    Created,
    Failed,
}

/// The device in use, as far as the frame loop reads it: the feature
/// set negotiated for it and what its surface prefers. Made once,
/// never changed.
#[derive(Clone, Copy, Debug, PartialEq, Eq, Structural)]
pub struct GraphicsContext {
    features: CapabilitySet,
    format: TextureFormat,
    present_mode: PresentMode,
}

/// Whether a device may be requested from `adapter` for a program that
/// requires `required`: only if there is an adapter, it can present to
/// the surface in some format and mode, and it has every required
/// feature.
pub open spec fn negotiation(
    adapter: Option<AdapterDescription>,
    required: CapabilitySet,
) -> Result<(), InitError> {
    match adapter {
        None => Err(InitError::NoAdapter),
        Some(found) => if found.formats@.len() == 0 || found.present_modes@.len() == 0 {
            Err(InitError::NoAdapter)
        } else if !required@.subset_of(found.features@) {
            Err(InitError::MissingFeature)
        } else {
            Ok(())
        },
    }
}

/// What startup comes to: the first obstacle met, or the context.
/// `device` counts only where negotiation passed.
pub open spec fn initialization(
    adapter: Option<AdapterDescription>,
    required: CapabilitySet,
    device: DeviceOutcome,
) -> Result<GraphicsContext, InitError> {
    match negotiation(adapter, required) {
        Err(e) => Err(e),
        Ok(()) => match device {
            DeviceOutcome::Failed => Err(InitError::DeviceCreationFailed),
            DeviceOutcome::Created => Ok(
                GraphicsContext::made_of(
                    required,
                    adapter->Some_0.formats@[0],
                    adapter->Some_0.present_modes@[0],
                ),
            ),
        },
    }
}

impl GraphicsContext {
    /// The context of a device with `features` whose surface prefers
    /// `format` and `present_mode`.
    pub closed spec fn made_of(
        features: CapabilitySet,
        format: TextureFormat,
        present_mode: PresentMode,
    ) -> GraphicsContext {
        GraphicsContext { features, format, present_mode }
    }

    /// A context holds what it was made of, and nothing else.
    pub proof fn made_of_holds(
        features: CapabilitySet,
        format: TextureFormat,
        present_mode: PresentMode,
    )
        ensures
            Self::made_of(features, format, present_mode).spec_features() == features,
            Self::made_of(features, format, present_mode).spec_format() == format,
            Self::made_of(features, format, present_mode).spec_present_mode() == present_mode,
    {
    }

    /// The features that the device was created with.
    pub closed spec fn spec_features(&self) -> CapabilitySet {
        self.features
    }

    /// The surface format that the adapter prefers.
    pub closed spec fn spec_format(&self) -> TextureFormat {
        self.format
    }

    /// The present mode that the adapter prefers.
    pub closed spec fn spec_present_mode(&self) -> PresentMode {
        self.present_mode
    }

    /// Decides, before any device is requested, whether one may be.
    /// The features are tested only on an adapter that can present.
    pub fn negotiate(adapter: &Option<AdapterDescription>, required: &CapabilitySet) -> (verdict:
        Result<(), InitError>)
        ensures
            verdict == negotiation(*adapter, *required),
    {
        match adapter {
            None => Err(InitError::NoAdapter),
            Some(found) => {
                if found.formats.len() == 0 || found.present_modes.len() == 0 {
                    Err(InitError::NoAdapter)
                } else if !found.features.contains_all(required) {
                    Err(InitError::MissingFeature)
                } else {
                    Ok(())
                }
            },
        }
    }

    /// The whole startup decision. `device` is read only where
    /// negotiation passed: the context then holds exactly the required
    /// features and the first format and present mode of the adapter.
    pub fn initialize(
        adapter: &Option<AdapterDescription>,
        required: CapabilitySet,
        device: DeviceOutcome,
    ) -> (outcome: Result<GraphicsContext, InitError>)
        ensures
            outcome == initialization(*adapter, required, device),
    {
        match GraphicsContext::negotiate(adapter, &required) {
            Err(e) => Err(e),
            Ok(()) => match device {
                DeviceOutcome::Failed => Err(InitError::DeviceCreationFailed),
                DeviceOutcome::Created => match adapter {
                    Some(found) => Ok(
                        GraphicsContext {
                            features: required,
                            format: found.formats[0],
                            present_mode: found.present_modes[0],
                        },
                    ),
                    None => Err(InitError::NoAdapter),
                },
            },
        }
    }

    /// The features that the device was created with.
    pub fn features(&self) -> (features: CapabilitySet)
        ensures
            features == self.spec_features(),
    {
        self.features
    }

    /// The surface format that the adapter prefers.
    pub fn format(&self) -> (format: TextureFormat)
        ensures
            format == self.spec_format(),
    {
        self.format
    }

    /// The present mode that the adapter prefers.
    pub fn present_mode(&self) -> (mode: PresentMode)
        ensures
            mode == self.spec_present_mode(),
    {
        self.present_mode
    }
}

} // verus!
