//! The editor-side handler for particle-system property edits. Property
//! changes arrive as a closed set of variants — so an unhandled property is
//! impossible by construction — and each maps to the corresponding undoable
//! scene command; adding an emitter instead opens a selector window, whose
//! button click produces the command.
use vstd::prelude::*;

use crate::math::Vector3;
use crate::scene::Emitter;

verus! {

/// One edit of a particle-system node's properties.
#[derive(Clone, Copy, PartialEq, Eq, Debug)]
pub enum PropertyChange {
    TextureChanged(Option<u64>),
    AccelerationChanged(Vector3),
    EnabledChanged(bool),
    SoftBoundaryFactorChanged(u32),
    EmitterAdded,
    EmitterRemoved(usize),
}

/// An undoable command addressed to the scene, carrying the handle of the
/// node it applies to.
#[derive(Clone, Copy, PartialEq, Eq, Debug)]
pub enum SceneCommand {
    SetParticleSystemTexture { node: u64, texture: Option<u64> },
    SetParticleSystemAcceleration { node: u64, acceleration: Vector3 },
    SetParticleSystemEnabled { node: u64, enabled: bool },
    SetSoftBoundarySharpnessFactor { node: u64, factor: u32 },
    AddParticleSystemEmitter { node: u64, emitter: Emitter },
    DeleteEmitter { node: u64, index: usize },
}

/// What the handler asks its host to do for one property change.
#[derive(Clone, Copy, PartialEq, Eq, Debug)]
pub enum HandlerAction {
    /// Issue this undoable command.
    Do(SceneCommand),
    /// Open the emitter-selector window and wait for a button click.
    OpenEmitterSelector,
}

/// The emitter-selector button the user clicked.
#[derive(Clone, Copy, PartialEq, Eq, Structural, Debug)]
pub enum EmitterButton {
    Sphere,
    Cuboid,
    Cylinder,
}

pub open spec fn spec_emitter_for_button(button: EmitterButton) -> Emitter {
    match button {
        EmitterButton::Sphere => Emitter::Sphere,
        EmitterButton::Cuboid => Emitter::Cuboid,
        EmitterButton::Cylinder => Emitter::Cylinder,
    }
}

/// The action each property change maps to: every value edit becomes its
/// command, removing an emitter becomes a delete command, and adding one
/// opens the selector.
pub open spec fn spec_handle(change: PropertyChange, node_handle: u64) -> HandlerAction {
    match change {
        PropertyChange::TextureChanged(texture) => HandlerAction::Do(
            SceneCommand::SetParticleSystemTexture { node: node_handle, texture },
        ),
        PropertyChange::AccelerationChanged(acceleration) => HandlerAction::Do(
            SceneCommand::SetParticleSystemAcceleration { node: node_handle, acceleration },
        ),
        PropertyChange::EnabledChanged(enabled) => HandlerAction::Do(
            SceneCommand::SetParticleSystemEnabled { node: node_handle, enabled },
        ),
        PropertyChange::SoftBoundaryFactorChanged(factor) => HandlerAction::Do(
            SceneCommand::SetSoftBoundarySharpnessFactor { node: node_handle, factor },
        ),
        PropertyChange::EmitterAdded => HandlerAction::OpenEmitterSelector,
        PropertyChange::EmitterRemoved(index) => HandlerAction::Do(
            SceneCommand::DeleteEmitter { node: node_handle, index },
        ),
    }
}

/// The decision core of the particle-system inspector page: maps property
/// changes to commands and tracks whether its emitter-selector window is
/// open. The widgets themselves live with the host UI.
pub struct ParticleSystemHandler {
    selector_open: bool,
}

impl ParticleSystemHandler {
    pub closed spec fn spec_selector_open(self) -> bool {
        self.selector_open
    }

    /// A fresh handler; its selector window starts closed.
    pub fn new() -> (handler: ParticleSystemHandler)
        ensures
            !handler.spec_selector_open(),
    {
        ParticleSystemHandler { selector_open: false }
    }

    pub fn is_selector_open(&self) -> (open: bool)
        ensures
            open == self.spec_selector_open(),
    {
        self.selector_open
    }

    /// Maps one property change to the host's action; adding an emitter
    /// opens the selector window instead of issuing a command directly.
    pub fn handle(&mut self, change: &PropertyChange, node_handle: u64) -> (action: HandlerAction)
        ensures
            action == spec_handle(*change, node_handle),
            final(self).spec_selector_open() == (old(self).spec_selector_open() || *change
                is EmitterAdded),
    {
        match change {
            PropertyChange::TextureChanged(texture) => HandlerAction::Do(
                SceneCommand::SetParticleSystemTexture { node: node_handle, texture: *texture },
            ),
            PropertyChange::AccelerationChanged(acceleration) => HandlerAction::Do(
                SceneCommand::SetParticleSystemAcceleration {
                    node: node_handle,
                    acceleration: *acceleration,
                },
            ),
            PropertyChange::EnabledChanged(enabled) => HandlerAction::Do(
                SceneCommand::SetParticleSystemEnabled { node: node_handle, enabled: *enabled },
            ),
            PropertyChange::SoftBoundaryFactorChanged(factor) => HandlerAction::Do(
                SceneCommand::SetSoftBoundarySharpnessFactor {
                    node: node_handle,
                    factor: *factor,
                },
            ),
            PropertyChange::EmitterAdded => {
                self.selector_open = true;
                HandlerAction::OpenEmitterSelector
            },
            PropertyChange::EmitterRemoved(index) => HandlerAction::Do(
                SceneCommand::DeleteEmitter { node: node_handle, index: *index },
            ),
        }
    }

    /// A click on one of the selector's buttons adds the matching default
    /// emitter to the node and closes the selector window; any other click
    /// does nothing.
    pub fn handle_ui_message(
        &mut self,
        clicked: Option<EmitterButton>,
        node_handle: u64,
    ) -> (command: Option<SceneCommand>)
        ensures
            command == match clicked {
                Some(button) => Some(
                    SceneCommand::AddParticleSystemEmitter {
                        node: node_handle,
                        emitter: spec_emitter_for_button(button),
                    },
                ),
                None => None::<SceneCommand>,
            },
            final(self).spec_selector_open() == (old(self).spec_selector_open() && !(clicked
                is Some)),
    {
        match clicked {
            Some(button) => {
                let emitter = match button {
                    EmitterButton::Sphere => Emitter::Sphere,
                    EmitterButton::Cuboid => Emitter::Cuboid,
                    EmitterButton::Cylinder => Emitter::Cylinder,
                };
                self.selector_open = false;
                Some(SceneCommand::AddParticleSystemEmitter { node: node_handle, emitter })
            },
            None => None,
        }
    }
}

} // verus!
