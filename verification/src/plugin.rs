//! The plugin: what the prototype registers with the host scheduler.
//!
//! Building the plugin yields a plan — which sub-plugins and which systems
//! are handed to the engine, in order.  Two variants of the plugin have
//! existed: with and without the custom-material sub-plugin.  Either way
//! the same three systems are registered, in the same order; the variants
//! differ in that one registration alone.

use vstd::prelude::*;

verus! {

/// When the host scheduler runs a registered system.
#[derive(Clone, Copy, Debug, PartialEq, Eq, Structural)]
pub enum Schedule {
    /// Once, before the first frame.
    Startup,
    /// Every frame.
    Update,
}

/// The systems this plugin can register.
#[derive(Clone, Copy, Debug, PartialEq, Eq, Structural)]
pub enum SystemId {
    SetupCamera,
    SetupPlayer,
    MovePlayer,
}

/// One thing the plugin hands to the host engine.
#[derive(Clone, Copy, Debug, PartialEq, Eq, Structural)]
pub enum Registration {
    /// The sub-plugin that teaches the renderer the custom material.
    MaterialPlugin,
    /// Frame-time measuring, wanted only in development builds.
    FrameTimeDiagnosticsPlugin,
    /// Periodic logging of the measured diagnostics, likewise.
    LogDiagnosticsPlugin,
    /// A system placed in a schedule.
    System { schedule: Schedule, system: SystemId },
}

/// The prototype's plugin, configured by which optional registrations it
/// makes.
#[derive(Clone, Copy, Debug, PartialEq, Eq, Structural)]
pub struct LibPlugin {
    /// Whether the custom material/shader sub-plugin is registered.
    pub custom_material: bool,
    /// Whether the development diagnostics overlays are registered.
    pub diagnostics: bool,
}

/// The three systems every variant registers, in order: camera setup and
/// entity population at startup, then the player step every frame.
pub open spec fn spec_registered_systems() -> Seq<Registration> {
    seq![
        Registration::System { schedule: Schedule::Startup, system: SystemId::SetupCamera },
        Registration::System { schedule: Schedule::Startup, system: SystemId::SetupPlayer },
        Registration::System { schedule: Schedule::Update, system: SystemId::MovePlayer },
    ]
}

/// The diagnostics registrations, in order.
pub open spec fn spec_diagnostics_registrations() -> Seq<Registration> {
    seq![Registration::FrameTimeDiagnosticsPlugin, Registration::LogDiagnosticsPlugin]
}

/// Everything a plugin variant registers, in order.
pub open spec fn spec_build(p: LibPlugin) -> Seq<Registration> {
    let head = if p.custom_material {
        seq![Registration::MaterialPlugin]
    } else {
        Seq::<Registration>::empty()
    };
    let tail = if p.diagnostics {
        spec_diagnostics_registrations()
    } else {
        Seq::<Registration>::empty()
    };
    head + spec_registered_systems() + tail
}

impl LibPlugin {
    /// Registers this variant's plugins and systems, as a plan for the
    /// host engine.
    pub fn build(&self) -> (plan: Vec<Registration>)
        ensures
            plan@ == spec_build(*self),
    {
        let mut plan: Vec<Registration> = Vec::new();
        if self.custom_material {
            plan.push(Registration::MaterialPlugin);
        }
        plan.push(
            Registration::System { schedule: Schedule::Startup, system: SystemId::SetupCamera },
        );
        plan.push(
            Registration::System { schedule: Schedule::Startup, system: SystemId::SetupPlayer },
        );
        plan.push(
            Registration::System { schedule: Schedule::Update, system: SystemId::MovePlayer },
        );
        if self.diagnostics {
            plan.push(Registration::FrameTimeDiagnosticsPlugin);
            plan.push(Registration::LogDiagnosticsPlugin);
        }
        proof {
            assert(plan@ =~= spec_build(*self));
        }
        plan
    }
}

impl Default for LibPlugin {
    /// The variant currently in use: custom material on, diagnostics off.
    fn default() -> (p: LibPlugin)
        ensures
            p == (LibPlugin { custom_material: true, diagnostics: false }),
    {
        LibPlugin { custom_material: true, diagnostics: false }
    }
}

/// The two plugin variants differ in the custom-material registration
/// alone: with the sub-plugin, the plan is exactly that one registration
/// followed by the plan without it.
pub proof fn lemma_variants_differ_only_in_material(diagnostics: bool)
    ensures
        spec_build(LibPlugin { custom_material: true, diagnostics }) == seq![
            Registration::MaterialPlugin,
        ] + spec_build(LibPlugin { custom_material: false, diagnostics }),
{
    assert(spec_build(LibPlugin { custom_material: true, diagnostics }) =~= seq![
        Registration::MaterialPlugin,
    ] + spec_build(LibPlugin { custom_material: false, diagnostics }));
}

/// Every variant registers the same three systems, contiguously and in the
/// same order, whatever its flags say.
pub proof fn lemma_build_registers_systems(p: LibPlugin)
    ensures
        ({
            let start: int = if p.custom_material {
                1
            } else {
                0
            };
            spec_build(p).subrange(start, start + 3) == spec_registered_systems()
        }),
{
    let start: int = if p.custom_material {
        1
    } else {
        0
    };
    assert(spec_build(p).subrange(start, start + 3) =~= spec_registered_systems());
}

} // verus!
