//! Planning the API instance: which extensions and validation layers to
//! enable, and which diagnostic messages to report.
//!
//! The core only decides the plan; the surrounding application maps it onto
//! the driver's extension and layer names and performs the instance-creation
//! call.

use vstd::prelude::*;

verus! {

/// Run-time configuration of the bootstrap; empty for now, reserved for
/// caller-supplied settings.
#[derive(Debug)]
pub struct Configuration {}

impl Default for Configuration {
    fn default() -> (r: Configuration)
        ensures
            r == (Configuration {  }),
    {
        Configuration {  }
    }
}

/// Whether diagnostics are wanted for this run, decided at run time rather
/// than build time.
#[derive(Clone, Copy, Debug, PartialEq, Eq, Structural)]
pub struct DiagnosticsConfig {
    pub enabled: bool,
}

/// Severity classes a driver attaches to diagnostic messages.
#[derive(Clone, Copy, Debug, PartialEq, Eq, Structural)]
pub enum Severity {
    Error,
    Warning,
    PerformanceWarning,
    Information,
    Debug,
}

impl DiagnosticsConfig {
    /// The message classes the diagnostic sink subscribes to: everything but
    /// plain information, and nothing at all when diagnostics are off.
    pub open spec fn spec_should_report(self, severity: Severity) -> bool {
        self.enabled && severity != Severity::Information
    }

    pub fn should_report(&self, severity: Severity) -> (r: bool)
        ensures
            r == self.spec_should_report(severity),
    {
        self.enabled && !(severity == Severity::Information)
    }
}

/// The instance extensions the bootstrap cares about: the platform's
/// windowing-surface extensions (queried from the environment and passed in
/// as a base set) and the debug-report extension.
#[derive(Clone, Copy, Debug, PartialEq, Eq, Structural)]
pub struct ExtensionSet {
    pub surface: bool,
    pub platform_surface: bool,
    pub debug_report: bool,
}

/// Everything the instance-creation call needs to know, beyond the static
/// application identity strings that configuration supplies directly.
#[derive(Clone, Copy, Debug, PartialEq, Eq, Structural)]
pub struct InstancePlan {
    pub extensions: ExtensionSet,
    pub enable_validation_layer: bool,
    pub register_diagnostics_sink: bool,
}

/// Adds the debug-report extension to the platform's required extensions
/// exactly when diagnostics are enabled; the platform extensions themselves
/// are kept as queried.
pub fn collect_vulkan_extensions(base: ExtensionSet, diagnostics: &DiagnosticsConfig) -> (r:
    ExtensionSet)
    ensures
        r.surface == base.surface,
        r.platform_surface == base.platform_surface,
        r.debug_report == (base.debug_report || diagnostics.enabled),
{
    ExtensionSet {
        surface: base.surface,
        platform_surface: base.platform_surface,
        debug_report: base.debug_report || diagnostics.enabled,
    }
}

/// Decides whether to enable the standard validation layer: only when
/// diagnostics are wanted and the driver actually offers the layer.
pub fn collect_vulkan_layers(validation_layer_available: bool, diagnostics: &DiagnosticsConfig) -> (
    r: bool)
    ensures
        r == (validation_layer_available && diagnostics.enabled),
{
    validation_layer_available && diagnostics.enabled
}

/// Assembles the full instance plan from the platform's required extensions,
/// the driver's layer availability and the diagnostics configuration.
///
/// A diagnostic sink is registered exactly when diagnostics are enabled,
/// and always together with the debug-report extension that carries it.
pub fn plan_instance(
    base: ExtensionSet,
    validation_layer_available: bool,
    diagnostics: &DiagnosticsConfig,
) -> (r: InstancePlan)
    ensures
        r.extensions.surface == base.surface,
        r.extensions.platform_surface == base.platform_surface,
        r.extensions.debug_report == (base.debug_report || diagnostics.enabled),
        r.enable_validation_layer == (validation_layer_available && diagnostics.enabled),
        r.register_diagnostics_sink == diagnostics.enabled,
        r.register_diagnostics_sink ==> r.extensions.debug_report,
{
    InstancePlan {
        extensions: collect_vulkan_extensions(base, diagnostics),
        enable_validation_layer: collect_vulkan_layers(validation_layer_available, diagnostics),
        register_diagnostics_sink: diagnostics.enabled,
    }
}

} // verus!
