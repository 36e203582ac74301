use vstd::prelude::*;

verus! {

/// One native destroy call of teardown. Destroy calls report no error status,
/// so teardown carries no error taxonomy, only ordering.
#[derive(Clone, Copy, PartialEq, Eq, Structural, Debug)]
pub enum DestroyAction {
    DestroyDevice,
    DestroyMessenger,
    DestroySurface,
    DestroyInstance,
}

/// The destroy calls teardown must make, in strict reverse-creation order:
/// the logical device first, then the debug messenger when one exists, then
/// the surface, and the instance last. Reordering is undefined behavior in
/// the native driver.
pub fn destroy_plan(has_messenger: bool) -> (r: Vec<DestroyAction>)
    ensures
        has_messenger ==> r@ =~= seq![
            DestroyAction::DestroyDevice,
            DestroyAction::DestroyMessenger,
            DestroyAction::DestroySurface,
            DestroyAction::DestroyInstance,
        ],
        !has_messenger ==> r@ =~= seq![
            DestroyAction::DestroyDevice,
            DestroyAction::DestroySurface,
            DestroyAction::DestroyInstance,
        ],
{
    let mut plan: Vec<DestroyAction> = Vec::new();
    plan.push(DestroyAction::DestroyDevice);
    if has_messenger {
        plan.push(DestroyAction::DestroyMessenger);
    }
    plan.push(DestroyAction::DestroySurface);
    plan.push(DestroyAction::DestroyInstance);
    plan
}

/// The single-shot construction sequence. No stage is skippable or
/// re-enterable, and `Destroyed` is terminal.
#[derive(Clone, Copy, PartialEq, Eq, Structural, Debug)]
pub enum BootstrapStage {
    Uninitialized,
    InstanceCreated,
    SurfaceAttached,
    PhysicalDeviceSelected,
    LogicalDeviceReady,
    Destroyed,
}

impl BootstrapStage {
    /// The only stage that may follow this one; none follows the terminal
    /// stage.
    pub open spec fn next_spec(self) -> Option<BootstrapStage> {
        match self {
            BootstrapStage::Uninitialized => Some(BootstrapStage::InstanceCreated),
            BootstrapStage::InstanceCreated => Some(BootstrapStage::SurfaceAttached),
            BootstrapStage::SurfaceAttached => Some(BootstrapStage::PhysicalDeviceSelected),
            BootstrapStage::PhysicalDeviceSelected => Some(BootstrapStage::LogicalDeviceReady),
            BootstrapStage::LogicalDeviceReady => Some(BootstrapStage::Destroyed),
            BootstrapStage::Destroyed => None,
        }
    }

    /// Advance to the next stage.
    pub fn next(self) -> (r: Option<BootstrapStage>)
        ensures
            r == self.next_spec(),
    {
        match self {
            BootstrapStage::Uninitialized => Some(BootstrapStage::InstanceCreated),
            BootstrapStage::InstanceCreated => Some(BootstrapStage::SurfaceAttached),
            BootstrapStage::SurfaceAttached => Some(BootstrapStage::PhysicalDeviceSelected),
            BootstrapStage::PhysicalDeviceSelected => Some(BootstrapStage::LogicalDeviceReady),
            BootstrapStage::LogicalDeviceReady => Some(BootstrapStage::Destroyed),
            BootstrapStage::Destroyed => None,
        }
    }
}

} // verus!
