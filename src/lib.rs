//! A verified core for asynchronously loaded component state: a load cell
//! whose state moves through `Unloaded`, `Loading` and a terminal outcome,
//! the policy that decides when a component starts a load, and the rule that
//! keeps or rebuilds a component instance when its properties change.
pub mod resource;
pub mod binding;
pub mod laws;
pub mod lifecycle;
pub mod components;
pub mod runner;
pub mod tooling;

pub use components::{
    NavigationBarComponent, ParameterizedRouteComponent, ParameterizedRouteComponentProperties,
};
pub use lifecycle::{FromProperties, InstanceRecord, NoProperties, Slot};
pub use runner::{Launch, Platform, Runner, WindowPlan};
pub use tooling::{BinaryDependencies, MissingBinary};
pub use resource::{CellEvent, PendingLoad, Resource, ResourceState};
