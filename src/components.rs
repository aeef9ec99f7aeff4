//! The components that a new project starts with: a navigation bar that
//! takes no properties, and a route page built from a numeric id.
use vstd::prelude::*;
use crate::lifecycle::{FromProperties, NoProperties};

verus! {

/// The navigation bar shown on every page. It holds no state.
pub struct NavigationBarComponent {}

impl Default for NavigationBarComponent {
    fn default() -> (r: Self)
        ensures
            r == (NavigationBarComponent {}),
    {
        NavigationBarComponent {}
    }
}

impl FromProperties<NoProperties> for NavigationBarComponent {
    open spec fn built_from(properties: NoProperties) -> Self {
        NavigationBarComponent {}
    }

    fn from_properties(properties: NoProperties) -> (r: Self) {
        NavigationBarComponent::default()
    }
}

/// The properties of the route page: the id taken from the route.
#[derive(Clone, Copy, Debug, Eq)]
pub struct ParameterizedRouteComponentProperties {
    pub id: i32,
}

impl PartialEq for ParameterizedRouteComponentProperties {
    fn eq(&self, other: &Self) -> (r: bool) {
        self.id == other.id
    }
}

impl vstd::std_specs::cmp::PartialEqSpecImpl for ParameterizedRouteComponentProperties {
    open spec fn obeys_eq_spec() -> bool {
        true
    }

    open spec fn eq_spec(&self, other: &Self) -> bool {
        self.id == other.id
    }
}

impl ParameterizedRouteComponentProperties {
    pub fn new(id: i32) -> (r: Self)
        ensures
            r.id == id,
    {
        ParameterizedRouteComponentProperties { id }
    }
}

/// The route page: it shows the id it was built from.
pub struct ParameterizedRouteComponent {
    pub properties: ParameterizedRouteComponentProperties,
}

impl FromProperties<ParameterizedRouteComponentProperties> for ParameterizedRouteComponent {
    open spec fn built_from(properties: ParameterizedRouteComponentProperties) -> Self {
        ParameterizedRouteComponent { properties }
    }

    fn from_properties(properties: ParameterizedRouteComponentProperties) -> (r: Self) {
        ParameterizedRouteComponent { properties }
    }
}

} // verus!
