//! Identity of the service configuration that a balance change belongs to.

use vstd::prelude::*;

verus! {

/// Names a service and one of its configurations. Two descriptors with the
/// same two texts name the same configuration.
#[derive(Debug, PartialEq, Eq, Hash)]
pub struct ConfigurationDescriptor {
    pub service_name: String,
    pub service_configuration_key: String,
}

impl View for ConfigurationDescriptor {
    type V = (Seq<char>, Seq<char>);

    open spec fn view(&self) -> (Seq<char>, Seq<char>) {
        (self.service_name@, self.service_configuration_key@)
    }
}

impl Clone for ConfigurationDescriptor {
    fn clone(&self) -> (r: Self)
        ensures
            r == *self,
    {
        ConfigurationDescriptor {
            service_name: self.service_name.clone(),
            service_configuration_key: self.service_configuration_key.clone(),
        }
    }
}

impl ConfigurationDescriptor {
    /// The descriptor of the given service and configuration key.
    pub fn new(service_name: String, service_configuration_key: String) -> (r: Self)
        ensures
            r.service_name == service_name,
            r.service_configuration_key == service_configuration_key,
            r@ == (service_name@, service_configuration_key@),
    {
        Self { service_name, service_configuration_key }
    }

    /// Whether both descriptors name the same service and configuration.
    pub fn equals(&self, other: &Self) -> (r: bool)
        ensures
            r == (self@ == other@),
    {
        self.service_name == other.service_name && self.service_configuration_key
            == other.service_configuration_key
    }
}

} // verus!
