//! How a client names the service it talks to, and where it finds the bus.

use vstd::prelude::*;

verus! {

/// Whether zbus takes `name` for the name of a D-Bus interface.
pub uninterp spec fn is_interface_name(name: Seq<char>) -> bool;

/// Whether zbus takes `path` for the path of a D-Bus object.
pub uninterp spec fn is_object_path(path: Seq<char>) -> bool;

/// Whether zbus takes `name` for a D-Bus bus name, unique or well-known.
pub uninterp spec fn is_bus_name(name: Seq<char>) -> bool;

/// Trusted: calls `zbus::names::InterfaceName::try_from` on the string slice
/// and tells whether it gave a name or an error. Nothing is claimed of the
/// answer but that it depends on the characters alone.
#[verifier::external_body]
fn check_interface_name(name: &str) -> (accepted: bool)
    ensures
        accepted == is_interface_name(name@),
{
    match zbus::names::InterfaceName::try_from(name) {
        Ok(_) => true,
        Err(_) => false,
    }
}

/// Trusted: calls `zbus::zvariant::ObjectPath::try_from` on the string slice
/// and tells whether it gave a path or an error. Nothing is claimed of the
/// answer but that it depends on the characters alone.
#[verifier::external_body]
fn check_object_path(path: &str) -> (accepted: bool)
    ensures
        accepted == is_object_path(path@),
{
    match zbus::zvariant::ObjectPath::try_from(path) {
        Ok(_) => true,
        Err(_) => false,
    }
}

/// Trusted: calls `zbus::names::BusName::try_from` on the string slice and
/// tells whether it gave a name or an error. Nothing is claimed of the answer
/// but that it depends on the characters alone.
#[verifier::external_body]
fn check_bus_name(name: &str) -> (accepted: bool)
    ensures
        accepted == is_bus_name(name@),
{
    match zbus::names::BusName::try_from(name) {
        Ok(_) => true,
        Err(_) => false,
    }
}

/// The first string of an identity that the bus library does not take.
#[derive(Clone, Copy, Debug, PartialEq, Eq)]
pub enum IdentityError {
    MalformedInterface,
    MalformedObjectPath,
    MalformedDestination,
}

/// The three strings of an identity.
pub struct IdentityView {
    pub interface: Seq<char>,
    pub object_path: Seq<char>,
    pub destination: Seq<char>,
}

impl IdentityView {
    /// Every string is one that the bus library takes.
    pub open spec fn well_formed(self) -> bool {
        &&& is_interface_name(self.interface)
        &&& is_object_path(self.object_path)
        &&& is_bus_name(self.destination)
    }
}

/// What a client's handle on the service is bound to: the interface it
/// speaks, the object it addresses and the bus name it sends to. A value of
/// this type holds only strings that the bus library takes.
#[derive(Debug, PartialEq, Eq)]
pub struct ServiceIdentity {
    interface: String,
    object_path: String,
    destination: String,
}

impl View for ServiceIdentity {
    type V = IdentityView;

    closed spec fn view(&self) -> IdentityView {
        IdentityView {
            interface: self.interface@,
            object_path: self.object_path@,
            destination: self.destination@,
        }
    }
}

impl ServiceIdentity {
    #[verifier::type_invariant]
    spec fn checked(self) -> bool {
        self@.well_formed()
    }

    /// Binds an identity, checking the interface first, then the path, then the
    /// destination. It fails on the first string that is malformed, and only then.
    pub fn build(interface: &str, object_path: &str, destination: &str) -> (built: Result<
        ServiceIdentity,
        IdentityError,
    >)
        ensures
            match built {
                Ok(identity) => {
                    &&& identity@.well_formed()
                    &&& identity@.interface == interface@
                    &&& identity@.object_path == object_path@
                    &&& identity@.destination == destination@
                },
                Err(IdentityError::MalformedInterface) => !is_interface_name(interface@),
                Err(IdentityError::MalformedObjectPath) => {
                    &&& is_interface_name(interface@)
                    &&& !is_object_path(object_path@)
                },
                Err(IdentityError::MalformedDestination) => {
                    &&& is_interface_name(interface@)
                    &&& is_object_path(object_path@)
                    &&& !is_bus_name(destination@)
                },
            },
    {
        if !check_interface_name(interface) {
            return Err(IdentityError::MalformedInterface);
        }
        if !check_object_path(object_path) {
            return Err(IdentityError::MalformedObjectPath);
        }
        if !check_bus_name(destination) {
            return Err(IdentityError::MalformedDestination);
        }
        Ok(
            ServiceIdentity {
                interface: interface.to_owned(),
                object_path: object_path.to_owned(),
                destination: destination.to_owned(),
            },
        )
    }

    /// The interface name.
    pub fn interface(&self) -> (name: &str)
        ensures
            name@ == self@.interface,
            self@.well_formed(),
    {
        proof {
            use_type_invariant(self);
        }
        self.interface.as_str()
    }

    /// The object path.
    pub fn object_path(&self) -> (path: &str)
        ensures
            path@ == self@.object_path,
            self@.well_formed(),
    {
        proof {
            use_type_invariant(self);
        }
        self.object_path.as_str()
    }

    /// The bus name of the service.
    pub fn destination(&self) -> (name: &str)
        ensures
            name@ == self@.destination,
            self@.well_formed(),
    {
        proof {
            use_type_invariant(self);
        }
        self.destination.as_str()
    }
}

/// The address of the bus: the configured one where there is one, the
/// fallback where there is none.
pub fn bus_address(configured: Option<String>, fallback: &str) -> (address: String)
    ensures
        address@ == match configured {
            Some(given) => given@,
            None => fallback@,
        },
{
    match configured {
        Some(given) => given,
        None => fallback.to_owned(),
    }
}

} // verus!
