//! Capabilities and permissions of characteristics and descriptors.

use vstd::prelude::*;

verus! {

/// A capability a characteristic offers to remote clients.
#[derive(Debug, Clone, Copy, PartialEq, Eq, Structural)]
pub enum CharacteristicProperty {
    Broadcast,
    Read,
    WriteWithoutResponse,
    Write,
    AuthenticatedSignedWrites,
    Notify,
    NotifyEncryptionRequired,
    Indicate,
    IndicateEncryptionRequired,
    ExtendedProperties,
}

/// An access permission of a characteristic or descriptor value.
#[derive(Debug, Clone, Copy, PartialEq, Eq, Structural)]
pub enum AttributePermission {
    Readable,
    Writeable,
    ReadEncryptionRequired,
    WriteEncryptionRequired,
}

/// Whether `props` lists the property `p`.
pub fn contains_property(props: &Vec<CharacteristicProperty>, p: CharacteristicProperty) -> (r:
    bool)
    ensures
        r == props@.contains(p),
{
    let mut i: usize = 0;
    while i < props.len()
        invariant
            i <= props@.len(),
            forall|j: int| 0 <= j < i ==> props@[j] != p,
        decreases props@.len() - i,
    {
        if props[i] == p {
            return true;
        }
        i = i + 1;
    }
    false
}

/// Whether `perms` lists the permission `p`.
pub fn contains_permission(perms: &Vec<AttributePermission>, p: AttributePermission) -> (r: bool)
    ensures
        r == perms@.contains(p),
{
    let mut i: usize = 0;
    while i < perms.len()
        invariant
            i <= perms@.len(),
            forall|j: int| 0 <= j < i ==> perms@[j] != p,
        decreases perms@.len() - i,
    {
        if perms[i] == p {
            return true;
        }
        i = i + 1;
    }
    false
}

} // verus!
