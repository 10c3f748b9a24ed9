//! Characteristics of a service.

use crate::gatt::descriptor::Descriptor;
use crate::gatt::properties::{AttributePermission, CharacteristicProperty};
use crate::uuid::Uuid;
use vstd::prelude::*;

verus! {

/// A characteristic: identifier, capabilities, permissions, an optional
/// static value, and its descriptors.
#[derive(Debug, Clone)]
pub struct Characteristic {
    pub uuid: Uuid,
    pub properties: Vec<CharacteristicProperty>,
    pub permissions: Vec<AttributePermission>,
    pub value: Option<Vec<u8>>,
    pub descriptors: Vec<Descriptor>,
}

impl Default for Characteristic {
    /// A readable, writeable and notifiable characteristic with the zero
    /// identifier, no value and no descriptors.
    fn default() -> (r: Self)
        ensures
            r.uuid.spec_as_u128() == 0,
            r.properties@ == seq![
                CharacteristicProperty::Read,
                CharacteristicProperty::Write,
                CharacteristicProperty::Notify,
            ],
            r.permissions@ == seq![AttributePermission::Readable, AttributePermission::Writeable],
            r.value is None,
            r.descriptors@.len() == 0,
    {
        let mut properties: Vec<CharacteristicProperty> = Vec::new();
        properties.push(CharacteristicProperty::Read);
        properties.push(CharacteristicProperty::Write);
        properties.push(CharacteristicProperty::Notify);
        let mut permissions: Vec<AttributePermission> = Vec::new();
        permissions.push(AttributePermission::Readable);
        permissions.push(AttributePermission::Writeable);
        Characteristic {
            uuid: Uuid::nil(),
            properties,
            permissions,
            value: None,
            descriptors: Vec::new(),
        }
    }
}

} // verus!
