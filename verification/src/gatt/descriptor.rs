//! Descriptors attached to a characteristic.

use crate::gatt::properties::{AttributePermission, CharacteristicProperty};
use crate::uuid::Uuid;
use vstd::prelude::*;

verus! {

/// A descriptor of a characteristic: identifier, capabilities,
/// permissions and an optional static value.
#[derive(Debug, Clone)]
pub struct Descriptor {
    pub uuid: Uuid,
    pub properties: Vec<CharacteristicProperty>,
    pub permissions: Vec<AttributePermission>,
    pub value: Option<Vec<u8>>,
}

impl Default for Descriptor {
    /// A readable and writeable descriptor with the zero identifier and
    /// no value.
    fn default() -> (r: Self)
        ensures
            r.uuid.spec_as_u128() == 0,
            r.properties@ == seq![
                CharacteristicProperty::Read,
                CharacteristicProperty::Write,
                CharacteristicProperty::Notify,
            ],
            r.permissions@ == seq![AttributePermission::Readable, AttributePermission::Writeable],
            r.value is None,
    {
        let mut properties: Vec<CharacteristicProperty> = Vec::new();
        properties.push(CharacteristicProperty::Read);
        properties.push(CharacteristicProperty::Write);
        properties.push(CharacteristicProperty::Notify);
        let mut permissions: Vec<AttributePermission> = Vec::new();
        permissions.push(AttributePermission::Readable);
        permissions.push(AttributePermission::Writeable);
        Descriptor { uuid: Uuid::nil(), properties, permissions, value: None }
    }
}

} // verus!
