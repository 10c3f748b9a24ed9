//! Native attribute property and permission tables.
//!
//! The backends describe a characteristic's capabilities with their own
//! flag words and flag structures; these functions compute them from the
//! transport-agnostic model, so backend code only assembles its native
//! objects around them.

use crate::gatt::characteristic::Characteristic;
use crate::gatt::properties::{
    contains_permission, contains_property, AttributePermission, CharacteristicProperty,
};
use vstd::prelude::*;

verus! {

impl CharacteristicProperty {
    /// The CoreBluetooth property bit of this capability: the raw value
    /// of the matching `CBCharacteristicProperties` constant.
    pub open spec fn spec_cb_property(&self) -> u64 {
        match self {
            CharacteristicProperty::Broadcast => 0x01,
            CharacteristicProperty::Read => 0x02,
            CharacteristicProperty::WriteWithoutResponse => 0x04,
            CharacteristicProperty::Write => 0x08,
            CharacteristicProperty::Notify => 0x10,
            CharacteristicProperty::Indicate => 0x20,
            CharacteristicProperty::AuthenticatedSignedWrites => 0x40,
            CharacteristicProperty::ExtendedProperties => 0x80,
            CharacteristicProperty::NotifyEncryptionRequired => 0x100,
            CharacteristicProperty::IndicateEncryptionRequired => 0x200,
        }
    }

    pub fn to_cb_property(&self) -> (r: u64)
        ensures
            r == self.spec_cb_property(),
    {
        match self {
            CharacteristicProperty::Broadcast => 0x01,
            CharacteristicProperty::Read => 0x02,
            CharacteristicProperty::WriteWithoutResponse => 0x04,
            CharacteristicProperty::Write => 0x08,
            CharacteristicProperty::Notify => 0x10,
            CharacteristicProperty::Indicate => 0x20,
            CharacteristicProperty::AuthenticatedSignedWrites => 0x40,
            CharacteristicProperty::ExtendedProperties => 0x80,
            CharacteristicProperty::NotifyEncryptionRequired => 0x100,
            CharacteristicProperty::IndicateEncryptionRequired => 0x200,
        }
    }

    /// The Windows property bit of this capability: the raw value of the
    /// matching `GattCharacteristicProperties` constant. The encrypted
    /// notify and indicate variants have no Windows counterpart and fall
    /// back to the plain bits.
    pub open spec fn spec_gatt_property(&self) -> u32 {
        match self {
            CharacteristicProperty::Broadcast => 0x01,
            CharacteristicProperty::Read => 0x02,
            CharacteristicProperty::WriteWithoutResponse => 0x04,
            CharacteristicProperty::Write => 0x08,
            CharacteristicProperty::Notify => 0x10,
            CharacteristicProperty::Indicate => 0x20,
            CharacteristicProperty::AuthenticatedSignedWrites => 0x40,
            CharacteristicProperty::ExtendedProperties => 0x80,
            CharacteristicProperty::NotifyEncryptionRequired => 0x10,
            CharacteristicProperty::IndicateEncryptionRequired => 0x20,
        }
    }

    pub fn to_gatt_property(&self) -> (r: u32)
        ensures
            r == self.spec_gatt_property(),
    {
        match self {
            CharacteristicProperty::Broadcast => 0x01,
            CharacteristicProperty::Read => 0x02,
            CharacteristicProperty::WriteWithoutResponse => 0x04,
            CharacteristicProperty::Write => 0x08,
            CharacteristicProperty::Notify => 0x10,
            CharacteristicProperty::Indicate => 0x20,
            CharacteristicProperty::AuthenticatedSignedWrites => 0x40,
            CharacteristicProperty::ExtendedProperties => 0x80,
            CharacteristicProperty::NotifyEncryptionRequired => 0x10,
            CharacteristicProperty::IndicateEncryptionRequired => 0x20,
        }
    }
}

impl AttributePermission {
    /// The CoreBluetooth permission bit of this permission: the raw
    /// value of the matching `CBAttributePermissions` constant.
    pub open spec fn spec_attribute_permission(&self) -> u64 {
        match self {
            AttributePermission::Readable => 0x01,
            AttributePermission::Writeable => 0x02,
            AttributePermission::ReadEncryptionRequired => 0x04,
            AttributePermission::WriteEncryptionRequired => 0x08,
        }
    }

    pub fn to_attribute_permission(&self) -> (r: u64)
        ensures
            r == self.spec_attribute_permission(),
    {
        match self {
            AttributePermission::Readable => 0x01,
            AttributePermission::Writeable => 0x02,
            AttributePermission::ReadEncryptionRequired => 0x04,
            AttributePermission::WriteEncryptionRequired => 0x08,
        }
    }
}

/// The OR of the CoreBluetooth property bits of `props`.
pub open spec fn spec_cb_properties_mask(props: Seq<CharacteristicProperty>) -> u64
    decreases props.len(),
{
    if props.len() == 0 {
        0
    } else {
        spec_cb_properties_mask(props.drop_last()) | props.last().spec_cb_property()
    }
}

/// The CoreBluetooth property word of a characteristic.
pub fn characteristic_properties_mask(characteristic: &Characteristic) -> (r: u64)
    ensures
        r == spec_cb_properties_mask(characteristic.properties@),
{
    let props = &characteristic.properties;
    let mut mask: u64 = 0;
    let mut i: usize = 0;
    while i < props.len()
        invariant
            i <= props@.len(),
            mask == spec_cb_properties_mask(props@.take(i as int)),
        decreases props@.len() - i,
    {
        proof {
            assert(props@.take(i + 1).drop_last() =~= props@.take(i as int));
        }
        mask = mask | props[i].to_cb_property();
        i = i + 1;
    }
    proof {
        assert(props@.take(props@.len() as int) =~= props@);
    }
    mask
}

/// The OR of the CoreBluetooth permission bits of `perms`.
pub open spec fn spec_cb_permissions_mask(perms: Seq<AttributePermission>) -> u64
    decreases perms.len(),
{
    if perms.len() == 0 {
        0
    } else {
        spec_cb_permissions_mask(perms.drop_last()) | perms.last().spec_attribute_permission()
    }
}

/// The CoreBluetooth permission word of a characteristic.
pub fn characteristic_permissions_mask(characteristic: &Characteristic) -> (r: u64)
    ensures
        r == spec_cb_permissions_mask(characteristic.permissions@),
{
    let perms = &characteristic.permissions;
    let mut mask: u64 = 0;
    let mut i: usize = 0;
    while i < perms.len()
        invariant
            i <= perms@.len(),
            mask == spec_cb_permissions_mask(perms@.take(i as int)),
        decreases perms@.len() - i,
    {
        proof {
            assert(perms@.take(i + 1).drop_last() =~= perms@.take(i as int));
        }
        mask = mask | perms[i].to_attribute_permission();
        i = i + 1;
    }
    proof {
        assert(perms@.take(perms@.len() as int) =~= perms@);
    }
    mask
}

/// The OR of the Windows property bits of `props`.
pub open spec fn spec_gatt_properties_mask(props: Seq<CharacteristicProperty>) -> u32
    decreases props.len(),
{
    if props.len() == 0 {
        0
    } else {
        spec_gatt_properties_mask(props.drop_last()) | props.last().spec_gatt_property()
    }
}

/// The Windows property word of a characteristic.
pub fn get_gatt_characteristic_properties(characteristic: &Characteristic) -> (r: u32)
    ensures
        r == spec_gatt_properties_mask(characteristic.properties@),
{
    let props = &characteristic.properties;
    let mut mask: u32 = 0;
    let mut i: usize = 0;
    while i < props.len()
        invariant
            i <= props@.len(),
            mask == spec_gatt_properties_mask(props@.take(i as int)),
        decreases props@.len() - i,
    {
        proof {
            assert(props@.take(i + 1).drop_last() =~= props@.take(i as int));
        }
        mask = mask | props[i].to_gatt_property();
        i = i + 1;
    }
    proof {
        assert(props@.take(props@.len() as int) =~= props@);
    }
    mask
}

/// A Windows value protection level.
#[derive(Debug, Clone, Copy, PartialEq, Eq, Structural)]
pub enum ProtectionLevel {
    Plain,
    EncryptionRequired,
}

/// The Windows write and read protection levels of an attribute:
/// encryption is demanded exactly where the matching encrypted
/// permission is listed.
pub fn get_protection_level(attribute_permission: Vec<AttributePermission>) -> (r: (
    ProtectionLevel,
    ProtectionLevel,
))
    ensures
        r.0 == (if attribute_permission@.contains(AttributePermission::WriteEncryptionRequired) {
            ProtectionLevel::EncryptionRequired
        } else {
            ProtectionLevel::Plain
        }),
        r.1 == (if attribute_permission@.contains(AttributePermission::ReadEncryptionRequired) {
            ProtectionLevel::EncryptionRequired
        } else {
            ProtectionLevel::Plain
        }),
{
    let write_protection_level = if contains_permission(
        &attribute_permission,
        AttributePermission::WriteEncryptionRequired,
    ) {
        ProtectionLevel::EncryptionRequired
    } else {
        ProtectionLevel::Plain
    };
    let read_protection_level = if contains_permission(
        &attribute_permission,
        AttributePermission::ReadEncryptionRequired,
    ) {
        ProtectionLevel::EncryptionRequired
    } else {
        ProtectionLevel::Plain
    };
    (write_protection_level, read_protection_level)
}

/// The BlueZ read handler flags of a characteristic.
#[derive(Debug, Clone, Copy, PartialEq, Eq, Structural)]
pub struct ReadFlags {
    pub read: bool,
    pub secure_read: bool,
}

/// The BlueZ write handler flags of a characteristic.
#[derive(Debug, Clone, Copy, PartialEq, Eq, Structural)]
pub struct WriteFlags {
    pub write: bool,
    pub write_without_response: bool,
    pub authenticated_signed_writes: bool,
    pub secure_write: bool,
}

/// The BlueZ notification flags of a characteristic.
#[derive(Debug, Clone, Copy, PartialEq, Eq, Structural)]
pub struct NotifyFlags {
    pub notify: bool,
    pub indicate: bool,
}

/// The read handler a BlueZ characteristic gets: present exactly when
/// the characteristic is readable, secured when read encryption is
/// demanded.
pub fn get_characteristic_read(characteristic: &Characteristic) -> (r: Option<ReadFlags>)
    ensures
        r is Some <==> characteristic.properties@.contains(CharacteristicProperty::Read),
        r matches Some(f) ==> f.read && f.secure_read == characteristic.permissions@.contains(
            AttributePermission::ReadEncryptionRequired,
        ),
{
    if !contains_property(&characteristic.properties, CharacteristicProperty::Read) {
        return None;
    }
    let is_secure = contains_permission(
        &characteristic.permissions,
        AttributePermission::ReadEncryptionRequired,
    );
    Some(ReadFlags { read: true, secure_read: is_secure })
}

/// The write handler a BlueZ characteristic gets: present exactly when
/// some write capability is listed, with one flag per capability and a
/// secured write when write encryption is demanded.
pub fn get_characteristic_write(characteristic: &Characteristic) -> (r: Option<WriteFlags>)
    ensures
        r is Some <==> (characteristic.properties@.contains(CharacteristicProperty::Write)
            || characteristic.properties@.contains(CharacteristicProperty::WriteWithoutResponse)
            || characteristic.properties@.contains(
            CharacteristicProperty::AuthenticatedSignedWrites,
        )),
        r matches Some(f) ==> f.write == characteristic.properties@.contains(
            CharacteristicProperty::Write,
        ) && f.write_without_response == characteristic.properties@.contains(
            CharacteristicProperty::WriteWithoutResponse,
        ) && f.authenticated_signed_writes == characteristic.properties@.contains(
            CharacteristicProperty::AuthenticatedSignedWrites,
        ) && f.secure_write == characteristic.permissions@.contains(
            AttributePermission::WriteEncryptionRequired,
        ),
{
    let is_write = contains_property(&characteristic.properties, CharacteristicProperty::Write);
    let is_write_without_response = contains_property(
        &characteristic.properties,
        CharacteristicProperty::WriteWithoutResponse,
    );
    let is_authenticated_signed_write = contains_property(
        &characteristic.properties,
        CharacteristicProperty::AuthenticatedSignedWrites,
    );
    if !is_write && !is_write_without_response && !is_authenticated_signed_write {
        return None;
    }
    let is_write_encryption = contains_permission(
        &characteristic.permissions,
        AttributePermission::WriteEncryptionRequired,
    );
    Some(
        WriteFlags {
            write: is_write,
            write_without_response: is_write_without_response,
            authenticated_signed_writes: is_authenticated_signed_write,
            secure_write: is_write_encryption,
        },
    )
}

/// The notification setup a BlueZ characteristic gets: present exactly
/// when some notify or indicate capability is listed, with each flag
/// covering its plain and encrypted variant.
pub fn get_characteristic_notify(characteristic: &Characteristic) -> (r: Option<NotifyFlags>)
    ensures
        r is Some <==> (characteristic.properties@.contains(CharacteristicProperty::Notify)
            || characteristic.properties@.contains(
            CharacteristicProperty::NotifyEncryptionRequired,
        ) || characteristic.properties@.contains(CharacteristicProperty::Indicate)
            || characteristic.properties@.contains(
            CharacteristicProperty::IndicateEncryptionRequired,
        )),
        r matches Some(f) ==> f.notify == (characteristic.properties@.contains(
            CharacteristicProperty::Notify,
        ) || characteristic.properties@.contains(CharacteristicProperty::NotifyEncryptionRequired))
            && f.indicate == (characteristic.properties@.contains(CharacteristicProperty::Indicate)
            || characteristic.properties@.contains(
            CharacteristicProperty::IndicateEncryptionRequired,
        )),
{
    let notify = contains_property(&characteristic.properties, CharacteristicProperty::Notify);
    let notify_encryption_required = contains_property(
        &characteristic.properties,
        CharacteristicProperty::NotifyEncryptionRequired,
    );
    let indicate = contains_property(&characteristic.properties, CharacteristicProperty::Indicate);
    let indicate_encryption_required = contains_property(
        &characteristic.properties,
        CharacteristicProperty::IndicateEncryptionRequired,
    );
    if !notify && !notify_encryption_required && !indicate && !indicate_encryption_required {
        return None;
    }
    Some(
        NotifyFlags {
            notify: notify || notify_encryption_required,
            indicate: indicate || indicate_encryption_required,
        },
    )
}

} // verus!
