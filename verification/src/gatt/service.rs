//! Services registered with the peripheral before advertising.

use crate::gatt::characteristic::Characteristic;
use crate::uuid::Uuid;
use vstd::prelude::*;

verus! {

/// A service: identifier, whether it is a primary service, and its
/// characteristics.
#[derive(Debug, Clone)]
pub struct Service {
    pub uuid: Uuid,
    pub primary: bool,
    pub characteristics: Vec<Characteristic>,
}

impl Default for Service {
    /// An empty primary service with the zero identifier.
    fn default() -> (r: Self)
        ensures
            r.uuid.spec_as_u128() == 0,
            r.primary,
            r.characteristics@.len() == 0,
    {
        Service { uuid: Uuid::nil(), primary: true, characteristics: Vec::new() }
    }
}

} // verus!
