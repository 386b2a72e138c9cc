//! The identity of a motor, as read from CANopen objects 0x1018 and 0x1008.

use vstd::prelude::*;

verus! {

/// The identity of a motor (0x1018, and 0x1008 where the motor has it).
#[derive(Debug, PartialEq, Eq)]
pub struct MotorIdentity {
    pub node_id: u8,
    pub vendor_id: u32,
    pub product_code: u32,
    pub revision_number: u32,
    pub serial_number: u32,
    pub product_name: Option<String>,
}

impl MotorIdentity {
    /// The vendor id of HexMeow.
    pub const HEXMEOW_VENDOR_ID: u32 = 0x0068_6578;
}

impl Clone for MotorIdentity {
    fn clone(&self) -> (r: Self)
        ensures
            r == *self,
    {
        MotorIdentity {
            node_id: self.node_id,
            vendor_id: self.vendor_id,
            product_code: self.product_code,
            revision_number: self.revision_number,
            serial_number: self.serial_number,
            product_name: match &self.product_name {
                Some(name) => Some(name.clone()),
                None => None,
            },
        }
    }
}

} // verus!
