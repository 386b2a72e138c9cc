//! The motors that are known by name, and the name that a motor is shown
//! under.
//!
//! To add a model, add a line to [`known_devices`] and to its model
//! [`device_table`]. A line with a product code is for that model; one without
//! is for every other model of the vendor.

use vstd::prelude::*;

use crate::text::{hex, push_hex, trim, trimmed};
use crate::types::MotorIdentity;

verus! {

/// One line of the table.
#[derive(Debug, Clone, Copy, PartialEq, Eq)]
pub struct KnownDevice {
    pub vendor_id: u32,
    /// `None` for every product of the vendor.
    pub product_code: Option<u32>,
    pub name: &'static str,
}

/// The known devices.
pub open spec fn device_table() -> Seq<KnownDevice> {
    seq![
        KnownDevice { vendor_id: 0x0068_6578, product_code: None, name: "HexMeow Motor" },
        KnownDevice {
            vendor_id: 0x4859_444C,
            product_code: Some(0xAAAA_0001),
            name: "CiA402 HEX-4310",
        },
        KnownDevice {
            vendor_id: 0x4859_444C,
            product_code: Some(0xAAAA_0002),
            name: "CiA402 HEX-4342P",
        },
        KnownDevice {
            vendor_id: 0x4859_444C,
            product_code: Some(0xAAAA_0005),
            name: "CiA402 HEX-4360P",
        },
        KnownDevice {
            vendor_id: 0x4859_444C,
            product_code: None,
            name: "CiA402 HEX Motor (未知型号)",
        },
    ]
}

/// The known devices.
pub fn known_devices() -> (r: Vec<KnownDevice>)
    ensures
        r@ == device_table(),
{
    let table = vec![
        KnownDevice { vendor_id: 0x0068_6578, product_code: None, name: "HexMeow Motor" },
        KnownDevice {
            vendor_id: 0x4859_444C,
            product_code: Some(0xAAAA_0001),
            name: "CiA402 HEX-4310",
        },
        KnownDevice {
            vendor_id: 0x4859_444C,
            product_code: Some(0xAAAA_0002),
            name: "CiA402 HEX-4342P",
        },
        KnownDevice {
            vendor_id: 0x4859_444C,
            product_code: Some(0xAAAA_0005),
            name: "CiA402 HEX-4360P",
        },
        KnownDevice {
            vendor_id: 0x4859_444C,
            product_code: None,
            name: "CiA402 HEX Motor (未知型号)",
        },
    ];
    assert(table@ =~= device_table());
    table
}

/// The first line for this vendor with exactly this product code.
pub open spec fn first_line(
    table: Seq<KnownDevice>,
    vendor_id: u32,
    product_code: Option<u32>,
) -> Option<KnownDevice>
    decreases table.len(),
{
    if table.len() == 0 {
        None
    } else if table[0].vendor_id == vendor_id && table[0].product_code == product_code {
        Some(table[0])
    } else {
        first_line(table.skip(1), vendor_id, product_code)
    }
}

/// The line for a device: the one for its product, or else the one for any
/// product of its vendor.
pub open spec fn known(vendor_id: u32, product_code: u32) -> Option<KnownDevice> {
    match first_line(device_table(), vendor_id, Some(product_code)) {
        Some(d) => Some(d),
        None => first_line(device_table(), vendor_id, None),
    }
}

fn same_product(a: Option<u32>, b: Option<u32>) -> (r: bool)
    ensures
        r == (a == b),
{
    match (a, b) {
        (Some(x), Some(y)) => x == y,
        (None, None) => true,
        _ => false,
    }
}

fn find(table: &Vec<KnownDevice>, vendor_id: u32, product_code: Option<u32>) -> (r: Option<
    KnownDevice,
>)
    ensures
        r == first_line(table@, vendor_id, product_code),
{
    let mut i: usize = 0;
    assert(table@.skip(0) =~= table@);
    while i < table.len()
        invariant
            i <= table@.len(),
            first_line(table@, vendor_id, product_code) == first_line(
                table@.skip(i as int),
                vendor_id,
                product_code,
            ),
        decreases table@.len() - i,
    {
        let d = table[i];
        if d.vendor_id == vendor_id && same_product(d.product_code, product_code) {
            return Some(d);
        }
        assert(table@.skip(i as int).skip(1) =~= table@.skip(i + 1));
        i = i + 1;
    }
    None
}

/// Looks a device up: the line for its product if there is one, or else the
/// one for any product of its vendor.
pub fn lookup_known_device(vendor_id: u32, product_code: u32) -> (r: Option<KnownDevice>)
    ensures
        r == known(vendor_id, product_code),
{
    let table = known_devices();
    match find(&table, vendor_id, Some(product_code)) {
        Some(d) => Some(d),
        None => find(&table, vendor_id, None),
    }
}

/// The name that a motor is shown under: what it calls itself, unless that is
/// blank; or else the name in the table; or else its numbers.
pub open spec fn friendly_text(identity: MotorIdentity) -> Seq<char> {
    if identity.product_name matches Some(name) && trimmed(name@).len() > 0 {
        trimmed(identity.product_name->0@)
    } else if known(identity.vendor_id, identity.product_code) is Some {
        known(identity.vendor_id, identity.product_code)->0.name@
    } else {
        "Unknown CiA402 device (vendor 0x"@ + hex(identity.vendor_id as nat, 8) + ", product 0x"@
            + hex(identity.product_code as nat, 8) + ")"@
    }
}

/// The name that a motor is shown under.
pub fn human_friendly_name(identity: &MotorIdentity) -> (r: String)
    ensures
        r@ == friendly_text(*identity),
{
    if let Some(name) = &identity.product_name {
        let own = trim(name.as_str());
        if own.unicode_len() > 0 {
            return own.to_owned();
        }
    }
    if let Some(device) = lookup_known_device(identity.vendor_id, identity.product_code) {
        return device.name.to_owned();
    }
    let mut text = "Unknown CiA402 device (vendor 0x".to_owned();
    push_hex(&mut text, identity.vendor_id, 8);
    text.append(", product 0x");
    push_hex(&mut text, identity.product_code, 8);
    text.append(")");
    text
}

/// A line for the product wins over one for any product, and one of the two is
/// found whenever the table has it.
pub proof fn exact_line_wins(vendor_id: u32, product_code: u32)
    ensures
        match known(vendor_id, product_code) {
            Some(d) => {
                &&& device_table().contains(d)
                &&& d.vendor_id == vendor_id
                &&& d.product_code == Some(product_code) || (d.product_code is None && forall|i: int|
                    0 <= i < device_table().len() ==> !((
                    #[trigger] device_table()[i]).vendor_id == vendor_id
                        && device_table()[i].product_code == Some(product_code)))
            },
            None => forall|i: int|
                0 <= i < device_table().len() && (
                #[trigger] device_table()[i]).vendor_id == vendor_id
                    ==> device_table()[i].product_code is Some
                    && device_table()[i].product_code != Some(product_code),
        },
{
    first_line_is_found(device_table(), vendor_id, Some(product_code));
    first_line_is_found(device_table(), vendor_id, None);
}

proof fn first_line_is_found(table: Seq<KnownDevice>, vendor_id: u32, product_code: Option<u32>)
    ensures
        match first_line(table, vendor_id, product_code) {
            Some(d) => table.contains(d) && d.vendor_id == vendor_id && d.product_code
                == product_code,
            None => forall|i: int|
                0 <= i < table.len() ==> !((#[trigger] table[i]).vendor_id == vendor_id
                    && table[i].product_code == product_code),
        },
    decreases table.len(),
{
    if table.len() > 0 {
        let rest = table.skip(1);
        if table[0].vendor_id == vendor_id && table[0].product_code == product_code {
            assert(table.contains(table[0]));
        } else {
            first_line_is_found(rest, vendor_id, product_code);
            match first_line(rest, vendor_id, product_code) {
                Some(d) => {
                    let i = choose|i: int| 0 <= i < rest.len() && rest[i] == d;
                    assert(table[i + 1] == d);
                },
                None => {
                    assert forall|i: int| 0 <= i < table.len() implies !((
                    #[trigger] table[i]).vendor_id == vendor_id && table[i].product_code
                        == product_code) by {
                        if i > 0 {
                            assert(rest[i - 1] == table[i]);
                        }
                    }
                },
            }
        }
    }
}

/// A motor is never shown under an empty name.
pub proof fn friendly_name_is_not_empty(identity: MotorIdentity)
    ensures
        friendly_text(identity).len() > 0,
{
    reveal_strlit("HexMeow Motor");
    reveal_strlit("CiA402 HEX-4310");
    reveal_strlit("CiA402 HEX-4342P");
    reveal_strlit("CiA402 HEX-4360P");
    reveal_strlit("CiA402 HEX Motor (未知型号)");
    reveal_strlit(")");
    exact_line_wins(identity.vendor_id, identity.product_code);
}

/// The names of the devices, for every vendor and product: the first vendor has
/// one name for all its products; the second one for each of three products and
/// another for all others; no other vendor is known.
pub proof fn names_of_devices(vendor_id: u32, product_code: u32)
    ensures
        vendor_id == 0x0068_6578 ==> (known(vendor_id, product_code) matches Some(d) && d.name@
            == "HexMeow Motor"@),
        vendor_id == 0x4859_444C && product_code == 0xAAAA_0001 ==> (known(
            vendor_id,
            product_code,
        ) matches Some(d) && d.name@ == "CiA402 HEX-4310"@),
        vendor_id == 0x4859_444C && product_code == 0xAAAA_0002 ==> (known(
            vendor_id,
            product_code,
        ) matches Some(d) && d.name@ == "CiA402 HEX-4342P"@),
        vendor_id == 0x4859_444C && product_code == 0xAAAA_0005 ==> (known(
            vendor_id,
            product_code,
        ) matches Some(d) && d.name@ == "CiA402 HEX-4360P"@),
        vendor_id == 0x4859_444C && product_code != 0xAAAA_0001 && product_code != 0xAAAA_0002
            && product_code != 0xAAAA_0005 ==> (known(vendor_id, product_code) matches Some(d)
            && d.name@ == "CiA402 HEX Motor (未知型号)"@),
        vendor_id != 0x0068_6578 && vendor_id != 0x4859_444C ==> known(vendor_id, product_code)
            is None,
{
    let t = device_table();
    reveal_with_fuel(first_line, 6);
    assert(t.skip(1).skip(1) =~= t.skip(2));
    assert(t.skip(2).skip(1) =~= t.skip(3));
    assert(t.skip(3).skip(1) =~= t.skip(4));
    assert(t.skip(4).skip(1) =~= t.skip(5));
}

/// The name that a motor is shown under: its own, without white space around
/// it, if that leaves anything; else that of the device; else its two numbers
/// in eight digits each.
pub proof fn own_name_comes_first(identity: MotorIdentity)
    ensures
        identity.product_name is Some && trimmed(identity.product_name->0@).len() > 0
            ==> friendly_text(identity) == trimmed(identity.product_name->0@),
        !(identity.product_name is Some && trimmed(identity.product_name->0@).len() > 0) ==> (
        match known(identity.vendor_id, identity.product_code) {
            Some(d) => friendly_text(identity) == d.name@,
            None => friendly_text(identity) == "Unknown CiA402 device (vendor 0x"@ + (hex(
                identity.vendor_id as nat,
                8,
            ) + (", product 0x"@ + (hex(identity.product_code as nat, 8) + ")"@))),
        }),
{
    assert("Unknown CiA402 device (vendor 0x"@ + (hex(identity.vendor_id as nat, 8) + (
    ", product 0x"@ + (hex(identity.product_code as nat, 8) + ")"@))) =~= (
    "Unknown CiA402 device (vendor 0x"@ + hex(identity.vendor_id as nat, 8) + ", product 0x"@ + hex(
        identity.product_code as nat,
        8,
    ) + ")"@));
}

/// The vendor id of HexMeow is that of the first vendor: whatever the product,
/// it has that vendor's name.
pub proof fn own_vendor_is_known(product_code: u32)
    ensures
        known(MotorIdentity::HEXMEOW_VENDOR_ID, product_code) matches Some(d) && d.name@
            == "HexMeow Motor"@,
        MotorIdentity::HEXMEOW_VENDOR_ID == 0x0068_6578,
{
    names_of_devices(0x0068_6578, product_code);
}

} // verus!
