//! COB-IDs: how the communication objects of a node are numbered, and which
//! identifiers are reserved.

use vstd::prelude::*;

use crate::error::{Error, Result};

verus! {

/// A CANopen communication object.
#[derive(Debug, Clone, Copy, PartialEq, Eq, Structural)]
pub enum CommunicationObject {
    /// Network management command (0x000), sent by the master.
    Nmt,
    /// Synchronisation (0x080).
    Sync,
    /// Emergency (0x080 + node id).
    Emergency,
    /// Time stamp (0x100).
    Time,
    Tpdo1,
    Rpdo1,
    Tpdo2,
    Rpdo2,
    Tpdo3,
    Rpdo3,
    Tpdo4,
    Rpdo4,
    /// Server to client (0x580 + node id).
    Tsdo,
    /// Client to server (0x600 + node id).
    Rsdo,
    /// Heartbeat (0x700 + node id).
    Heartbeat,
}

impl CommunicationObject {
    /// The part of the COB-ID that says which object it is.
    pub open spec fn code(self) -> u16 {
        match self {
            CommunicationObject::Nmt => 0x000,
            CommunicationObject::Sync => 0x080,
            CommunicationObject::Emergency => 0x080,
            CommunicationObject::Time => 0x100,
            CommunicationObject::Tpdo1 => 0x180,
            CommunicationObject::Rpdo1 => 0x200,
            CommunicationObject::Tpdo2 => 0x280,
            CommunicationObject::Rpdo2 => 0x300,
            CommunicationObject::Tpdo3 => 0x380,
            CommunicationObject::Rpdo3 => 0x400,
            CommunicationObject::Tpdo4 => 0x480,
            CommunicationObject::Rpdo4 => 0x500,
            CommunicationObject::Tsdo => 0x580,
            CommunicationObject::Rsdo => 0x600,
            CommunicationObject::Heartbeat => 0x700,
        }
    }

    /// The object belongs to no single node.
    pub open spec fn without_node(self) -> bool {
        self is Nmt || self is Sync || self is Time
    }

    /// The function code: the upper four bits of the COB-ID.
    pub fn function_code(self) -> (r: u16)
        ensures
            r == self.code(),
    {
        match self {
            CommunicationObject::Nmt => 0x000,
            CommunicationObject::Sync => 0x080,
            CommunicationObject::Emergency => 0x080,
            CommunicationObject::Time => 0x100,
            CommunicationObject::Tpdo1 => 0x180,
            CommunicationObject::Rpdo1 => 0x200,
            CommunicationObject::Tpdo2 => 0x280,
            CommunicationObject::Rpdo2 => 0x300,
            CommunicationObject::Tpdo3 => 0x380,
            CommunicationObject::Rpdo3 => 0x400,
            CommunicationObject::Tpdo4 => 0x480,
            CommunicationObject::Rpdo4 => 0x500,
            CommunicationObject::Tsdo => 0x580,
            CommunicationObject::Rsdo => 0x600,
            CommunicationObject::Heartbeat => 0x700,
        }
    }

    /// What [`CommunicationObject::cob_id`] returns.
    pub open spec fn cob_id_of(self, node_id: u8) -> Result<u16> {
        if self.without_node() {
            Ok(self.code())
        } else if 1 <= node_id <= 127 {
            Ok((self.code() + node_id) as u16)
        } else {
            Err(Error::InvalidNodeId(node_id))
        }
    }

    /// The COB-ID of this object of the given node.
    ///
    /// `Nmt`, `Sync` and `Time` belong to no node and ignore `node_id`; for
    /// the others it has to be in `1..=127`.
    pub fn cob_id(self, node_id: u8) -> (r: Result<u16>)
        ensures
            r == self.cob_id_of(node_id),
    {
        let base = self.function_code();
        match self {
            CommunicationObject::Nmt | CommunicationObject::Sync | CommunicationObject::Time => Ok(
                base,
            ),
            _ => {
                if node_id == 0 || node_id > 0x7F {
                    return Err(Error::InvalidNodeId(node_id));
                }
                Ok(base + node_id as u16)
            },
        }
    }
}

/// `cob_id` is the identifier of this object of node `nid` (0 where the object
/// belongs to no node). For an object of a node only the lower eleven bits
/// count.
pub open spec fn names(cob_id: u16, object: CommunicationObject, nid: u8) -> bool {
    if object.without_node() {
        nid == 0 && cob_id == object.code()
    } else {
        1 <= nid <= 127 && cob_id % 0x800 == object.code() + nid
    }
}

/// The object and node that `cob_id` names.
///
/// `Nmt`, `Sync` and `Time` come with node 0.
pub fn parse_cob_id(cob_id: u16) -> (r: Option<(CommunicationObject, u8)>)
    ensures
        match r {
            Some((object, nid)) => names(cob_id, object, nid),
            None => forall|object: CommunicationObject, nid: u8| !names(cob_id, object, nid),
        },
{
    if cob_id == 0x000 {
        return Some((CommunicationObject::Nmt, 0));
    }
    if cob_id == 0x080 {
        return Some((CommunicationObject::Sync, 0));
    }
    if cob_id == 0x100 {
        return Some((CommunicationObject::Time, 0));
    }
    let low: u16 = cob_id % 0x800;
    let nid: u8 = (low % 0x80) as u8;
    if nid == 0 {
        return None;
    }
    let object = match low / 0x80 {
        0x1 => CommunicationObject::Emergency,
        0x3 => CommunicationObject::Tpdo1,
        0x4 => CommunicationObject::Rpdo1,
        0x5 => CommunicationObject::Tpdo2,
        0x6 => CommunicationObject::Rpdo2,
        0x7 => CommunicationObject::Tpdo3,
        0x8 => CommunicationObject::Rpdo3,
        0x9 => CommunicationObject::Tpdo4,
        0xA => CommunicationObject::Rpdo4,
        0xB => CommunicationObject::Tsdo,
        0xC => CommunicationObject::Rsdo,
        0xE => CommunicationObject::Heartbeat,
        _ => {
            return None;
        },
    };
    Some((object, nid))
}

/// A standard identifier that CANopen or the layer setting services use.
pub open spec fn reserved_standard(cob_id: u16) -> bool {
    ||| 0x680 <= cob_id <= 0x6FF
    ||| 0x780 <= cob_id <= 0x7FF
    ||| cob_id <= 0x7FF && exists|object: CommunicationObject, nid: u8| names(cob_id, object, nid)
}

/// Whether a standard identifier is reserved. Custom frames should avoid those.
pub fn is_reserved_standard_cob_id(cob_id: u16) -> (r: bool)
    ensures
        r == reserved_standard(cob_id),
{
    let r = cob_id == 0x000 || cob_id == 0x080 || cob_id == 0x100 || (0x081 <= cob_id && cob_id
        <= 0x0FF) || (0x181 <= cob_id && cob_id <= 0x1FF) || (0x201 <= cob_id && cob_id <= 0x27F)
        || (0x281 <= cob_id && cob_id <= 0x2FF) || (0x301 <= cob_id && cob_id <= 0x37F) || (0x381
        <= cob_id && cob_id <= 0x3FF) || (0x401 <= cob_id && cob_id <= 0x47F) || (0x481 <= cob_id
        && cob_id <= 0x4FF) || (0x501 <= cob_id && cob_id <= 0x57F) || (0x581 <= cob_id && cob_id
        <= 0x5FF) || (0x601 <= cob_id && cob_id <= 0x67F) || (0x701 <= cob_id && cob_id <= 0x77F)
        || (0x680 <= cob_id && cob_id <= 0x6FF) || (0x780 <= cob_id && cob_id <= 0x7FF);
    proof {
        let nid = (cob_id % 0x80) as u8;
        if r && cob_id <= 0x7FF {
            if cob_id == 0 {
                assert(names(cob_id, CommunicationObject::Nmt, 0));
            } else if cob_id == 0x080 {
                assert(names(cob_id, CommunicationObject::Sync, 0));
            } else if cob_id == 0x100 {
                assert(names(cob_id, CommunicationObject::Time, 0));
            } else if cob_id <= 0xFF {
                assert(names(cob_id, CommunicationObject::Emergency, nid));
            } else if cob_id <= 0x1FF {
                assert(names(cob_id, CommunicationObject::Tpdo1, nid));
            } else if cob_id <= 0x27F {
                assert(names(cob_id, CommunicationObject::Rpdo1, nid));
            } else if cob_id <= 0x2FF {
                assert(names(cob_id, CommunicationObject::Tpdo2, nid));
            } else if cob_id <= 0x37F {
                assert(names(cob_id, CommunicationObject::Rpdo2, nid));
            } else if cob_id <= 0x3FF {
                assert(names(cob_id, CommunicationObject::Tpdo3, nid));
            } else if cob_id <= 0x47F {
                assert(names(cob_id, CommunicationObject::Rpdo3, nid));
            } else if cob_id <= 0x4FF {
                assert(names(cob_id, CommunicationObject::Tpdo4, nid));
            } else if cob_id <= 0x57F {
                assert(names(cob_id, CommunicationObject::Rpdo4, nid));
            } else if cob_id <= 0x5FF {
                assert(names(cob_id, CommunicationObject::Tsdo, nid));
            } else if cob_id <= 0x67F {
                assert(names(cob_id, CommunicationObject::Rsdo, nid));
            } else if 0x701 <= cob_id <= 0x77F {
                assert(names(cob_id, CommunicationObject::Heartbeat, nid));
            }
        }
    }
    r
}

/// Whether an extended identifier is reserved.
pub fn is_reserved_extended_cob_id(cob_id: u32) -> (r: bool)
    ensures
        r == (cob_id == 0x09 || cob_id == 0xA9 || cob_id == 0xAA || 0xFE00 <= cob_id <= 0xFEFF),
{
    cob_id == 0x09 || cob_id == 0xA9 || cob_id == 0xAA || (0xFE00 <= cob_id && cob_id <= 0xFEFF)
}

/// An identifier names at most one object of one node.
pub proof fn names_is_unique(
    cob_id: u16,
    object1: CommunicationObject,
    nid1: u8,
    object2: CommunicationObject,
    nid2: u8,
)
    requires
        names(cob_id, object1, nid1),
        names(cob_id, object2, nid2),
    ensures
        object1 == object2,
        nid1 == nid2,
{
}

/// The COB-ID that an object has names that object, of the node it was made
/// for.
pub proof fn cob_id_names_its_object(object: CommunicationObject, node_id: u8)
    ensures
        object.cob_id_of(node_id) matches Ok(cob_id) ==> cob_id <= 0x7FF && names(
            cob_id,
            object,
            if object.without_node() {
                0
            } else {
                node_id
            },
        ),
{
}

/// An eleven-bit identifier that names an object is the COB-ID of that object.
pub proof fn named_object_has_the_cob_id(cob_id: u16, object: CommunicationObject, nid: u8)
    requires
        cob_id <= 0x7FF,
        names(cob_id, object, nid),
    ensures
        object.cob_id_of(nid) == Ok::<u16, Error>(cob_id),
{
}

/// Every COB-ID of every object is reserved.
pub proof fn cob_ids_are_reserved(object: CommunicationObject, node_id: u8)
    ensures
        object.cob_id_of(node_id) matches Ok(cob_id) ==> reserved_standard(cob_id),
{
    cob_id_names_its_object(object, node_id);
}

/// The identifiers of the objects of a node: the transmit and receive PDOs
/// alternate from 0x180 on, 0x80 apart, and the others are where CANopen puts
/// them.
pub proof fn cob_ids_of_a_node(node_id: u8)
    requires
        1 <= node_id <= 127,
    ensures
        CommunicationObject::Emergency.cob_id_of(node_id) matches Ok(c) && c - node_id == 0x080,
        CommunicationObject::Tpdo1.cob_id_of(node_id) matches Ok(c) && c - node_id == 0x180,
        CommunicationObject::Rpdo1.cob_id_of(node_id) matches Ok(c) && c - node_id == 0x200,
        CommunicationObject::Tpdo2.cob_id_of(node_id) matches Ok(c) && c - node_id == 0x280,
        CommunicationObject::Rpdo2.cob_id_of(node_id) matches Ok(c) && c - node_id == 0x300,
        CommunicationObject::Tpdo3.cob_id_of(node_id) matches Ok(c) && c - node_id == 0x380,
        CommunicationObject::Rpdo3.cob_id_of(node_id) matches Ok(c) && c - node_id == 0x400,
        CommunicationObject::Tpdo4.cob_id_of(node_id) matches Ok(c) && c - node_id == 0x480,
        CommunicationObject::Rpdo4.cob_id_of(node_id) matches Ok(c) && c - node_id == 0x500,
        CommunicationObject::Tsdo.cob_id_of(node_id) matches Ok(c) && c - node_id == 0x580,
        CommunicationObject::Rsdo.cob_id_of(node_id) matches Ok(c) && c - node_id == 0x600,
        CommunicationObject::Heartbeat.cob_id_of(node_id) matches Ok(c) && c - node_id == 0x700,
{
}

/// The three objects of the whole network have one identifier whatever node is
/// given; all others need a node id in `1..=127` and name it where they refuse.
pub proof fn network_objects_need_no_node(object: CommunicationObject, node_id: u8)
    ensures
        CommunicationObject::Nmt.cob_id_of(node_id) matches Ok(c) && c == 0x000,
        CommunicationObject::Sync.cob_id_of(node_id) matches Ok(c) && c == 0x080,
        CommunicationObject::Time.cob_id_of(node_id) matches Ok(c) && c == 0x100,
        object.cob_id_of(node_id) is Err <==> !(object is Nmt || object is Sync || object is Time)
            && (node_id == 0 || node_id > 127),
        object.cob_id_of(node_id) matches Err(e) ==> e == Error::InvalidNodeId(node_id),
{
}

/// The object of a node is told by bits 7 to 10 of an identifier, the node by
/// the bits below; the higher bits of the number do not count. The three
/// objects of the whole network are told by the whole number.
pub proof fn parts_of_a_cob_id(cob_id: u16, object: CommunicationObject, nid: u8)
    requires
        names(cob_id, object, nid),
    ensures
        object is Nmt ==> cob_id == 0 && nid == 0,
        object is Sync ==> cob_id == 0x80 && nid == 0,
        object is Time ==> cob_id == 0x100 && nid == 0,
        !(object is Nmt || object is Sync || object is Time) ==> {
            &&& nid == cob_id % 0x80
            &&& nid != 0
            &&& object.cob_id_of(nid) matches Ok(c) && (cob_id - c) % 0x800 == 0
        },
{
}

/// The standard identifiers that are free: those below 0x680 that no object of
/// any node has, and 0x700.
pub proof fn free_identifiers(cob_id: u16)
    ensures
        cob_id <= 0x7FF ==> (!reserved_standard(cob_id) <==> {
            ||| 0x001 <= cob_id <= 0x07F
            ||| 0x101 <= cob_id <= 0x17F
            ||| cob_id % 0x80 == 0 && 0x180 <= cob_id <= 0x600
            ||| cob_id == 0x700
        }),
        cob_id > 0x7FF ==> !reserved_standard(cob_id),
{
    let nid = (cob_id % 0x80) as u8;
    if cob_id <= 0x7FF && nid != 0 {
        assert(names(cob_id, CommunicationObject::Emergency, nid) <==> 0x080 < cob_id < 0x100);
        assert(names(cob_id, CommunicationObject::Tpdo1, nid) <==> 0x180 < cob_id < 0x200);
        assert(names(cob_id, CommunicationObject::Rpdo1, nid) <==> 0x200 < cob_id < 0x280);
        assert(names(cob_id, CommunicationObject::Tpdo2, nid) <==> 0x280 < cob_id < 0x300);
        assert(names(cob_id, CommunicationObject::Rpdo2, nid) <==> 0x300 < cob_id < 0x380);
        assert(names(cob_id, CommunicationObject::Tpdo3, nid) <==> 0x380 < cob_id < 0x400);
        assert(names(cob_id, CommunicationObject::Rpdo3, nid) <==> 0x400 < cob_id < 0x480);
        assert(names(cob_id, CommunicationObject::Tpdo4, nid) <==> 0x480 < cob_id < 0x500);
        assert(names(cob_id, CommunicationObject::Rpdo4, nid) <==> 0x500 < cob_id < 0x580);
        assert(names(cob_id, CommunicationObject::Tsdo, nid) <==> 0x580 < cob_id < 0x600);
        assert(names(cob_id, CommunicationObject::Rsdo, nid) <==> 0x600 < cob_id < 0x680);
        assert(names(cob_id, CommunicationObject::Heartbeat, nid) <==> 0x700 < cob_id < 0x780);
    }
    assert(names(cob_id, CommunicationObject::Nmt, 0) <==> cob_id == 0);
    assert(names(cob_id, CommunicationObject::Sync, 0) <==> cob_id == 0x80);
    assert(names(cob_id, CommunicationObject::Time, 0) <==> cob_id == 0x100);
}

} // verus!
