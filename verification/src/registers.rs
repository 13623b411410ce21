//! Register operations of the Modbus tool: the two request shapes and the
//! defaults that fill their optional fields.

use vstd::prelude::*;

verus! {

/// Which register space of the device a read targets.
#[derive(Clone, Copy, PartialEq, Eq, Structural, Debug)]
pub enum RegisterKind {
    Holding,
    Input,
}

/// How a read result is rendered: hexadecimal with a `0x` prefix, or decimal.
#[derive(Clone, Copy, PartialEq, Eq, Structural, Debug)]
pub enum Presentation {
    Hex,
    Dec,
}

/// A fully resolved register read: `count` registers of space `kind` starting
/// at `address`, addressed to unit `unit_id`, repeated while `watch` holds,
/// rendered according to `presentation`.
pub struct ReadRequest {
    pub address: u16,
    pub count: u16,
    pub kind: RegisterKind,
    pub unit_id: u8,
    pub watch: bool,
    pub presentation: Presentation,
}

/// A fully resolved single-register write of `value` to `address` on unit
/// `unit_id`.
pub struct WriteRequest {
    pub address: u16,
    pub value: u16,
    pub unit_id: u8,
}

impl ReadRequest {
    /// Resolves the optional fields of a read command: count defaults to 1,
    /// unit id to 1, watch to false, presentation to decimal.
    pub fn new(
        address: u16,
        kind: RegisterKind,
        watch: Option<bool>,
        unit_id: Option<u8>,
        count: Option<u16>,
        presentation: Option<Presentation>,
    ) -> (r: ReadRequest)
        ensures
            r.address == address,
            r.kind == kind,
            r.count == (match count {
                Some(c) => c,
                None => 1u16,
            }),
            r.unit_id == (match unit_id {
                Some(u) => u,
                None => 1u8,
            }),
            r.watch == (match watch {
                Some(w) => w,
                None => false,
            }),
            r.presentation == (match presentation {
                Some(p) => p,
                None => Presentation::Dec,
            }),
    {
        let count: u16 = match count {
            Some(c) => c,
            None => 1,
        };
        let unit_id: u8 = match unit_id {
            Some(u) => u,
            None => 1,
        };
        let watch: bool = match watch {
            Some(w) => w,
            None => false,
        };
        let presentation: Presentation = match presentation {
            Some(p) => p,
            None => Presentation::Dec,
        };
        ReadRequest { address, count, kind, unit_id, watch, presentation }
    }
}

impl WriteRequest {
    /// Resolves the optional field of a write command: unit id defaults to 1.
    pub fn new(address: u16, value: u16, unit_id: Option<u8>) -> (r: WriteRequest)
        ensures
            r.address == address,
            r.value == value,
            r.unit_id == (match unit_id {
                Some(u) => u,
                None => 1u8,
            }),
    {
        let unit_id: u8 = match unit_id {
            Some(u) => u,
            None => 1,
        };
        WriteRequest { address, value, unit_id }
    }
}

} // verus!
