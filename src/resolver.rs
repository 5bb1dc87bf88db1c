use vstd::prelude::*;
use crate::pointer::{wrapping_sum, Memory};
use crate::signature::{first_match, Signature};

verus! {

/// The 32-bit little-endian value held in `b[i..i + 4]`.
pub open spec fn le_u32(b: Seq<u8>, i: int) -> u64 {
    (b[i] + 0x100 * b[i + 1] + 0x1_0000 * b[i + 2] + 0x100_0000 * b[i + 3]) as u64
}

/// Reads the 32-bit little-endian value at `b[i..i + 4]`, if it lies in `b`.
pub fn read_u32_le(b: &[u8], i: usize) -> (r: Option<u64>)
    ensures
        i + 4 <= b@.len() <==> r.is_some(),
        r matches Some(v) ==> v == le_u32(b@, i as int),
{
    if i > b.len() || b.len() - i < 4 {
        return None;
    }
    let b0 = b[i] as u64;
    let b1 = b[i + 1] as u64;
    let b2 = b[i + 2] as u64;
    let b3 = b[i + 3] as u64;
    Some(b0 + 0x100 * b1 + 0x1_0000 * b2 + 0x100_0000 * b3)
}

/// How the operand found in an instruction gives an address.
#[derive(Clone, Copy, Debug, PartialEq, Eq, Structural)]
pub enum OperandKind {
    /// The operand is an address of its own.
    Absolute,
    /// The operand counts from the address of the matched instruction.
    Relative,
}

/// How to find an address by scanning code: the instruction pattern, where its
/// 32-bit operand sits in the match, how the operand is read, and a fixed
/// correction added at the end.
#[derive(Clone, Debug)]
pub struct CodeReference {
    pub signature: Signature,
    pub operand_offset: u64,
    pub kind: OperandKind,
    pub correction: u64,
}

/// The address given by `operand` found in a match at `at`.
pub open spec fn referenced_address(r: &CodeReference, at: u64, operand: u64) -> u64 {
    let anchor = match r.kind {
        OperandKind::Absolute => 0,
        OperandKind::Relative => at,
    };
    wrapping_sum(wrapping_sum(anchor, operand), r.correction)
}

/// The address that `r` resolves to in `region`, which lies in memory from
/// `base` on: the first match of the signature, the operand read from it, and
/// their combination; `None` when there is no match or the operand lies past
/// the region.
pub open spec fn resolved_reference(r: &CodeReference, region: Seq<u8>, base: u64) -> Option<u64> {
    match first_match(r.signature.pattern@, region) {
        None => None,
        Some(i) => if i + r.operand_offset + 4 <= region.len() {
            Some(
                referenced_address(
                    r,
                    (base + i) as u64,
                    le_u32(region, i + r.operand_offset),
                ),
            )
        } else {
            None
        },
    }
}

impl CodeReference {
    /// Resolves the reference in `region`, which lies in memory from `base` on.
    pub fn resolve(&self, region: &[u8], base: u64) -> (r: Option<u64>)
        requires
            base + region@.len() <= u64::MAX,
        ensures
            r == resolved_reference(self, region@, base),
    {
        proof {
            crate::signature::lemma_first_match_properties(self.signature.pattern@, region@);
        }
        let index = match self.signature.find(region) {
            Some(i) => i,
            None => return None,
        };
        let at = base + index as u64;
        if self.operand_offset > (region.len() - index) as u64 {
            return None;
        }
        let operand = match read_u32_le(region, index + self.operand_offset as usize) {
            Some(v) => v,
            None => return None,
        };
        let anchor: u64 = match self.kind {
            OperandKind::Absolute => 0,
            OperandKind::Relative => at,
        };
        Some(anchor.wrapping_add(operand).wrapping_add(self.correction))
    }
}

/// The addresses resolved for one attached process. Resolution runs again only
/// when the process changes or the last attempt failed.
#[derive(Clone, Debug)]
pub struct AddressCache {
    pub process: Option<u64>,
    pub memory: Option<Memory>,
}

impl AddressCache {
    /// A cache that holds nothing.
    pub fn new() -> (r: AddressCache)
        ensures
            r.process.is_none(),
            r.memory.is_none(),
    {
        AddressCache { process: None, memory: None }
    }

    /// Whether the addresses must be resolved for the process `handle`.
    pub fn needs_resolution(&self, handle: u64) -> (r: bool)
        ensures
            r == (self.process != Some(handle) || self.memory.is_none()),
    {
        match self.process {
            Some(p) => p != handle || self.memory.is_none(),
            None => true,
        }
    }

    /// Keeps the outcome of resolving the addresses for the process `handle`.
    pub fn store(&mut self, handle: u64, outcome: Option<Memory>)
        ensures
            final(self).process == Some(handle),
            final(self).memory == outcome,
    {
        self.process = Some(handle);
        self.memory = outcome;
    }

    /// Drops everything kept, as when the process closes.
    pub fn clear(&mut self)
        ensures
            final(self).process.is_none(),
            final(self).memory.is_none(),
    {
        self.process = None;
        self.memory = None;
    }
}

} // verus!
