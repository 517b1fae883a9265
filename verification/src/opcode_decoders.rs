//! The opcode catalog: one entry per operation kind, each with the bit
//! pattern and mask that recognise it and the rules that extract its
//! arguments. The catalog is unambiguous: no opcode matches two entries;
//! `lemma_catalog_unambiguous` proves it.

use vstd::prelude::*;
use crate::instructions::Instructions;

verus! {

/// How one extracted argument is to be read.
#[derive(Clone, Copy, Debug, PartialEq, Eq, Structural)]
pub enum ArgumentType {
    /// A register index 0x0..=0xF.
    Reg,
    /// An 8-bit immediate.
    Byte,
    /// Half of a 12-bit address.
    Addr,
}

/// One argument-extraction rule: the argument is `(opcode & mask) >> shift`,
/// truncated to a byte.
#[derive(Clone, Copy, Debug, PartialEq, Eq, Structural)]
pub struct ArgumentDecoder {
    pub mask: u16,
    pub shift: u8,
    pub kind: ArgumentType,
}

/// One catalog entry: an opcode belongs to `instruction` when
/// `opcode & mask == pattern`.
#[derive(Debug)]
pub struct OpcodeDecoder<'a> {
    pub name: &'a str,
    pub instruction: Instructions,
    pub pattern: u16,
    pub mask: u16,
    pub argument_decoders: Vec<ArgumentDecoder>,
}

/// The match mask of the entry for a kind. Kinds that share a top nibble
/// with a sibling carry the low nibble (or the whole low byte) in the mask
/// so that siblings cannot collide.
pub open spec fn kind_mask(kind: Instructions) -> u16 {
    match kind {
        Instructions::Cls => 0xFFFF,
        Instructions::Ret => 0xFFFF,
        Instructions::Jp => 0xF000,
        Instructions::Call => 0xF000,
        Instructions::SeVxByte => 0xF000,
        Instructions::SneVxByte => 0xF000,
        Instructions::SeVxVy => 0xF00F,
        Instructions::LdVxByte => 0xF000,
        Instructions::AddVxByte => 0xF000,
        Instructions::LdVxVy => 0xF00F,
        Instructions::OrVxVy => 0xF00F,
        Instructions::AndVxVy => 0xF00F,
        Instructions::XorVxVy => 0xF00F,
        Instructions::AddVxVy => 0xF00F,
        Instructions::SubVxVy => 0xF00F,
        Instructions::ShrVxVy => 0xF00F,
        Instructions::SubnVxVy => 0xF00F,
        Instructions::ShlVxVy => 0xF00F,
        Instructions::SneVxVy => 0xF00F,
        Instructions::LdIAddr => 0xF000,
        Instructions::JpV0Addr => 0xF000,
        Instructions::RndVxByte => 0xF000,
        Instructions::DrwVxVyNib => 0xF000,
        Instructions::SkpVx => 0xF0FF,
        Instructions::SknpVx => 0xF0FF,
        Instructions::LdVxDt => 0xF0FF,
        Instructions::LdVxK => 0xF00F,
        Instructions::LdDtVx => 0xF0FF,
        Instructions::LdStVx => 0xF0FF,
        Instructions::AddIVx => 0xF0FF,
        Instructions::LdFVx => 0xF0FF,
        Instructions::LdBVx => 0xF0FF,
        Instructions::LdIVx => 0xF0FF,
        Instructions::LdVxI => 0xF0FF,
    }
}

/// The match pattern of the entry for a kind.
pub open spec fn kind_pattern(kind: Instructions) -> u16 {
    match kind {
        Instructions::Cls => 0x00E0,
        Instructions::Ret => 0x00EE,
        Instructions::Jp => 0x1000,
        Instructions::Call => 0x2000,
        Instructions::SeVxByte => 0x3000,
        Instructions::SneVxByte => 0x4000,
        Instructions::SeVxVy => 0x5000,
        Instructions::LdVxByte => 0x6000,
        Instructions::AddVxByte => 0x7000,
        Instructions::LdVxVy => 0x8000,
        Instructions::OrVxVy => 0x8001,
        Instructions::AndVxVy => 0x8002,
        Instructions::XorVxVy => 0x8003,
        Instructions::AddVxVy => 0x8004,
        Instructions::SubVxVy => 0x8005,
        Instructions::ShrVxVy => 0x8006,
        Instructions::SubnVxVy => 0x8007,
        Instructions::ShlVxVy => 0x800E,
        Instructions::SneVxVy => 0x9000,
        Instructions::LdIAddr => 0xA000,
        Instructions::JpV0Addr => 0xB000,
        Instructions::RndVxByte => 0xC000,
        Instructions::DrwVxVyNib => 0xD000,
        Instructions::SkpVx => 0xE09E,
        Instructions::SknpVx => 0xE0A1,
        Instructions::LdVxDt => 0xF007,
        Instructions::LdVxK => 0xF00A,
        Instructions::LdDtVx => 0xF015,
        Instructions::LdStVx => 0xF018,
        Instructions::AddIVx => 0xF01E,
        Instructions::LdFVx => 0xF029,
        Instructions::LdBVx => 0xF033,
        Instructions::LdIVx => 0xF055,
        Instructions::LdVxI => 0xF065,
    }
}

/// Whether the catalog entry for `kind` recognises `op`.
pub open spec fn opcode_matches(kind: Instructions, op: u16) -> bool {
    op & kind_mask(kind) == kind_pattern(kind)
}

/// The extraction rules for the two halves of a 12-bit address.
pub open spec fn rules_addr() -> Seq<ArgumentDecoder> {
    seq![
        ArgumentDecoder { mask: 0x0F00, shift: 8, kind: ArgumentType::Addr },
        ArgumentDecoder { mask: 0x00FF, shift: 0, kind: ArgumentType::Addr },
    ]
}

/// The extraction rules for a register index and an immediate byte.
pub open spec fn rules_reg_byte() -> Seq<ArgumentDecoder> {
    seq![
        ArgumentDecoder { mask: 0x0F00, shift: 8, kind: ArgumentType::Reg },
        ArgumentDecoder { mask: 0x00FF, shift: 0, kind: ArgumentType::Byte },
    ]
}

/// The extraction rules for two register indices.
pub open spec fn rules_reg_reg() -> Seq<ArgumentDecoder> {
    seq![
        ArgumentDecoder { mask: 0x0F00, shift: 8, kind: ArgumentType::Reg },
        ArgumentDecoder { mask: 0x00F0, shift: 4, kind: ArgumentType::Reg },
    ]
}

/// The extraction rule for a single register index.
pub open spec fn rules_reg() -> Seq<ArgumentDecoder> {
    seq![ArgumentDecoder { mask: 0x0F00, shift: 8, kind: ArgumentType::Reg }]
}

/// The extraction rules of the sprite-draw instruction: two register
/// indices and the sprite height nibble.
pub open spec fn rules_draw() -> Seq<ArgumentDecoder> {
    seq![
        ArgumentDecoder { mask: 0x0F00, shift: 8, kind: ArgumentType::Reg },
        ArgumentDecoder { mask: 0x00F0, shift: 4, kind: ArgumentType::Reg },
        ArgumentDecoder { mask: 0x000F, shift: 0, kind: ArgumentType::Byte },
    ]
}

/// The ordered argument-extraction rules of the entry for a kind.
pub open spec fn arg_rules(kind: Instructions) -> Seq<ArgumentDecoder> {
    match kind {
        Instructions::Cls | Instructions::Ret => seq![],
        Instructions::Jp | Instructions::Call | Instructions::LdIAddr
            | Instructions::JpV0Addr => rules_addr(),
        Instructions::SeVxByte | Instructions::SneVxByte | Instructions::LdVxByte
            | Instructions::AddVxByte | Instructions::RndVxByte => rules_reg_byte(),
        Instructions::SeVxVy | Instructions::LdVxVy | Instructions::OrVxVy
            | Instructions::AndVxVy | Instructions::XorVxVy | Instructions::AddVxVy
            | Instructions::SubVxVy | Instructions::ShrVxVy | Instructions::SubnVxVy
            | Instructions::ShlVxVy | Instructions::SneVxVy => rules_reg_reg(),
        Instructions::DrwVxVyNib => rules_draw(),
        Instructions::SkpVx | Instructions::SknpVx | Instructions::LdVxDt
            | Instructions::LdVxK | Instructions::LdDtVx | Instructions::LdStVx
            | Instructions::AddIVx | Instructions::LdFVx | Instructions::LdBVx
            | Instructions::LdIVx | Instructions::LdVxI => rules_reg(),
    }
}

/// The arguments that the entry for `kind` extracts from `op`, in rule order.
pub open spec fn spec_args(kind: Instructions, op: u16) -> Seq<u8> {
    Seq::new(
        arg_rules(kind).len(),
        |j: int| ((op & arg_rules(kind)[j].mask) >> arg_rules(kind)[j].shift) as u8,
    )
}

/// The kind that the catalog resolves `op` to, or `None` when no entry
/// recognises it. A linear first-match search; by `lemma_match_unique` the
/// order does not matter.
pub open spec fn spec_decode_kind(op: u16) -> Option<Instructions> {
    if opcode_matches(Instructions::Cls, op) { Some(Instructions::Cls) }
    else if opcode_matches(Instructions::Ret, op) { Some(Instructions::Ret) }
    else if opcode_matches(Instructions::Jp, op) { Some(Instructions::Jp) }
    else if opcode_matches(Instructions::Call, op) { Some(Instructions::Call) }
    else if opcode_matches(Instructions::SeVxByte, op) { Some(Instructions::SeVxByte) }
    else if opcode_matches(Instructions::SneVxByte, op) { Some(Instructions::SneVxByte) }
    else if opcode_matches(Instructions::SeVxVy, op) { Some(Instructions::SeVxVy) }
    else if opcode_matches(Instructions::LdVxByte, op) { Some(Instructions::LdVxByte) }
    else if opcode_matches(Instructions::AddVxByte, op) { Some(Instructions::AddVxByte) }
    else if opcode_matches(Instructions::LdVxVy, op) { Some(Instructions::LdVxVy) }
    else if opcode_matches(Instructions::OrVxVy, op) { Some(Instructions::OrVxVy) }
    else if opcode_matches(Instructions::AndVxVy, op) { Some(Instructions::AndVxVy) }
    else if opcode_matches(Instructions::XorVxVy, op) { Some(Instructions::XorVxVy) }
    else if opcode_matches(Instructions::AddVxVy, op) { Some(Instructions::AddVxVy) }
    else if opcode_matches(Instructions::SubVxVy, op) { Some(Instructions::SubVxVy) }
    else if opcode_matches(Instructions::ShrVxVy, op) { Some(Instructions::ShrVxVy) }
    else if opcode_matches(Instructions::SubnVxVy, op) { Some(Instructions::SubnVxVy) }
    else if opcode_matches(Instructions::ShlVxVy, op) { Some(Instructions::ShlVxVy) }
    else if opcode_matches(Instructions::SneVxVy, op) { Some(Instructions::SneVxVy) }
    else if opcode_matches(Instructions::LdIAddr, op) { Some(Instructions::LdIAddr) }
    else if opcode_matches(Instructions::JpV0Addr, op) { Some(Instructions::JpV0Addr) }
    else if opcode_matches(Instructions::RndVxByte, op) { Some(Instructions::RndVxByte) }
    else if opcode_matches(Instructions::DrwVxVyNib, op) { Some(Instructions::DrwVxVyNib) }
    else if opcode_matches(Instructions::SkpVx, op) { Some(Instructions::SkpVx) }
    else if opcode_matches(Instructions::SknpVx, op) { Some(Instructions::SknpVx) }
    else if opcode_matches(Instructions::LdVxDt, op) { Some(Instructions::LdVxDt) }
    else if opcode_matches(Instructions::LdVxK, op) { Some(Instructions::LdVxK) }
    else if opcode_matches(Instructions::LdDtVx, op) { Some(Instructions::LdDtVx) }
    else if opcode_matches(Instructions::LdStVx, op) { Some(Instructions::LdStVx) }
    else if opcode_matches(Instructions::AddIVx, op) { Some(Instructions::AddIVx) }
    else if opcode_matches(Instructions::LdFVx, op) { Some(Instructions::LdFVx) }
    else if opcode_matches(Instructions::LdBVx, op) { Some(Instructions::LdBVx) }
    else if opcode_matches(Instructions::LdIVx, op) { Some(Instructions::LdIVx) }
    else if opcode_matches(Instructions::LdVxI, op) { Some(Instructions::LdVxI) }
    else { None }
}

/// The order in which the catalog lists its entries. The order carries no
/// meaning: the catalog is unambiguous.
pub open spec fn catalog_kind_at(k: int) -> Instructions {
    if k == 0 { Instructions::Cls }
    else if k == 1 { Instructions::Ret }
    else if k == 2 { Instructions::Jp }
    else if k == 3 { Instructions::Call }
    else if k == 4 { Instructions::SeVxByte }
    else if k == 5 { Instructions::SneVxByte }
    else if k == 6 { Instructions::SeVxVy }
    else if k == 7 { Instructions::LdVxByte }
    else if k == 8 { Instructions::AddVxByte }
    else if k == 9 { Instructions::LdVxVy }
    else if k == 10 { Instructions::OrVxVy }
    else if k == 11 { Instructions::AndVxVy }
    else if k == 12 { Instructions::XorVxVy }
    else if k == 13 { Instructions::AddVxVy }
    else if k == 14 { Instructions::SubVxVy }
    else if k == 15 { Instructions::ShrVxVy }
    else if k == 16 { Instructions::SubnVxVy }
    else if k == 17 { Instructions::ShlVxVy }
    else if k == 18 { Instructions::SneVxVy }
    else if k == 19 { Instructions::LdIAddr }
    else if k == 20 { Instructions::JpV0Addr }
    else if k == 21 { Instructions::RndVxByte }
    else if k == 22 { Instructions::DrwVxVyNib }
    else if k == 23 { Instructions::SkpVx }
    else if k == 24 { Instructions::SknpVx }
    else if k == 25 { Instructions::LdVxDt }
    else if k == 26 { Instructions::LdVxK }
    else if k == 27 { Instructions::LdDtVx }
    else if k == 28 { Instructions::LdStVx }
    else if k == 29 { Instructions::AddIVx }
    else if k == 30 { Instructions::LdFVx }
    else if k == 31 { Instructions::LdBVx }
    else if k == 32 { Instructions::LdIVx }
    else { Instructions::LdVxI }
}

/// The position of a kind's entry in the catalog.
pub open spec fn kind_index(kind: Instructions) -> int {
    match kind {
        Instructions::Cls => 0,
        Instructions::Ret => 1,
        Instructions::Jp => 2,
        Instructions::Call => 3,
        Instructions::SeVxByte => 4,
        Instructions::SneVxByte => 5,
        Instructions::SeVxVy => 6,
        Instructions::LdVxByte => 7,
        Instructions::AddVxByte => 8,
        Instructions::LdVxVy => 9,
        Instructions::OrVxVy => 10,
        Instructions::AndVxVy => 11,
        Instructions::XorVxVy => 12,
        Instructions::AddVxVy => 13,
        Instructions::SubVxVy => 14,
        Instructions::ShrVxVy => 15,
        Instructions::SubnVxVy => 16,
        Instructions::ShlVxVy => 17,
        Instructions::SneVxVy => 18,
        Instructions::LdIAddr => 19,
        Instructions::JpV0Addr => 20,
        Instructions::RndVxByte => 21,
        Instructions::DrwVxVyNib => 22,
        Instructions::SkpVx => 23,
        Instructions::SknpVx => 24,
        Instructions::LdVxDt => 25,
        Instructions::LdVxK => 26,
        Instructions::LdDtVx => 27,
        Instructions::LdStVx => 28,
        Instructions::AddIVx => 29,
        Instructions::LdFVx => 30,
        Instructions::LdBVx => 31,
        Instructions::LdIVx => 32,
        Instructions::LdVxI => 33,
    }
}

/// Every kind has an entry, at its `kind_index` position.
pub proof fn lemma_kind_index(kind: Instructions)
    ensures
        0 <= kind_index(kind) < 34,
        catalog_kind_at(kind_index(kind)) == kind,
{
}

/// From a masked match, the nibbles of `op` that the entry's mask pins down.
/// Every mask pins the top nibble; the finer masks also pin the low nibble
/// or the whole low byte. These facts are what separates any two entries.
proof fn lemma_match_signatures(op: u16)
    by (bit_vector)
    ensures
        (op & 0xFFFF == 0x00E0) ==> (op >> 12 == 0x0 && op & 0xFF == 0xE0 && op & 0xF == 0x0),
        (op & 0xFFFF == 0x00EE) ==> (op >> 12 == 0x0 && op & 0xFF == 0xEE && op & 0xF == 0xE),
        (op & 0xF000 == 0x1000) ==> op >> 12 == 0x1,
        (op & 0xF000 == 0x2000) ==> op >> 12 == 0x2,
        (op & 0xF000 == 0x3000) ==> op >> 12 == 0x3,
        (op & 0xF000 == 0x4000) ==> op >> 12 == 0x4,
        (op & 0xF00F == 0x5000) ==> (op >> 12 == 0x5 && op & 0xF == 0x0),
        (op & 0xF000 == 0x6000) ==> op >> 12 == 0x6,
        (op & 0xF000 == 0x7000) ==> op >> 12 == 0x7,
        (op & 0xF00F == 0x8000) ==> (op >> 12 == 0x8 && op & 0xF == 0x0),
        (op & 0xF00F == 0x8001) ==> (op >> 12 == 0x8 && op & 0xF == 0x1),
        (op & 0xF00F == 0x8002) ==> (op >> 12 == 0x8 && op & 0xF == 0x2),
        (op & 0xF00F == 0x8003) ==> (op >> 12 == 0x8 && op & 0xF == 0x3),
        (op & 0xF00F == 0x8004) ==> (op >> 12 == 0x8 && op & 0xF == 0x4),
        (op & 0xF00F == 0x8005) ==> (op >> 12 == 0x8 && op & 0xF == 0x5),
        (op & 0xF00F == 0x8006) ==> (op >> 12 == 0x8 && op & 0xF == 0x6),
        (op & 0xF00F == 0x8007) ==> (op >> 12 == 0x8 && op & 0xF == 0x7),
        (op & 0xF00F == 0x800E) ==> (op >> 12 == 0x8 && op & 0xF == 0xE),
        (op & 0xF00F == 0x9000) ==> (op >> 12 == 0x9 && op & 0xF == 0x0),
        (op & 0xF000 == 0xA000) ==> op >> 12 == 0xA,
        (op & 0xF000 == 0xB000) ==> op >> 12 == 0xB,
        (op & 0xF000 == 0xC000) ==> op >> 12 == 0xC,
        (op & 0xF000 == 0xD000) ==> op >> 12 == 0xD,
        (op & 0xF0FF == 0xE09E) ==> (op >> 12 == 0xE && op & 0xFF == 0x9E && op & 0xF == 0xE),
        (op & 0xF0FF == 0xE0A1) ==> (op >> 12 == 0xE && op & 0xFF == 0xA1 && op & 0xF == 0x1),
        (op & 0xF0FF == 0xF007) ==> (op >> 12 == 0xF && op & 0xFF == 0x07 && op & 0xF == 0x7),
        (op & 0xF00F == 0xF00A) ==> (op >> 12 == 0xF && op & 0xF == 0xA),
        (op & 0xF0FF == 0xF015) ==> (op >> 12 == 0xF && op & 0xFF == 0x15 && op & 0xF == 0x5),
        (op & 0xF0FF == 0xF018) ==> (op >> 12 == 0xF && op & 0xFF == 0x18 && op & 0xF == 0x8),
        (op & 0xF0FF == 0xF01E) ==> (op >> 12 == 0xF && op & 0xFF == 0x1E && op & 0xF == 0xE),
        (op & 0xF0FF == 0xF029) ==> (op >> 12 == 0xF && op & 0xFF == 0x29 && op & 0xF == 0x9),
        (op & 0xF0FF == 0xF033) ==> (op >> 12 == 0xF && op & 0xFF == 0x33 && op & 0xF == 0x3),
        (op & 0xF0FF == 0xF055) ==> (op >> 12 == 0xF && op & 0xFF == 0x55 && op & 0xF == 0x5),
        (op & 0xF0FF == 0xF065) ==> (op >> 12 == 0xF && op & 0xFF == 0x65 && op & 0xF == 0x5),
{
}

/// Any entry that recognises `op` is the one that the catalog search finds.
pub proof fn lemma_match_unique(op: u16, kind: Instructions)
    requires
        opcode_matches(kind, op),
    ensures
        spec_decode_kind(op) == Some(kind),
{
    lemma_match_signatures(op);
}

/// The catalog is unambiguous: no opcode is recognised by two entries.
pub proof fn lemma_catalog_unambiguous(op: u16, kind1: Instructions, kind2: Instructions)
    requires
        opcode_matches(kind1, op),
        opcode_matches(kind2, op),
    ensures
        kind1 == kind2,
{
    lemma_match_unique(op, kind1);
    lemma_match_unique(op, kind2);
}

/// The catalog search is sound and complete: what it returns recognises the
/// opcode, and when it returns nothing, no entry recognises the opcode.
pub proof fn lemma_decode_matches(op: u16)
    ensures
        match spec_decode_kind(op) {
            Some(kind) => opcode_matches(kind, op),
            None => forall|kind: Instructions| !opcode_matches(kind, op),
        },
{
}

/// Well-formedness of a decoded argument list for a kind: the count that
/// the kind's rules produce, with every register index and every nibble
/// below 16.
pub open spec fn instr_args_wf(kind: Instructions, args: Seq<u8>) -> bool {
    match kind {
        Instructions::Cls | Instructions::Ret => args.len() == 0,
        Instructions::Jp | Instructions::Call | Instructions::LdIAddr
            | Instructions::JpV0Addr => args.len() == 2 && args[0] < 16,
        Instructions::SeVxByte | Instructions::SneVxByte | Instructions::LdVxByte
            | Instructions::AddVxByte | Instructions::RndVxByte
            => args.len() == 2 && args[0] < 16,
        Instructions::SeVxVy | Instructions::LdVxVy | Instructions::OrVxVy
            | Instructions::AndVxVy | Instructions::XorVxVy | Instructions::AddVxVy
            | Instructions::SubVxVy | Instructions::ShrVxVy | Instructions::SubnVxVy
            | Instructions::ShlVxVy | Instructions::SneVxVy
            => args.len() == 2 && args[0] < 16 && args[1] < 16,
        Instructions::DrwVxVyNib
            => args.len() == 3 && args[0] < 16 && args[1] < 16 && args[2] < 16,
        Instructions::SkpVx | Instructions::SknpVx | Instructions::LdVxDt
            | Instructions::LdVxK | Instructions::LdDtVx | Instructions::LdStVx
            | Instructions::AddIVx | Instructions::LdFVx | Instructions::LdBVx
            | Instructions::LdIVx | Instructions::LdVxI
            => args.len() == 1 && args[0] < 16,
    }
}

/// Bounds of the values that the extraction rules cut out of an opcode.
proof fn lemma_arg_ranges(op: u16)
    by (bit_vector)
    ensures
        (op & 0x0F00) >> 8u8 < 16,
        (op & 0x00F0) >> 4u8 < 16,
        (op & 0x000F) >> 0u8 < 16,
        (op & 0x00FF) >> 0u8 < 256,
{
}

/// Whatever the catalog decodes is well-formed.
pub proof fn lemma_decoded_args_wf(op: u16)
    ensures
        spec_decode_kind(op) matches Some(kind) ==> instr_args_wf(kind, spec_args(kind, op)),
{
    lemma_arg_ranges(op);
}

/// Builds the two address-half extraction rules.
fn build_rules_addr() -> (v: Vec<ArgumentDecoder>)
    ensures
        v@ == rules_addr(),
{
    let mut v: Vec<ArgumentDecoder> = Vec::new();
    v.push(ArgumentDecoder { mask: 0x0F00, shift: 8, kind: ArgumentType::Addr });
    v.push(ArgumentDecoder { mask: 0x00FF, shift: 0, kind: ArgumentType::Addr });
    proof {
        assert(v@ =~= rules_addr());
    }
    v
}

/// Builds the register-and-byte extraction rules.
fn build_rules_reg_byte() -> (v: Vec<ArgumentDecoder>)
    ensures
        v@ == rules_reg_byte(),
{
    let mut v: Vec<ArgumentDecoder> = Vec::new();
    v.push(ArgumentDecoder { mask: 0x0F00, shift: 8, kind: ArgumentType::Reg });
    v.push(ArgumentDecoder { mask: 0x00FF, shift: 0, kind: ArgumentType::Byte });
    proof {
        assert(v@ =~= rules_reg_byte());
    }
    v
}

/// Builds the two-register extraction rules.
fn build_rules_reg_reg() -> (v: Vec<ArgumentDecoder>)
    ensures
        v@ == rules_reg_reg(),
{
    let mut v: Vec<ArgumentDecoder> = Vec::new();
    v.push(ArgumentDecoder { mask: 0x0F00, shift: 8, kind: ArgumentType::Reg });
    v.push(ArgumentDecoder { mask: 0x00F0, shift: 4, kind: ArgumentType::Reg });
    proof {
        assert(v@ =~= rules_reg_reg());
    }
    v
}

/// Builds the single-register extraction rule.
fn build_rules_reg() -> (v: Vec<ArgumentDecoder>)
    ensures
        v@ == rules_reg(),
{
    let mut v: Vec<ArgumentDecoder> = Vec::new();
    v.push(ArgumentDecoder { mask: 0x0F00, shift: 8, kind: ArgumentType::Reg });
    proof {
        assert(v@ =~= rules_reg());
    }
    v
}

/// Builds the sprite-draw extraction rules.
fn build_rules_draw() -> (v: Vec<ArgumentDecoder>)
    ensures
        v@ == rules_draw(),
{
    let mut v: Vec<ArgumentDecoder> = Vec::new();
    v.push(ArgumentDecoder { mask: 0x0F00, shift: 8, kind: ArgumentType::Reg });
    v.push(ArgumentDecoder { mask: 0x00F0, shift: 4, kind: ArgumentType::Reg });
    v.push(ArgumentDecoder { mask: 0x000F, shift: 0, kind: ArgumentType::Byte });
    proof {
        assert(v@ =~= rules_draw());
    }
    v
}

/// Whether a catalog table entry agrees with the specification of its kind.
pub open spec fn entry_ok(e: OpcodeDecoder<'static>, k: int) -> bool {
    &&& e.instruction == catalog_kind_at(k)
    &&& e.mask == kind_mask(e.instruction)
    &&& e.pattern == kind_pattern(e.instruction)
    &&& e.argument_decoders@ == arg_rules(e.instruction)
}

/// The catalog as a table, one entry per operation kind, built afresh for
/// each caller.
pub fn opcode_decoders() -> (table: Vec<OpcodeDecoder<'static>>)
    ensures
        table@.len() == 34,
        forall|k: int| 0 <= k < 34 ==> entry_ok(#[trigger] table@[k], k),
{
    let mut table: Vec<OpcodeDecoder<'static>> = Vec::new();
    table.push(OpcodeDecoder { name: "CLS", instruction: Instructions::Cls,
        pattern: 0x00E0, mask: 0xFFFF, argument_decoders: Vec::new() });
    table.push(OpcodeDecoder { name: "RET", instruction: Instructions::Ret,
        pattern: 0x00EE, mask: 0xFFFF, argument_decoders: Vec::new() });
    table.push(OpcodeDecoder { name: "JP addr", instruction: Instructions::Jp,
        pattern: 0x1000, mask: 0xF000, argument_decoders: build_rules_addr() });
    table.push(OpcodeDecoder { name: "CALL addr", instruction: Instructions::Call,
        pattern: 0x2000, mask: 0xF000, argument_decoders: build_rules_addr() });
    table.push(OpcodeDecoder { name: "SE Vx, byte", instruction: Instructions::SeVxByte,
        pattern: 0x3000, mask: 0xF000, argument_decoders: build_rules_reg_byte() });
    table.push(OpcodeDecoder { name: "SNE Vx, byte", instruction: Instructions::SneVxByte,
        pattern: 0x4000, mask: 0xF000, argument_decoders: build_rules_reg_byte() });
    table.push(OpcodeDecoder { name: "SE Vx, Vy", instruction: Instructions::SeVxVy,
        pattern: 0x5000, mask: 0xF00F, argument_decoders: build_rules_reg_reg() });
    table.push(OpcodeDecoder { name: "LD Vx, byte", instruction: Instructions::LdVxByte,
        pattern: 0x6000, mask: 0xF000, argument_decoders: build_rules_reg_byte() });
    table.push(OpcodeDecoder { name: "ADD Vx, byte", instruction: Instructions::AddVxByte,
        pattern: 0x7000, mask: 0xF000, argument_decoders: build_rules_reg_byte() });
    table.push(OpcodeDecoder { name: "LD Vx, Vy", instruction: Instructions::LdVxVy,
        pattern: 0x8000, mask: 0xF00F, argument_decoders: build_rules_reg_reg() });
    table.push(OpcodeDecoder { name: "OR Vx, Vy", instruction: Instructions::OrVxVy,
        pattern: 0x8001, mask: 0xF00F, argument_decoders: build_rules_reg_reg() });
    table.push(OpcodeDecoder { name: "AND Vx, Vy", instruction: Instructions::AndVxVy,
        pattern: 0x8002, mask: 0xF00F, argument_decoders: build_rules_reg_reg() });
    table.push(OpcodeDecoder { name: "XOR Vx, Vy", instruction: Instructions::XorVxVy,
        pattern: 0x8003, mask: 0xF00F, argument_decoders: build_rules_reg_reg() });
    table.push(OpcodeDecoder { name: "ADD Vx, Vy", instruction: Instructions::AddVxVy,
        pattern: 0x8004, mask: 0xF00F, argument_decoders: build_rules_reg_reg() });
    table.push(OpcodeDecoder { name: "SUB Vx, Vy", instruction: Instructions::SubVxVy,
        pattern: 0x8005, mask: 0xF00F, argument_decoders: build_rules_reg_reg() });
    table.push(OpcodeDecoder { name: "SHR Vx, Vy", instruction: Instructions::ShrVxVy,
        pattern: 0x8006, mask: 0xF00F, argument_decoders: build_rules_reg_reg() });
    table.push(OpcodeDecoder { name: "SUBN Vx, Vy", instruction: Instructions::SubnVxVy,
        pattern: 0x8007, mask: 0xF00F, argument_decoders: build_rules_reg_reg() });
    table.push(OpcodeDecoder { name: "SHL Vx, Vy", instruction: Instructions::ShlVxVy,
        pattern: 0x800E, mask: 0xF00F, argument_decoders: build_rules_reg_reg() });
    table.push(OpcodeDecoder { name: "SNE Vx, Vy", instruction: Instructions::SneVxVy,
        pattern: 0x9000, mask: 0xF00F, argument_decoders: build_rules_reg_reg() });
    table.push(OpcodeDecoder { name: "LD I, addr", instruction: Instructions::LdIAddr,
        pattern: 0xA000, mask: 0xF000, argument_decoders: build_rules_addr() });
    table.push(OpcodeDecoder { name: "JP V0, addr", instruction: Instructions::JpV0Addr,
        pattern: 0xB000, mask: 0xF000, argument_decoders: build_rules_addr() });
    table.push(OpcodeDecoder { name: "RND Vx, byte", instruction: Instructions::RndVxByte,
        pattern: 0xC000, mask: 0xF000, argument_decoders: build_rules_reg_byte() });
    table.push(OpcodeDecoder { name: "DRW Vx, Vy, nibble", instruction: Instructions::DrwVxVyNib,
        pattern: 0xD000, mask: 0xF000, argument_decoders: build_rules_draw() });
    table.push(OpcodeDecoder { name: "SKP Vx", instruction: Instructions::SkpVx,
        pattern: 0xE09E, mask: 0xF0FF, argument_decoders: build_rules_reg() });
    table.push(OpcodeDecoder { name: "SKNP Vx", instruction: Instructions::SknpVx,
        pattern: 0xE0A1, mask: 0xF0FF, argument_decoders: build_rules_reg() });
    table.push(OpcodeDecoder { name: "LD Vx, DT", instruction: Instructions::LdVxDt,
        pattern: 0xF007, mask: 0xF0FF, argument_decoders: build_rules_reg() });
    table.push(OpcodeDecoder { name: "LD Vx, K", instruction: Instructions::LdVxK,
        pattern: 0xF00A, mask: 0xF00F, argument_decoders: build_rules_reg() });
    table.push(OpcodeDecoder { name: "LD DT, Vx", instruction: Instructions::LdDtVx,
        pattern: 0xF015, mask: 0xF0FF, argument_decoders: build_rules_reg() });
    table.push(OpcodeDecoder { name: "LD ST, Vx", instruction: Instructions::LdStVx,
        pattern: 0xF018, mask: 0xF0FF, argument_decoders: build_rules_reg() });
    table.push(OpcodeDecoder { name: "ADD I, Vx", instruction: Instructions::AddIVx,
        pattern: 0xF01E, mask: 0xF0FF, argument_decoders: build_rules_reg() });
    table.push(OpcodeDecoder { name: "LD F, Vx", instruction: Instructions::LdFVx,
        pattern: 0xF029, mask: 0xF0FF, argument_decoders: build_rules_reg() });
    table.push(OpcodeDecoder { name: "LD B, Vx", instruction: Instructions::LdBVx,
        pattern: 0xF033, mask: 0xF0FF, argument_decoders: build_rules_reg() });
    table.push(OpcodeDecoder { name: "LD [I], Vx", instruction: Instructions::LdIVx,
        pattern: 0xF055, mask: 0xF0FF, argument_decoders: build_rules_reg() });
    table.push(OpcodeDecoder { name: "LD Vx, [I]", instruction: Instructions::LdVxI,
        pattern: 0xF065, mask: 0xF0FF, argument_decoders: build_rules_reg() });
    table
}

} // verus!
