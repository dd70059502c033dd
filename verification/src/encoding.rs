//! The instruction set of the target machine and its binary layout.
//!
//! Every opcode occupies one 32-bit word:
//!
//! | bits     | content                                                  |
//! |----------|----------------------------------------------------------|
//! | 0 ..  4  | opcode number                                            |
//! | 4 ..  8  | register typing flags                                    |
//! | 8 .. 16  | first register                                           |
//! | 16 .. 32 | a 16-bit immediate, or the second and the third register |
//!
//! The typing flags record what the register references of an opcode carry
//! besides their number: bit 4 is set when the output is signed, bit 5 when the
//! output is 64 bits wide, bit 6 and bit 7 when the first and the second
//! generic input are 64 bits wide.

use vstd::prelude::*;
use crate::error::ErrorKind;

verus! {

/// Width of the value that a generic register reference stands for.
#[derive(Clone, Copy, Debug, PartialEq, Eq, Structural)]
pub enum RegSize {
    Size32,
    Size64,
}

/// Signedness of the value that a generic output register receives.
#[derive(Clone, Copy, Debug, PartialEq, Eq, Structural)]
pub enum RegSign {
    Unsigned,
    Signed,
}

/// An input register that is always read as 64 bits.
#[derive(Clone, Copy, Debug, PartialEq, Eq, Structural)]
pub struct In64Reg {
    pub id: u8,
}

/// An output register that is always written as 64 bits.
#[derive(Clone, Copy, Debug, PartialEq, Eq, Structural)]
pub struct Out64Reg {
    pub id: u8,
}

/// An input register read at the given width.
#[derive(Clone, Copy, Debug, PartialEq, Eq, Structural)]
pub struct InReg {
    pub size: RegSize,
    pub id: u8,
}

/// An output register written at the given width and signedness.
#[derive(Clone, Copy, Debug, PartialEq, Eq, Structural)]
pub struct OutReg {
    pub sign: RegSign,
    pub size: RegSize,
    pub id: u8,
}

/// The byte length of a stack allocation, as it fits the 16-bit field of
/// `StackAlloc`.
#[derive(Clone, Copy, Debug, PartialEq, Eq, Structural)]
pub struct AllocLen {
    pub len: u16,
}

/// The stack slot that a materialized constant is associated with.
#[derive(Clone, Copy, Debug, PartialEq, Eq, Structural)]
pub struct StackSlot {
    pub raw: u16,
}

/// One instruction of the target machine.
#[allow(inconsistent_fields)]
#[derive(Clone, Copy, Debug, PartialEq, Eq, Structural)]
pub enum Opcode {
    /// Reserves `len` bytes on the stack; the address goes to `save_address`
    /// unless that is the null register.
    StackAlloc { len: AllocLen, save_address: Out64Reg },
    /// Loads a 64-bit immediate into `register_out`. The two words that follow
    /// the opcode carry the immediate, high half first.
    Make64 { register_out: Out64Reg, stack_slot: StackSlot },
    /// Puts the frame-relative address of stack local `stack_id` into
    /// `register_out`.
    MakeFp { register_out: Out64Reg, stack_id: u16 },
    /// Adds the immediate `value` to `register_out` in place.
    Add16 { register_out: Out64Reg, value: u16 },
    /// Stores `value` through `pointer`.
    Put { pointer: In64Reg, value: InReg },
    /// Loads through `pointer` into `register_out`.
    Get { register_out: OutReg, pointer: In64Reg },
    /// Adds `left` and `right` into `register_out`.
    Add { register_out: OutReg, left: InReg, right: InReg },
}

/// Opcode number of `StackAlloc`.
pub const TAG_STACK_ALLOC: u8 = 1;

/// Opcode number of `Make64`.
pub const TAG_MAKE64: u8 = 2;

/// Opcode number of `MakeFp`.
pub const TAG_MAKE_FP: u8 = 3;

/// Opcode number of `Add16`.
pub const TAG_ADD16: u8 = 4;

/// Opcode number of `Put`.
pub const TAG_PUT: u8 = 5;

/// Opcode number of `Get`.
pub const TAG_GET: u8 = 6;

/// Opcode number of `Add`.
pub const TAG_ADD: u8 = 7;

/// Flag bit of a signed output.
pub const FLAG_SIGNED: u8 = 1;

/// Flag bit of a 64-bit output.
pub const FLAG_OUT64: u8 = 2;

/// Flag bit of a 64-bit first generic input.
pub const FLAG_LEFT64: u8 = 4;

/// Flag bit of a 64-bit second generic input.
pub const FLAG_RIGHT64: u8 = 8;

/// The two flag bits that type an output.
pub const FLAGS_OUT: u8 = 3;

/// The largest value of a 16-bit immediate field.
pub const MAX_IMMEDIATE: u32 = 0xFFFF;

/// The raw value of the stack slot that stands for "no slot".
pub const NO_STACK_SLOT: u16 = 0xFFFF;

/// The largest register number. Register 0 is the null register.
pub const LAST_REGISTER: u8 = 255;

impl In64Reg {
    pub fn new(id: u8) -> (register: Self)
        ensures
            register == (In64Reg { id }),
    {
        In64Reg { id }
    }
}

impl Out64Reg {
    pub fn new(id: u8) -> (register: Self)
        ensures
            register == (Out64Reg { id }),
    {
        Out64Reg { id }
    }

    /// The null register: an output that is not wanted.
    pub fn null() -> (register: Self)
        ensures
            register == (Out64Reg { id: 0 }),
    {
        Out64Reg { id: 0 }
    }
}

impl InReg {
    pub fn new(size: RegSize, id: u8) -> (register: Self)
        ensures
            register == (InReg { size, id }),
    {
        InReg { size, id }
    }
}

impl OutReg {
    pub fn new(sign: RegSign, size: RegSize, id: u8) -> (register: Self)
        ensures
            register == (OutReg { sign, size, id }),
    {
        OutReg { sign, size, id }
    }
}

impl AllocLen {
    /// The length of an allocation of `size` bytes. A size beyond the 16-bit
    /// field is refused, never truncated.
    pub fn new(size: u32) -> (len: Result<Self, ErrorKind>)
        ensures
            size <= MAX_IMMEDIATE ==> len == Ok::<Self, ErrorKind>(AllocLen { len: size as u16 }),
            size > MAX_IMMEDIATE ==> len == Err::<Self, ErrorKind>(ErrorKind::ImmediateOverflow),
    {
        if size <= MAX_IMMEDIATE {
            Ok(AllocLen { len: size as u16 })
        } else {
            Err(ErrorKind::ImmediateOverflow)
        }
    }
}

impl StackSlot {
    pub fn new(raw: u16) -> (slot: Self)
        ensures
            slot == (StackSlot { raw }),
    {
        StackSlot { raw }
    }

    /// The slot of a value that lives in no stack slot.
    pub fn none() -> (slot: Self)
        ensures
            slot == (StackSlot { raw: NO_STACK_SLOT }),
    {
        StackSlot { raw: NO_STACK_SLOT }
    }
}

/// The word made of the four fields of the layout.
pub open spec fn pack(tag: u8, flags: u8, first: u8, rest: u16) -> u32 {
    (tag as u32) | ((flags as u32) << 4) | ((first as u32) << 8) | ((rest as u32) << 16)
}

/// Two register numbers in the place of the 16-bit immediate: `second` in its
/// low byte, `third` in its high byte.
pub open spec fn pair(second: u8, third: u8) -> u16 {
    (second as u16) | ((third as u16) << 8)
}

impl RegSign {
    /// The flag bit of a signed output if the sign is that, else 0.
    pub open spec fn flag(self) -> u8 {
        match self {
            RegSign::Unsigned => 0,
            RegSign::Signed => FLAG_SIGNED,
        }
    }
}

impl RegSize {
    /// `bit` if the width is 64, else 0.
    pub open spec fn flag(self, bit: u8) -> u8 {
        match self {
            RegSize::Size32 => 0,
            RegSize::Size64 => bit,
        }
    }
}

/// The typing flags of an opcode whose output has sign `sign` and width
/// `out`, and whose generic inputs have widths `left` and `right`. A register
/// that the opcode does not have counts as unsigned and 32 bits wide.
pub open spec fn flag_bits(sign: RegSign, out: RegSize, left: RegSize, right: RegSize) -> u8 {
    sign.flag() | out.flag(FLAG_OUT64) | left.flag(FLAG_LEFT64) | right.flag(FLAG_RIGHT64)
}

impl Opcode {
    /// The opcode number that stands in the low four bits of the word.
    pub open spec fn tag(self) -> u8 {
        match self {
            Opcode::StackAlloc { .. } => TAG_STACK_ALLOC,
            Opcode::Make64 { .. } => TAG_MAKE64,
            Opcode::MakeFp { .. } => TAG_MAKE_FP,
            Opcode::Add16 { .. } => TAG_ADD16,
            Opcode::Put { .. } => TAG_PUT,
            Opcode::Get { .. } => TAG_GET,
            Opcode::Add { .. } => TAG_ADD,
        }
    }

    /// The register typing flags of the opcode.
    pub open spec fn flags(self) -> u8 {
        match self {
            Opcode::Put { value, .. } => flag_bits(
                RegSign::Unsigned,
                RegSize::Size32,
                value.size,
                RegSize::Size32,
            ),
            Opcode::Get { register_out, .. } => flag_bits(
                register_out.sign,
                register_out.size,
                RegSize::Size32,
                RegSize::Size32,
            ),
            Opcode::Add { register_out, left, right } => flag_bits(
                register_out.sign,
                register_out.size,
                left.size,
                right.size,
            ),
            _ => 0,
        }
    }

    /// The register in the second byte of the word.
    pub open spec fn first(self) -> u8 {
        match self {
            Opcode::StackAlloc { save_address, .. } => save_address.id,
            Opcode::Make64 { register_out, .. } => register_out.id,
            Opcode::MakeFp { register_out, .. } => register_out.id,
            Opcode::Add16 { register_out, .. } => register_out.id,
            Opcode::Put { pointer, .. } => pointer.id,
            Opcode::Get { register_out, .. } => register_out.id,
            Opcode::Add { register_out, .. } => register_out.id,
        }
    }

    /// The upper half of the word: the immediate of the opcode, or its
    /// second and third register.
    pub open spec fn rest(self) -> u16 {
        match self {
            Opcode::StackAlloc { len, .. } => len.len,
            Opcode::Make64 { stack_slot, .. } => stack_slot.raw,
            Opcode::MakeFp { stack_id, .. } => stack_id,
            Opcode::Add16 { value, .. } => value,
            Opcode::Put { value, .. } => pair(value.id, 0),
            Opcode::Get { pointer, .. } => pair(pointer.id, 0),
            Opcode::Add { left, right, .. } => pair(left.id, right.id),
        }
    }

    /// The 32-bit word that encodes the opcode.
    pub open spec fn word(self) -> u32 {
        pack(self.tag(), self.flags(), self.first(), self.rest())
    }

    /// The register that the opcode writes, if it writes one.
    pub open spec fn written(self) -> Option<u8> {
        match self {
            Opcode::StackAlloc { save_address, .. } => if save_address.id == 0 {
                None
            } else {
                Some(save_address.id)
            },
            Opcode::Make64 { register_out, .. } => Some(register_out.id),
            Opcode::MakeFp { register_out, .. } => Some(register_out.id),
            Opcode::Add16 { register_out, .. } => Some(register_out.id),
            Opcode::Put { .. } => None,
            Opcode::Get { register_out, .. } => Some(register_out.id),
            Opcode::Add { register_out, .. } => Some(register_out.id),
        }
    }
}

/// The opcode number of a word: its low four bits.
pub open spec fn word_tag(word: u32) -> u8 {
    (word & 0xF) as u8
}

/// The register typing flags of a word: bits 4 to 7.
pub open spec fn word_flags(word: u32) -> u8 {
    ((word >> 4) & 0xF) as u8
}

/// The first register of a word: bits 8 to 15.
pub open spec fn word_first(word: u32) -> u8 {
    ((word >> 8) & 0xFF) as u8
}

/// The upper half of a word: a 16-bit immediate or a pair of registers.
pub open spec fn word_rest(word: u32) -> u16 {
    (word >> 16) as u16
}

/// The register in the low byte of a pair.
pub open spec fn pair_low(rest: u16) -> u8 {
    (rest & 0xFF) as u8
}

/// The register in the high byte of a pair.
pub open spec fn pair_high(rest: u16) -> u8 {
    (rest >> 8) as u8
}

/// The signedness that the flags give to the output.
pub open spec fn sign_of(flags: u8) -> RegSign {
    if flags & FLAG_SIGNED != 0 {
        RegSign::Signed
    } else {
        RegSign::Unsigned
    }
}

/// The width that flag `bit` gives to its register.
pub open spec fn size_of(flags: u8, bit: u8) -> RegSize {
    if flags & bit != 0 {
        RegSize::Size64
    } else {
        RegSize::Size32
    }
}

/// The flags hold no bit but those of `allowed`.
pub open spec fn only_flags(flags: u8, allowed: u8) -> bool {
    flags & allowed == flags
}

/// The opcode that a word encodes, if it encodes one. A word with a bit set
/// in a place that its opcode does not use encodes none.
pub open spec fn decoding(word: u32) -> Option<Opcode> {
    let tag = word_tag(word);
    let flags = word_flags(word);
    let first = word_first(word);
    let rest = word_rest(word);
    if tag == TAG_STACK_ALLOC && flags == 0 {
        Some(Opcode::StackAlloc { len: AllocLen { len: rest }, save_address: Out64Reg { id: first } })
    } else if tag == TAG_MAKE64 && flags == 0 {
        Some(
            Opcode::Make64 { register_out: Out64Reg { id: first }, stack_slot: StackSlot { raw: rest } },
        )
    } else if tag == TAG_MAKE_FP && flags == 0 {
        Some(Opcode::MakeFp { register_out: Out64Reg { id: first }, stack_id: rest })
    } else if tag == TAG_ADD16 && flags == 0 {
        Some(Opcode::Add16 { register_out: Out64Reg { id: first }, value: rest })
    } else if tag == TAG_PUT && only_flags(flags, FLAG_LEFT64) && pair_high(rest) == 0 {
        Some(
            Opcode::Put {
                pointer: In64Reg { id: first },
                value: InReg { size: size_of(flags, FLAG_LEFT64), id: pair_low(rest) },
            },
        )
    } else if tag == TAG_GET && only_flags(flags, FLAGS_OUT) && pair_high(rest) == 0 {
        Some(
            Opcode::Get {
                register_out: OutReg {
                    sign: sign_of(flags),
                    size: size_of(flags, FLAG_OUT64),
                    id: first,
                },
                pointer: In64Reg { id: pair_low(rest) },
            },
        )
    } else if tag == TAG_ADD {
        Some(
            Opcode::Add {
                register_out: OutReg {
                    sign: sign_of(flags),
                    size: size_of(flags, FLAG_OUT64),
                    id: first,
                },
                left: InReg { size: size_of(flags, FLAG_LEFT64), id: pair_low(rest) },
                right: InReg { size: size_of(flags, FLAG_RIGHT64), id: pair_high(rest) },
            },
        )
    } else {
        None
    }
}

/// Each field can be read back from the word it was packed into.
proof fn lemma_fields_of_pack(tag: u8, flags: u8, first: u8, rest: u16)
    by (bit_vector)
    requires
        tag < 16,
        flags < 16,
    ensures
        word_tag(pack(tag, flags, first, rest)) == tag,
        word_flags(pack(tag, flags, first, rest)) == flags,
        word_first(pack(tag, flags, first, rest)) == first,
        word_rest(pack(tag, flags, first, rest)) == rest,
{
}

/// A word is made of its four fields and of nothing else.
proof fn lemma_pack_of_fields(word: u32)
    by (bit_vector)
    ensures
        pack(word_tag(word), word_flags(word), word_first(word), word_rest(word)) == word,
        word_tag(word) < 16,
        word_flags(word) < 16,
{
}

/// A pair holds its two registers, and a 16-bit value is the pair of its two
/// bytes.
proof fn lemma_pair(second: u8, third: u8, rest: u16)
    by (bit_vector)
    ensures
        pair_low(pair(second, third)) == second,
        pair_high(pair(second, third)) == third,
        pair(pair_low(rest), pair_high(rest)) == rest,
{
}

/// Four flag bits, each set or not, can be read back from their union.
proof fn lemma_bits_of_flags(a: u8, b: u8, c: u8, d: u8)
    by (bit_vector)
    requires
        a == 0 || a == 1,
        b == 0 || b == 2,
        c == 0 || c == 4,
        d == 0 || d == 8,
    ensures
        (a | b | c | d) < 16,
        (a | b | c | d) & 1 == a,
        (a | b | c | d) & 2 == b,
        (a | b | c | d) & 4 == c,
        (a | b | c | d) & 8 == d,
        a == 0 && b == 0 && d == 0 ==> (a | b | c | d) & 4 == (a | b | c | d),
        c == 0 && d == 0 ==> (a | b | c | d) & 3 == (a | b | c | d),
{
}

/// Four flags are the union of their bits.
proof fn lemma_flags_of_bits(flags: u8)
    by (bit_vector)
    requires
        flags < 16,
    ensures
        (flags & 1) | (flags & 2) | (flags & 4) | (flags & 8) == flags,
        flags & 1 == 0 || flags & 1 == 1,
        flags & 2 == 0 || flags & 2 == 2,
        flags & 4 == 0 || flags & 4 == 4,
        flags & 8 == 0 || flags & 8 == 8,
        flags & 4 == flags ==> flags & 1 == 0 && flags & 2 == 0 && flags & 8 == 0,
        flags & 3 == flags ==> flags & 4 == 0 && flags & 8 == 0,
{
}

/// The flags of an opcode fit their four bits, and each can be read back.
proof fn lemma_flag_bits(sign: RegSign, out: RegSize, left: RegSize, right: RegSize)
    ensures
        flag_bits(sign, out, left, right) < 16,
        sign_of(flag_bits(sign, out, left, right)) == sign,
        size_of(flag_bits(sign, out, left, right), FLAG_OUT64) == out,
        size_of(flag_bits(sign, out, left, right), FLAG_LEFT64) == left,
        size_of(flag_bits(sign, out, left, right), FLAG_RIGHT64) == right,
        sign == RegSign::Unsigned && out == RegSize::Size32 && right == RegSize::Size32 ==> only_flags(
            flag_bits(sign, out, left, right),
            FLAG_LEFT64,
        ),
        left == RegSize::Size32 && right == RegSize::Size32 ==> only_flags(
            flag_bits(sign, out, left, right),
            FLAGS_OUT,
        ),
{
    lemma_bits_of_flags(
        sign.flag(),
        out.flag(FLAG_OUT64),
        left.flag(FLAG_LEFT64),
        right.flag(FLAG_RIGHT64),
    );
}

/// Decoding undoes encoding: no two opcodes share a word.
pub proof fn lemma_decode_encode(op: Opcode)
    ensures
        decoding(op.word()) == Some(op),
{
    match op {
        Opcode::Put { value, .. } => {
            lemma_flag_bits(RegSign::Unsigned, RegSize::Size32, value.size, RegSize::Size32);
            lemma_pair(value.id, 0, 0);
        },
        Opcode::Get { register_out, pointer } => {
            lemma_flag_bits(register_out.sign, register_out.size, RegSize::Size32, RegSize::Size32);
            lemma_pair(pointer.id, 0, 0);
        },
        Opcode::Add { register_out, left, right } => {
            lemma_flag_bits(register_out.sign, register_out.size, left.size, right.size);
            lemma_pair(left.id, right.id, 0);
        },
        _ => {},
    }
    lemma_fields_of_pack(op.tag(), op.flags(), op.first(), op.rest());
}

/// Encoding undoes decoding: a word that encodes an opcode is the word of
/// that opcode.
pub proof fn lemma_encode_decode(word: u32)
    ensures
        decoding(word) matches Some(op) ==> op.word() == word,
{
    lemma_pack_of_fields(word);
    lemma_flags_of_bits(word_flags(word));
    lemma_pair(0, 0, word_rest(word));
    if decoding(word) is Some {
        let op = decoding(word).unwrap();
        assert(op.tag() == word_tag(word));
        assert(op.flags() == word_flags(word));
        assert(op.first() == word_first(word));
        assert(op.rest() == word_rest(word));
    }
}

fn pack_word(tag: u8, flags: u8, first: u8, rest: u16) -> (word: u32)
    ensures
        word == pack(tag, flags, first, rest),
{
    (tag as u32) | ((flags as u32) << 4) | ((first as u32) << 8) | ((rest as u32) << 16)
}

fn pair_of(second: u8, third: u8) -> (rest: u16)
    ensures
        rest == pair(second, third),
{
    (second as u16) | ((third as u16) << 8)
}

fn flags_of(sign: RegSign, out: RegSize, left: RegSize, right: RegSize) -> (flags: u8)
    ensures
        flags == flag_bits(sign, out, left, right),
{
    let sign_bit: u8 = match sign {
        RegSign::Unsigned => 0,
        RegSign::Signed => FLAG_SIGNED,
    };
    let out_bit: u8 = match out {
        RegSize::Size32 => 0,
        RegSize::Size64 => FLAG_OUT64,
    };
    let left_bit: u8 = match left {
        RegSize::Size32 => 0,
        RegSize::Size64 => FLAG_LEFT64,
    };
    let right_bit: u8 = match right {
        RegSize::Size32 => 0,
        RegSize::Size64 => FLAG_RIGHT64,
    };
    sign_bit | out_bit | left_bit | right_bit
}

fn flag_sign(flags: u8) -> (sign: RegSign)
    ensures
        sign == sign_of(flags),
{
    if flags & FLAG_SIGNED != 0 {
        RegSign::Signed
    } else {
        RegSign::Unsigned
    }
}

fn flag_size(flags: u8, bit: u8) -> (size: RegSize)
    ensures
        size == size_of(flags, bit),
{
    if flags & bit != 0 {
        RegSize::Size64
    } else {
        RegSize::Size32
    }
}

impl Opcode {
    /// Encodes the opcode into its word.
    pub fn encode(&self) -> (word: u32)
        ensures
            word == self.word(),
            decoding(word) == Some(*self),
    {
        proof {
            lemma_decode_encode(*self);
        }
        match *self {
            Opcode::StackAlloc { len, save_address } => pack_word(
                TAG_STACK_ALLOC,
                0,
                save_address.id,
                len.len,
            ),
            Opcode::Make64 { register_out, stack_slot } => pack_word(
                TAG_MAKE64,
                0,
                register_out.id,
                stack_slot.raw,
            ),
            Opcode::MakeFp { register_out, stack_id } => pack_word(
                TAG_MAKE_FP,
                0,
                register_out.id,
                stack_id,
            ),
            Opcode::Add16 { register_out, value } => pack_word(
                TAG_ADD16,
                0,
                register_out.id,
                value,
            ),
            Opcode::Put { pointer, value } => pack_word(
                TAG_PUT,
                flags_of(RegSign::Unsigned, RegSize::Size32, value.size, RegSize::Size32),
                pointer.id,
                pair_of(value.id, 0),
            ),
            Opcode::Get { register_out, pointer } => pack_word(
                TAG_GET,
                flags_of(register_out.sign, register_out.size, RegSize::Size32, RegSize::Size32),
                register_out.id,
                pair_of(pointer.id, 0),
            ),
            Opcode::Add { register_out, left, right } => pack_word(
                TAG_ADD,
                flags_of(register_out.sign, register_out.size, left.size, right.size),
                register_out.id,
                pair_of(left.id, right.id),
            ),
        }
    }

    /// Reads a word back as an opcode. `None` for a word that no opcode
    /// encodes.
    pub fn decode(word: u32) -> (op: Option<Opcode>)
        ensures
            op == decoding(word),
            op matches Some(o) ==> o.word() == word,
    {
        proof {
            lemma_encode_decode(word);
        }
        let tag: u8 = (word & 0xF) as u8;
        let flags: u8 = ((word >> 4) & 0xF) as u8;
        let first: u8 = ((word >> 8) & 0xFF) as u8;
        let rest: u16 = (word >> 16) as u16;
        let low: u8 = (rest & 0xFF) as u8;
        let high: u8 = (rest >> 8) as u8;
        if tag == TAG_STACK_ALLOC && flags == 0 {
            Some(Opcode::StackAlloc { len: AllocLen { len: rest }, save_address: Out64Reg { id: first } })
        } else if tag == TAG_MAKE64 && flags == 0 {
            Some(
                Opcode::Make64 {
                    register_out: Out64Reg { id: first },
                    stack_slot: StackSlot { raw: rest },
                },
            )
        } else if tag == TAG_MAKE_FP && flags == 0 {
            Some(Opcode::MakeFp { register_out: Out64Reg { id: first }, stack_id: rest })
        } else if tag == TAG_ADD16 && flags == 0 {
            Some(Opcode::Add16 { register_out: Out64Reg { id: first }, value: rest })
        } else if tag == TAG_PUT && flags & FLAG_LEFT64 == flags && high == 0 {
            Some(
                Opcode::Put {
                    pointer: In64Reg { id: first },
                    value: InReg { size: flag_size(flags, FLAG_LEFT64), id: low },
                },
            )
        } else if tag == TAG_GET && flags & FLAGS_OUT == flags && high == 0 {
            Some(
                Opcode::Get {
                    register_out: OutReg {
                        sign: flag_sign(flags),
                        size: flag_size(flags, FLAG_OUT64),
                        id: first,
                    },
                    pointer: In64Reg { id: low },
                },
            )
        } else if tag == TAG_ADD {
            Some(
                Opcode::Add {
                    register_out: OutReg {
                        sign: flag_sign(flags),
                        size: flag_size(flags, FLAG_OUT64),
                        id: first,
                    },
                    left: InReg { size: flag_size(flags, FLAG_LEFT64), id: low },
                    right: InReg { size: flag_size(flags, FLAG_RIGHT64), id: high },
                },
            )
        } else {
            None
        }
    }
}

impl From<Opcode> for u32 {
    /// The word that encodes the opcode.
    fn from(op: Opcode) -> (word: u32) {
        op.encode()
    }
}

impl vstd::std_specs::convert::FromSpecImpl<Opcode> for u32 {
    open spec fn obeys_from_spec() -> bool {
        true
    }

    open spec fn from_spec(op: Opcode) -> u32 {
        op.word()
    }
}

/// The upper 32 bits of a 64-bit immediate: the first of its two words.
pub open spec fn high_half(value: u64) -> u32 {
    (value >> 32) as u32
}

/// The lower 32 bits of a 64-bit immediate: the second of its two words.
pub open spec fn low_half(value: u64) -> u32 {
    (value & 0xFFFF_FFFF) as u32
}

/// The 64-bit immediate that two words carry, high half first.
pub open spec fn join_halves(high: u32, low: u32) -> u64 {
    ((high as u64) << 32) | (low as u64)
}

/// Joining the two halves of a value gives the value back.
pub proof fn lemma_join_split(value: u64)
    by (bit_vector)
    ensures
        join_halves(high_half(value), low_half(value)) == value,
{
}

/// Splitting a joined pair gives the pair back.
pub proof fn lemma_split_join(high: u32, low: u32)
    by (bit_vector)
    ensures
        high_half(join_halves(high, low)) == high,
        low_half(join_halves(high, low)) == low,
{
}

/// Splits a 64-bit immediate into the two words that follow `Make64`: the
/// high half, then the low half.
pub fn split_u64(value: u64) -> (halves: (u32, u32))
    ensures
        halves.0 == high_half(value),
        halves.1 == low_half(value),
        join_halves(halves.0, halves.1) == value,
{
    proof {
        lemma_join_split(value);
    }
    ((value >> 32) as u32, (value & 0xFFFF_FFFF) as u32)
}

/// Joins the two words that follow `Make64` into the immediate they carry.
pub fn join_u64(high: u32, low: u32) -> (value: u64)
    ensures
        value == join_halves(high, low),
        high_half(value) == high,
        low_half(value) == low,
{
    proof {
        lemma_split_join(high, low);
    }
    ((high as u64) << 32) | (low as u64)
}

} // verus!
