//! Disassembly: the assembler text of each opcode.
use vstd::prelude::*;

use crate::instruction::{decode, decode_spec, nibble_a, Instruction};
use crate::mem::word_at;

verus! {

/// The upper-case hexadecimal digit of `d`.
pub open spec fn hex_digit_text(d: int) -> Seq<char> {
    if d == 0 {
        "0"@
    } else if d == 1 {
        "1"@
    } else if d == 2 {
        "2"@
    } else if d == 3 {
        "3"@
    } else if d == 4 {
        "4"@
    } else if d == 5 {
        "5"@
    } else if d == 6 {
        "6"@
    } else if d == 7 {
        "7"@
    } else if d == 8 {
        "8"@
    } else if d == 9 {
        "9"@
    } else if d == 10 {
        "A"@
    } else if d == 11 {
        "B"@
    } else if d == 12 {
        "C"@
    } else if d == 13 {
        "D"@
    } else if d == 14 {
        "E"@
    } else {
        "F"@
    }
}

/// The last `digits` hexadecimal digits of `v`, most significant first.
pub open spec fn hex_text(v: int, digits: nat) -> Seq<char>
    decreases digits,
{
    if digits == 0 {
        Seq::empty()
    } else {
        hex_text(v / 16, (digits - 1) as nat) + hex_digit_text(v % 16)
    }
}

/// `v` written as `0x` followed by `digits` hexadecimal digits.
pub open spec fn prefixed_hex(v: int, digits: nat) -> Seq<char> {
    "0x"@ + hex_text(v, digits)
}

/// The name of register `x`, in decimal.
pub open spec fn reg_text(x: int) -> Seq<char> {
    if x == 0 {
        "V0"@
    } else if x == 1 {
        "V1"@
    } else if x == 2 {
        "V2"@
    } else if x == 3 {
        "V3"@
    } else if x == 4 {
        "V4"@
    } else if x == 5 {
        "V5"@
    } else if x == 6 {
        "V6"@
    } else if x == 7 {
        "V7"@
    } else if x == 8 {
        "V8"@
    } else if x == 9 {
        "V9"@
    } else if x == 10 {
        "V10"@
    } else if x == 11 {
        "V11"@
    } else if x == 12 {
        "V12"@
    } else if x == 13 {
        "V13"@
    } else if x == 14 {
        "V14"@
    } else {
        "V15"@
    }
}

/// `head` followed by register `x`.
pub open spec fn op_x(head: Seq<char>, x: int) -> Seq<char> {
    head + reg_text(x)
}

/// `head` followed by registers `x` and `y`.
pub open spec fn op_xy(head: Seq<char>, x: int, y: int) -> Seq<char> {
    head + reg_text(x) + ", "@ + reg_text(y)
}

/// `head` followed by register `x` and the byte `kk`.
pub open spec fn op_xkk(head: Seq<char>, x: int, kk: int) -> Seq<char> {
    head + reg_text(x) + ", "@ + prefixed_hex(kk, 2)
}

/// The assembler text of the opcode `op`.
pub open spec fn mnemonic_spec(op: u16) -> Seq<char> {
    match decode_spec(op) {
        Instruction::Cls => "CLS"@,
        Instruction::Ret => "RET"@,
        Instruction::Jp { addr } => "JP "@ + prefixed_hex(addr as int, 3),
        Instruction::Call { addr } => "CALL "@ + prefixed_hex(addr as int, 3),
        Instruction::SeByte { x, kk } => op_xkk("SE "@, x as int, kk as int),
        Instruction::SneByte { x, kk } => op_xkk("SNE "@, x as int, kk as int),
        Instruction::SeReg { x, y } => op_xy("SE "@, x as int, y as int),
        Instruction::LdByte { x, kk } => op_xkk("LD "@, x as int, kk as int),
        Instruction::AddByte { x, kk } => op_xkk("ADD "@, x as int, kk as int),
        Instruction::LdReg { x, y } => op_xy("LD "@, x as int, y as int),
        Instruction::Or { x, y } => op_xy("OR "@, x as int, y as int),
        Instruction::And { x, y } => op_xy("AND "@, x as int, y as int),
        Instruction::Xor { x, y } => op_xy("XOR "@, x as int, y as int),
        Instruction::AddReg { x, y } => op_xy("ADD "@, x as int, y as int),
        Instruction::Sub { x, y } => op_xy("SUB "@, x as int, y as int),
        Instruction::Shr { x } => op_x("SHR "@, x as int),
        Instruction::Subn { x, y } => op_xy("SUBN "@, x as int, y as int),
        Instruction::Shl { x } => op_x("SHL "@, x as int),
        Instruction::SneReg { x, y } => op_xy("SNE "@, x as int, y as int),
        Instruction::LdI { addr } => "LD I, "@ + prefixed_hex(addr as int, 3),
        Instruction::JpV0 { addr } => "JP V0, "@ + prefixed_hex(addr as int, 3),
        Instruction::Rnd { x, kk } => op_xkk("RND "@, x as int, kk as int),
        Instruction::Drw { x, y, n } => op_xy("DRW "@, x as int, y as int) + ", "@ + prefixed_hex(
            n as int,
            1,
        ),
        Instruction::Skp { x } => op_x("SKP "@, x as int),
        Instruction::Sknp { x } => op_x("SKNP "@, x as int),
        Instruction::LdVxDt { x } => op_x("LD "@, x as int) + ", DT"@,
        Instruction::LdVxK { x } => op_x("LD "@, x as int) + ", K"@,
        Instruction::LdDtVx { x } => op_x("LD DT, "@, x as int),
        Instruction::LdStVx { x } => op_x("LD ST, "@, x as int),
        Instruction::AddI { x } => op_x("ADD I, "@, x as int),
        Instruction::LdF { x } => op_x("LD F, "@, x as int),
        Instruction::LdB { x } => op_x("LD B, "@, x as int),
        Instruction::StoreRegs { x } => op_x("LD [I], "@, x as int),
        Instruction::LoadRegs { x } => op_x("LD "@, x as int) + ", [I]"@,
        Instruction::Unknown { .. } => if nibble_a(op) == 0 {
            "SYS "@ + prefixed_hex(op as int % 4096, 3) + " (unsupported)"@
        } else {
            "Unsupported"@
        },
    }
}

/// One listing line: the opcode in hexadecimal, then its assembler text.
pub open spec fn listing_line(op: u16) -> Seq<char> {
    "("@ + prefixed_hex(op as int, 4) + ") "@ + mnemonic_spec(op)
}

fn hex_digit(d: u16) -> (r: &'static str)
    requires
        d < 16,
    ensures
        r@ == hex_digit_text(d as int),
{
    if d == 0 {
        "0"
    } else if d == 1 {
        "1"
    } else if d == 2 {
        "2"
    } else if d == 3 {
        "3"
    } else if d == 4 {
        "4"
    } else if d == 5 {
        "5"
    } else if d == 6 {
        "6"
    } else if d == 7 {
        "7"
    } else if d == 8 {
        "8"
    } else if d == 9 {
        "9"
    } else if d == 10 {
        "A"
    } else if d == 11 {
        "B"
    } else if d == 12 {
        "C"
    } else if d == 13 {
        "D"
    } else if d == 14 {
        "E"
    } else {
        "F"
    }
}

fn hex_string(v: u16, digits: usize) -> (r: String)
    ensures
        r@ == hex_text(v as int, digits as nat),
    decreases digits,
{
    if digits == 0 {
        String::new()
    } else {
        let mut s = hex_string(v / 16, digits - 1);
        s.append(hex_digit(v % 16));
        s
    }
}

fn prefixed_hex_string(v: u16, digits: usize) -> (r: String)
    ensures
        r@ == prefixed_hex(v as int, digits as nat),
{
    let mut s = String::from_str("0x");
    s.append(hex_string(v, digits).as_str());
    s
}

fn reg_name(x: usize) -> (r: &'static str)
    requires
        x < 16,
    ensures
        r@ == reg_text(x as int),
{
    if x == 0 {
        "V0"
    } else if x == 1 {
        "V1"
    } else if x == 2 {
        "V2"
    } else if x == 3 {
        "V3"
    } else if x == 4 {
        "V4"
    } else if x == 5 {
        "V5"
    } else if x == 6 {
        "V6"
    } else if x == 7 {
        "V7"
    } else if x == 8 {
        "V8"
    } else if x == 9 {
        "V9"
    } else if x == 10 {
        "V10"
    } else if x == 11 {
        "V11"
    } else if x == 12 {
        "V12"
    } else if x == 13 {
        "V13"
    } else if x == 14 {
        "V14"
    } else {
        "V15"
    }
}

fn text_x(head: &str, x: usize) -> (r: String)
    requires
        x < 16,
    ensures
        r@ == op_x(head@, x as int),
{
    let mut s = String::from_str(head);
    s.append(reg_name(x));
    s
}

fn text_xy(head: &str, x: usize, y: usize) -> (r: String)
    requires
        x < 16,
        y < 16,
    ensures
        r@ == op_xy(head@, x as int, y as int),
{
    let mut s = String::from_str(head);
    s.append(reg_name(x));
    s.append(", ");
    s.append(reg_name(y));
    s
}

fn text_xkk(head: &str, x: usize, kk: u8) -> (r: String)
    requires
        x < 16,
    ensures
        r@ == op_xkk(head@, x as int, kk as int),
{
    let mut s = String::from_str(head);
    s.append(reg_name(x));
    s.append(", ");
    s.append(prefixed_hex_string(kk as u16, 2).as_str());
    s
}

fn text_addr(head: &str, addr: u16) -> (r: String)
    ensures
        r@ == head@ + prefixed_hex(addr as int, 3),
{
    let mut s = String::from_str(head);
    s.append(prefixed_hex_string(addr, 3).as_str());
    s
}

fn with_suffix(mut s: String, tail: &str) -> (r: String)
    ensures
        r@ == s@ + tail@,
{
    s.append(tail);
    s
}

/// The assembler text of `op`, as the disassembler lists it.
pub fn mnemonic(op: u16) -> (r: String)
    ensures
        r@ == mnemonic_spec(op),
{
    match decode(op) {
        Instruction::Cls => String::from_str("CLS"),
        Instruction::Ret => String::from_str("RET"),
        Instruction::Jp { addr } => text_addr("JP ", addr),
        Instruction::Call { addr } => text_addr("CALL ", addr),
        Instruction::SeByte { x, kk } => text_xkk("SE ", x, kk),
        Instruction::SneByte { x, kk } => text_xkk("SNE ", x, kk),
        Instruction::SeReg { x, y } => text_xy("SE ", x, y),
        Instruction::LdByte { x, kk } => text_xkk("LD ", x, kk),
        Instruction::AddByte { x, kk } => text_xkk("ADD ", x, kk),
        Instruction::LdReg { x, y } => text_xy("LD ", x, y),
        Instruction::Or { x, y } => text_xy("OR ", x, y),
        Instruction::And { x, y } => text_xy("AND ", x, y),
        Instruction::Xor { x, y } => text_xy("XOR ", x, y),
        Instruction::AddReg { x, y } => text_xy("ADD ", x, y),
        Instruction::Sub { x, y } => text_xy("SUB ", x, y),
        Instruction::Shr { x } => text_x("SHR ", x),
        Instruction::Subn { x, y } => text_xy("SUBN ", x, y),
        Instruction::Shl { x } => text_x("SHL ", x),
        Instruction::SneReg { x, y } => text_xy("SNE ", x, y),
        Instruction::LdI { addr } => text_addr("LD I, ", addr),
        Instruction::JpV0 { addr } => text_addr("JP V0, ", addr),
        Instruction::Rnd { x, kk } => text_xkk("RND ", x, kk),
        Instruction::Drw { x, y, n } => {
            let s = with_suffix(text_xy("DRW ", x, y), ", ");
            with_suffix(s, prefixed_hex_string(n as u16, 1).as_str())
        },
        Instruction::Skp { x } => text_x("SKP ", x),
        Instruction::Sknp { x } => text_x("SKNP ", x),
        Instruction::LdVxDt { x } => with_suffix(text_x("LD ", x), ", DT"),
        Instruction::LdVxK { x } => with_suffix(text_x("LD ", x), ", K"),
        Instruction::LdDtVx { x } => text_x("LD DT, ", x),
        Instruction::LdStVx { x } => text_x("LD ST, ", x),
        Instruction::AddI { x } => text_x("ADD I, ", x),
        Instruction::LdF { x } => text_x("LD F, ", x),
        Instruction::LdB { x } => text_x("LD B, ", x),
        Instruction::StoreRegs { x } => text_x("LD [I], ", x),
        Instruction::LoadRegs { x } => with_suffix(text_x("LD ", x), ", [I]"),
        Instruction::Unknown { .. } => if op / 4096 == 0 {
            with_suffix(text_addr("SYS ", op % 4096), " (unsupported)")
        } else {
            String::from_str("Unsupported")
        },
    }
}

/// The listing line for `op`: `(0xABCD) ` followed by its assembler text.
pub fn listing(op: u16) -> (r: String)
    ensures
        r@ == listing_line(op),
{
    let mut s = String::from_str("(");
    s.append(prefixed_hex_string(op, 4).as_str());
    s.append(") ");
    s.append(mnemonic(op).as_str());
    s
}

/// The listing of a program image, one line per two-byte opcode, or `None`
/// when the image has an odd number of bytes.
pub fn disassemble(image: &Vec<u8>) -> (r: Option<Vec<String>>)
    ensures
        r is None <==> image@.len() % 2 == 1,
        r matches Some(lines) ==> {
            &&& lines@.len() == image@.len() / 2
            &&& forall|k: int|
                0 <= k < lines@.len() ==> #[trigger] lines@[k]@ == listing_line(
                    word_at(image@, 2 * k),
                )
        },
{
    if image.len() % 2 == 1 {
        return None;
    }
    let mut lines: Vec<String> = Vec::new();
    let mut k: usize = 0;
    while k < image.len() / 2
        invariant
            image@.len() % 2 == 0,
            k <= image@.len() / 2,
            lines@.len() == k,
            forall|j: int|
                0 <= j < k ==> #[trigger] lines@[j]@ == listing_line(word_at(image@, 2 * j)),
        decreases image@.len() / 2 - k,
    {
        let hi = image[2 * k] as u16;
        let lo = image[2 * k + 1] as u16;
        lines.push(listing(hi * 256 + lo));
        k += 1;
    }
    Some(lines)
}

} // verus!
