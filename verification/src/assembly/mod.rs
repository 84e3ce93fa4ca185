//! The instruction emitters: the only code that produces assembly text.
//!
//! Each emitter appends the lines of one operation to the output. An emitter
//! that combines two registers hands one of them back to the pool and
//! returns the other, which then holds the result.

use vstd::prelude::*;
use crate::assembly::registers::{lowest_free, RegisterError, RegisterIndex, Registers};
use crate::text::{append_decimal, decimal_text};

pub mod registers;

verus! {

/// The runtime helper that prints an integer, and the entry of `main`.
pub const PREAMBLE: &'static str = "\t# Start of preamble\n\
    \t.text\n\
    .LC0:\n\
    \t.string\t\"%d\\n\"\n\
    \n\
    printint:\n\
    \tpushq\t%rbp\n\
    \tmovq\t%rsp, %rbp\n\
    \tsubq\t$16, %rsp\n\
    \tmovl\t%edi, -4(%rbp)\n\
    \tmovl\t-4(%rbp), %eax\n\
    \tmovl\t%eax, %esi\n\
    \tleaq\t.LC0(%rip), %rdi\n\
    \tmovl\t$0, %eax\n\
    \tcall\t_printf\n\
    \tnop\n\
    \tleave\n\
    \tret\n\
    \t.globl\t_main\n\
    _main:\n\
    \tpushq\t%rbp\n\
    \tmovq\t%rsp, %rbp\n\
    \t# End of preamble\n";

/// The return from `main`.
pub const POSTAMBLE: &'static str = "\tmovl\t$0, %eax             # Start of postamble\n\
    \tpopq\t%rbp\n\
    \tret                         # End of postamble\n";

/// `addq r1, r2`: the sum is left in `r2`.
pub open spec fn add_text(r1: RegisterIndex, r2: RegisterIndex) -> Seq<char> {
    "\taddq\t"@ + r1.spec_name() + ", "@ + r2.spec_name() + "\n"@
}

/// `imulq r1, r2`: the product is left in `r2`.
pub open spec fn mul_text(r1: RegisterIndex, r2: RegisterIndex) -> Seq<char> {
    "\timulq\t"@ + r1.spec_name() + ", "@ + r2.spec_name() + "\n"@
}

/// `subq r2, r1`: the difference is left in `r1`.
pub open spec fn sub_text(r1: RegisterIndex, r2: RegisterIndex) -> Seq<char> {
    "\tsubq\t"@ + r2.spec_name() + ", "@ + r1.spec_name() + "\n"@
}

/// The division of `r1` by `r2` through `%rax`: the quotient is left in
/// `r1`.
pub open spec fn div_text(r1: RegisterIndex, r2: RegisterIndex) -> Seq<char> {
    "\tmovq\t"@ + r1.spec_name() + ", %rax\n\tcqo\n\tidivq\t"@ + r2.spec_name()
        + "\n\tmovq\t%rax, "@ + r1.spec_name() + "\n"@
}

/// The comparison of `r1` with `r2`: the instruction `how` sets the low byte
/// of `r2` to the outcome, and the rest of `r2` is cleared.
pub open spec fn compare_text(r1: RegisterIndex, r2: RegisterIndex, how: Seq<char>) -> Seq<char> {
    "\tcmpq\t"@ + r2.spec_name() + ", "@ + r1.spec_name() + "\n\t"@ + how + "\t"@
        + r2.spec_byte_name() + "\n\tandq\t$255,"@ + r2.spec_name() + "\n"@
}

/// A comment line.
pub open spec fn comment_text(comment: Seq<char>) -> Seq<char> {
    "\t# "@ + comment + "\n"@
}

/// The load of the constant `value` into `r`.
pub open spec fn load_text(value: u32, r: RegisterIndex) -> Seq<char> {
    "\tmovq\t$"@ + decimal_text(value as nat) + ", "@ + r.spec_name() + "\n"@
}

/// The call of the print helper with the value of `r`.
pub open spec fn printint_text(r: RegisterIndex) -> Seq<char> {
    "\tmovq\t"@ + r.spec_name() + ",%rdi\n\tcall\tprintint\n"@
}

/// The directive that reserves eight bytes for the global `sym`.
pub open spec fn globsym_text(sym: Seq<char>) -> Seq<char> {
    "\t.comm\t"@ + sym + ",8,8\n"@
}

/// The store of `r` into the global `sym`.
pub open spec fn storglob_text(sym: Seq<char>, r: RegisterIndex) -> Seq<char> {
    "\tmovq\t"@ + r.spec_name() + ", "@ + sym + "(%rip)\n\n"@
}

/// The load of the global `sym` into `r`.
pub open spec fn loadglob_text(sym: Seq<char>, r: RegisterIndex) -> Seq<char> {
    "\tmovq\t"@ + sym + "(%rip), "@ + r.spec_name() + "\n\n"@
}

/// What an emitter that combines two registers does: it writes `text`,
/// frees `freed` and returns `kept`. If `freed` is free already, it fails
/// and changes nothing.
pub open spec fn combines(
    res: Result<RegisterIndex, RegisterError>,
    kept: RegisterIndex,
    freed: RegisterIndex,
    text: Seq<char>,
    pool_before: Seq<bool>,
    pool_after: Seq<bool>,
    out_before: Seq<char>,
    out_after: Seq<char>,
) -> bool {
    if pool_before[freed.slot()] {
        &&& res == Err::<RegisterIndex, RegisterError>(RegisterError::AlreadyFree(freed))
        &&& pool_after == pool_before
        &&& out_after == out_before
    } else {
        &&& res == Ok::<RegisterIndex, RegisterError>(kept)
        &&& pool_after == pool_before.update(freed.slot(), true)
        &&& out_after == out_before + text
    }
}

/// Adds `r1` to `r2`, frees `r1` and returns `r2`.
pub fn cgadd(
    r1: RegisterIndex,
    r2: RegisterIndex,
    registers: &mut Registers,
    out: &mut String,
) -> (res: Result<RegisterIndex, RegisterError>)
    requires
        r1.valid(),
        r2.valid(),
    ensures
        combines(
            res,
            r2,
            r1,
            add_text(r1, r2),
            old(registers)@,
            final(registers)@,
            old(out)@,
            final(out)@,
        ),
{
    match registers.free_register(r1) {
        Err(e) => Err(e),
        Ok(_) => {
            out.append("\taddq\t");
            out.append(r1.name());
            out.append(", ");
            out.append(r2.name());
            out.append("\n");
            assert(out@ =~= old(out)@ + add_text(r1, r2));
            Ok(r2)
        },
    }
}

/// Multiplies `r2` by `r1`, frees `r1` and returns `r2`.
pub fn cgmul(
    r1: RegisterIndex,
    r2: RegisterIndex,
    registers: &mut Registers,
    out: &mut String,
) -> (res: Result<RegisterIndex, RegisterError>)
    requires
        r1.valid(),
        r2.valid(),
    ensures
        combines(
            res,
            r2,
            r1,
            mul_text(r1, r2),
            old(registers)@,
            final(registers)@,
            old(out)@,
            final(out)@,
        ),
{
    match registers.free_register(r1) {
        Err(e) => Err(e),
        Ok(_) => {
            out.append("\timulq\t");
            out.append(r1.name());
            out.append(", ");
            out.append(r2.name());
            out.append("\n");
            assert(out@ =~= old(out)@ + mul_text(r1, r2));
            Ok(r2)
        },
    }
}

/// Subtracts `r2` from `r1`, frees `r2` and returns `r1`.
pub fn cgsub(
    r1: RegisterIndex,
    r2: RegisterIndex,
    registers: &mut Registers,
    out: &mut String,
) -> (res: Result<RegisterIndex, RegisterError>)
    requires
        r1.valid(),
        r2.valid(),
    ensures
        combines(
            res,
            r1,
            r2,
            sub_text(r1, r2),
            old(registers)@,
            final(registers)@,
            old(out)@,
            final(out)@,
        ),
{
    match registers.free_register(r2) {
        Err(e) => Err(e),
        Ok(_) => {
            out.append("\tsubq\t");
            out.append(r2.name());
            out.append(", ");
            out.append(r1.name());
            out.append("\n");
            assert(out@ =~= old(out)@ + sub_text(r1, r2));
            Ok(r1)
        },
    }
}

/// Divides `r1` by `r2`, frees `r2` and returns `r1`.
pub fn cgdiv(
    r1: RegisterIndex,
    r2: RegisterIndex,
    registers: &mut Registers,
    out: &mut String,
) -> (res: Result<RegisterIndex, RegisterError>)
    requires
        r1.valid(),
        r2.valid(),
    ensures
        combines(
            res,
            r1,
            r2,
            div_text(r1, r2),
            old(registers)@,
            final(registers)@,
            old(out)@,
            final(out)@,
        ),
{
    match registers.free_register(r2) {
        Err(e) => Err(e),
        Ok(_) => {
            out.append("\tmovq\t");
            out.append(r1.name());
            out.append(", %rax\n\tcqo\n\tidivq\t");
            out.append(r2.name());
            out.append("\n\tmovq\t%rax, ");
            out.append(r1.name());
            out.append("\n");
            assert(out@ =~= old(out)@ + div_text(r1, r2));
            Ok(r1)
        },
    }
}

/// Compares `r1` with `r2` and leaves the outcome of `how`, 1 or 0, in
/// `r2`; frees `r1` and returns `r2`. `how` is the instruction that sets a
/// byte from the flags, such as `setl`.
pub fn cgcompare(
    r1: RegisterIndex,
    r2: RegisterIndex,
    how: &str,
    registers: &mut Registers,
    out: &mut String,
) -> (res: Result<RegisterIndex, RegisterError>)
    requires
        r1.valid(),
        r2.valid(),
    ensures
        combines(
            res,
            r2,
            r1,
            compare_text(r1, r2, how@),
            old(registers)@,
            final(registers)@,
            old(out)@,
            final(out)@,
        ),
{
    match registers.free_register(r1) {
        Err(e) => Err(e),
        Ok(_) => {
            out.append("\tcmpq\t");
            out.append(r2.name());
            out.append(", ");
            out.append(r1.name());
            out.append("\n\t");
            out.append(how);
            out.append("\t");
            out.append(r2.byte_name());
            out.append("\n\tandq\t$255,");
            out.append(r2.name());
            out.append("\n");
            assert(out@ =~= old(out)@ + compare_text(r1, r2, how@));
            Ok(r2)
        },
    }
}

/// Leaves in `r2` whether `r1` equals `r2`; frees `r1`.
pub fn cgequal(
    r1: RegisterIndex,
    r2: RegisterIndex,
    registers: &mut Registers,
    out: &mut String,
) -> (res: Result<RegisterIndex, RegisterError>)
    requires
        r1.valid(),
        r2.valid(),
    ensures
        combines(
            res,
            r2,
            r1,
            compare_text(r1, r2, "sete"@),
            old(registers)@,
            final(registers)@,
            old(out)@,
            final(out)@,
        ),
{
    cgcompare(r1, r2, "sete", registers, out)
}

/// Leaves in `r2` whether `r1` differs from `r2`; frees `r1`.
pub fn cgnotequal(
    r1: RegisterIndex,
    r2: RegisterIndex,
    registers: &mut Registers,
    out: &mut String,
) -> (res: Result<RegisterIndex, RegisterError>)
    requires
        r1.valid(),
        r2.valid(),
    ensures
        combines(
            res,
            r2,
            r1,
            compare_text(r1, r2, "setne"@),
            old(registers)@,
            final(registers)@,
            old(out)@,
            final(out)@,
        ),
{
    cgcompare(r1, r2, "setne", registers, out)
}

/// Leaves in `r2` whether `r1` is less than `r2`; frees `r1`.
pub fn cglessthan(
    r1: RegisterIndex,
    r2: RegisterIndex,
    registers: &mut Registers,
    out: &mut String,
) -> (res: Result<RegisterIndex, RegisterError>)
    requires
        r1.valid(),
        r2.valid(),
    ensures
        combines(
            res,
            r2,
            r1,
            compare_text(r1, r2, "setl"@),
            old(registers)@,
            final(registers)@,
            old(out)@,
            final(out)@,
        ),
{
    cgcompare(r1, r2, "setl", registers, out)
}

/// Leaves in `r2` whether `r1` is greater than `r2`; frees `r1`.
pub fn cggreaterthan(
    r1: RegisterIndex,
    r2: RegisterIndex,
    registers: &mut Registers,
    out: &mut String,
) -> (res: Result<RegisterIndex, RegisterError>)
    requires
        r1.valid(),
        r2.valid(),
    ensures
        combines(
            res,
            r2,
            r1,
            compare_text(r1, r2, "setg"@),
            old(registers)@,
            final(registers)@,
            old(out)@,
            final(out)@,
        ),
{
    cgcompare(r1, r2, "setg", registers, out)
}

/// Leaves in `r2` whether `r1` is at most `r2`; frees `r1`.
pub fn cglessequal(
    r1: RegisterIndex,
    r2: RegisterIndex,
    registers: &mut Registers,
    out: &mut String,
) -> (res: Result<RegisterIndex, RegisterError>)
    requires
        r1.valid(),
        r2.valid(),
    ensures
        combines(
            res,
            r2,
            r1,
            compare_text(r1, r2, "setle"@),
            old(registers)@,
            final(registers)@,
            old(out)@,
            final(out)@,
        ),
{
    cgcompare(r1, r2, "setle", registers, out)
}

/// Leaves in `r2` whether `r1` is at least `r2`; frees `r1`.
pub fn cggreaterequal(
    r1: RegisterIndex,
    r2: RegisterIndex,
    registers: &mut Registers,
    out: &mut String,
) -> (res: Result<RegisterIndex, RegisterError>)
    requires
        r1.valid(),
        r2.valid(),
    ensures
        combines(
            res,
            r2,
            r1,
            compare_text(r1, r2, "setge"@),
            old(registers)@,
            final(registers)@,
            old(out)@,
            final(out)@,
        ),
{
    cgcompare(r1, r2, "setge", registers, out)
}

/// Writes `comment` as a comment line.
pub fn cgcomment(out: &mut String, comment: &str)
    ensures
        final(out)@ == old(out)@ + comment_text(comment@),
{
    out.append("\t# ");
    out.append(comment);
    out.append("\n");
    assert(out@ =~= old(out)@ + comment_text(comment@));
}

/// Writes the block that precedes the code of the statements.
pub fn cgpreamble(out: &mut String)
    ensures
        final(out)@ == old(out)@ + PREAMBLE@,
{
    out.append(PREAMBLE);
}

/// Writes the block that follows the code of the statements.
pub fn cgpostamble(out: &mut String)
    ensures
        final(out)@ == old(out)@ + POSTAMBLE@,
{
    out.append(POSTAMBLE);
}

/// What an emitter that loads a value does: it takes the lowest free
/// register `r`, writes `text(r)` and returns `r`. With no register free it
/// fails and changes nothing.
pub open spec fn loads(
    res: Result<RegisterIndex, RegisterError>,
    text: spec_fn(RegisterIndex) -> Seq<char>,
    pool_before: Seq<bool>,
    pool_after: Seq<bool>,
    out_before: Seq<char>,
    out_after: Seq<char>,
) -> bool {
    match lowest_free(pool_before) {
        Some(slot) => {
            let r = RegisterIndex(slot as u32);
            &&& res == Ok::<RegisterIndex, RegisterError>(r)
            &&& pool_after == pool_before.update(slot, false)
            &&& out_after == out_before + text(r)
        },
        None => {
            &&& res == Err::<RegisterIndex, RegisterError>(RegisterError::OutOfRegisters)
            &&& pool_after == pool_before
            &&& out_after == out_before
        },
    }
}

/// Loads the constant `value` into a fresh register and returns it.
pub fn cgload(value: u32, registers: &mut Registers, out: &mut String) -> (res: Result<
    RegisterIndex,
    RegisterError,
>)
    ensures
        loads(
            res,
            |r: RegisterIndex| load_text(value, r),
            old(registers)@,
            final(registers)@,
            old(out)@,
            final(out)@,
        ),
{
    match registers.allocate_register() {
        Err(e) => Err(e),
        Ok(r) => {
            out.append("\tmovq\t$");
            append_decimal(out, value);
            out.append(", ");
            out.append(r.name());
            out.append("\n");
            assert(out@ =~= old(out)@ + load_text(value, r));
            Ok(r)
        },
    }
}

/// Calls the print helper with the value of `r`.
pub fn cgprintint(r: RegisterIndex, out: &mut String)
    requires
        r.valid(),
    ensures
        final(out)@ == old(out)@ + printint_text(r),
{
    out.append("\tmovq\t");
    out.append(r.name());
    out.append(",%rdi\n\tcall\tprintint\n");
    assert(out@ =~= old(out)@ + printint_text(r));
}

/// Reserves storage for the global `sym`.
pub fn cgglobsym(sym: &str, out: &mut String)
    ensures
        final(out)@ == old(out)@ + globsym_text(sym@),
{
    out.append("\t.comm\t");
    out.append(sym);
    out.append(",8,8\n");
    assert(out@ =~= old(out)@ + globsym_text(sym@));
}

/// Stores `r` into the global `sym` and returns `r`.
pub fn cgstorglob(sym: &str, r: RegisterIndex, out: &mut String) -> (res: RegisterIndex)
    requires
        r.valid(),
    ensures
        res == r,
        final(out)@ == old(out)@ + storglob_text(sym@, r),
{
    out.append("\tmovq\t");
    out.append(r.name());
    out.append(", ");
    out.append(sym);
    out.append("(%rip)\n\n");
    assert(out@ =~= old(out)@ + storglob_text(sym@, r));
    r
}

/// Loads the global `sym` into a fresh register and returns it.
pub fn cgloadglob(sym: &str, registers: &mut Registers, out: &mut String) -> (res: Result<
    RegisterIndex,
    RegisterError,
>)
    ensures
        loads(
            res,
            |r: RegisterIndex| loadglob_text(sym@, r),
            old(registers)@,
            final(registers)@,
            old(out)@,
            final(out)@,
        ),
{
    match registers.allocate_register() {
        Err(e) => Err(e),
        Ok(r) => {
            out.append("\tmovq\t");
            out.append(sym);
            out.append("(%rip), ");
            out.append(r.name());
            out.append("\n\n");
            assert(out@ =~= old(out)@ + loadglob_text(sym@, r));
            Ok(r)
        },
    }
}

} // verus!
