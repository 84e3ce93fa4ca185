use learn_to_write_a_compiler::assembly::registers::{RegisterError, RegisterIndex, Registers};
use learn_to_write_a_compiler::assembly::{
    cgadd, cgcomment, cgcompare, cgdiv, cgequal, cggreaterequal, cggreaterthan, cgglobsym,
    cglessequal, cglessthan, cgload, cgloadglob, cgmul, cgnotequal, cgpostamble, cgpreamble,
    cgprintint, cgstorglob, cgsub, POSTAMBLE, PREAMBLE,
};
use learn_to_write_a_compiler::text::append_decimal;

/// A pool in which the first `held` registers are in use.
fn pool_with(held: u32) -> Registers {
    let mut registers = Registers::new();
    for slot in 0..held {
        assert_eq!(registers.allocate_register(), Ok(RegisterIndex(slot)));
    }
    registers
}

#[test]
fn decimal_text_of_numbers() {
    for (value, text) in [
        (0u32, "0"),
        (7, "7"),
        (9, "9"),
        (10, "10"),
        (42, "42"),
        (100, "100"),
        (1234567890, "1234567890"),
        (4294967295, "4294967295"),
    ] {
        let mut out = String::new();
        append_decimal(&mut out, value);
        assert_eq!(out, text);
    }
}

#[test]
fn decimal_text_is_appended() {
    let mut out = String::from("$");
    append_decimal(&mut out, 305);
    append_decimal(&mut out, 0);
    assert_eq!(out, "$3050");
}

#[test]
fn add_frees_the_first_register() {
    let mut registers = pool_with(2);
    let mut out = String::from("x\n");
    let r = cgadd(RegisterIndex(0), RegisterIndex(1), &mut registers, &mut out);
    assert_eq!(r, Ok(RegisterIndex(1)));
    assert_eq!(out, "x\n\taddq\t%r8, %r9\n");
    assert_eq!(registers.allocate_register(), Ok(RegisterIndex(0)));
    assert_eq!(registers.allocate_register(), Ok(RegisterIndex(2)));
}

#[test]
fn mul_frees_the_first_register() {
    let mut registers = pool_with(4);
    let mut out = String::new();
    let r = cgmul(RegisterIndex(2), RegisterIndex(3), &mut registers, &mut out);
    assert_eq!(r, Ok(RegisterIndex(3)));
    assert_eq!(out, "\timulq\t%r10, %r11\n");
    assert_eq!(registers.allocate_register(), Ok(RegisterIndex(2)));
    assert_eq!(registers.allocate_register(), Err(RegisterError::OutOfRegisters));
}

#[test]
fn sub_frees_the_second_register() {
    let mut registers = pool_with(2);
    let mut out = String::new();
    let r = cgsub(RegisterIndex(0), RegisterIndex(1), &mut registers, &mut out);
    assert_eq!(r, Ok(RegisterIndex(0)));
    assert_eq!(out, "\tsubq\t%r9, %r8\n");
    assert_eq!(registers.allocate_register(), Ok(RegisterIndex(1)));
}

#[test]
fn div_goes_through_rax() {
    let mut registers = pool_with(2);
    let mut out = String::new();
    let r = cgdiv(RegisterIndex(0), RegisterIndex(1), &mut registers, &mut out);
    assert_eq!(r, Ok(RegisterIndex(0)));
    assert_eq!(
        out,
        "\tmovq\t%r8, %rax\n\tcqo\n\tidivq\t%r9\n\tmovq\t%rax, %r8\n"
    );
    assert_eq!(registers.allocate_register(), Ok(RegisterIndex(1)));
}

#[test]
fn compare_sets_the_byte_of_the_second_register() {
    let mut registers = pool_with(2);
    let mut out = String::new();
    let r = cgcompare(RegisterIndex(0), RegisterIndex(1), "setl", &mut registers, &mut out);
    assert_eq!(r, Ok(RegisterIndex(1)));
    assert_eq!(out, "\tcmpq\t%r9, %r8\n\tsetl\t%r9b\n\tandq\t$255,%r9\n");
    assert_eq!(registers.allocate_register(), Ok(RegisterIndex(0)));
}

#[test]
fn each_comparison_has_its_instruction() {
    let emitters: [(
        fn(
            RegisterIndex,
            RegisterIndex,
            &mut Registers,
            &mut String,
        ) -> Result<RegisterIndex, RegisterError>,
        &str,
    ); 6] = [
        (cgequal, "sete"),
        (cgnotequal, "setne"),
        (cglessthan, "setl"),
        (cggreaterthan, "setg"),
        (cglessequal, "setle"),
        (cggreaterequal, "setge"),
    ];
    for (emit, how) in emitters {
        let mut registers = pool_with(4);
        let mut out = String::new();
        let r = emit(RegisterIndex(2), RegisterIndex(3), &mut registers, &mut out);
        assert_eq!(r, Ok(RegisterIndex(3)));
        assert_eq!(
            out,
            format!("\tcmpq\t%r11, %r10\n\t{}\t%r11b\n\tandq\t$255,%r11\n", how)
        );
        assert_eq!(registers.allocate_register(), Ok(RegisterIndex(2)));
    }
}

#[test]
fn combining_with_a_free_register_fails_and_writes_nothing() {
    let mut registers = pool_with(1);
    let mut out = String::from("kept");
    assert_eq!(
        cgadd(RegisterIndex(1), RegisterIndex(0), &mut registers, &mut out),
        Err(RegisterError::AlreadyFree(RegisterIndex(1)))
    );
    assert_eq!(
        cgmul(RegisterIndex(1), RegisterIndex(0), &mut registers, &mut out),
        Err(RegisterError::AlreadyFree(RegisterIndex(1)))
    );
    assert_eq!(
        cgsub(RegisterIndex(0), RegisterIndex(1), &mut registers, &mut out),
        Err(RegisterError::AlreadyFree(RegisterIndex(1)))
    );
    assert_eq!(
        cgdiv(RegisterIndex(0), RegisterIndex(1), &mut registers, &mut out),
        Err(RegisterError::AlreadyFree(RegisterIndex(1)))
    );
    assert_eq!(
        cglessthan(RegisterIndex(1), RegisterIndex(0), &mut registers, &mut out),
        Err(RegisterError::AlreadyFree(RegisterIndex(1)))
    );
    assert_eq!(out, "kept");
    assert_eq!(registers.allocate_register(), Ok(RegisterIndex(1)));
}

#[test]
fn load_takes_the_lowest_free_register() {
    let mut registers = Registers::new();
    let mut out = String::new();
    assert_eq!(cgload(13, &mut registers, &mut out), Ok(RegisterIndex(0)));
    assert_eq!(cgload(0, &mut registers, &mut out), Ok(RegisterIndex(1)));
    assert_eq!(out, "\tmovq\t$13, %r8\n\tmovq\t$0, %r9\n");
    assert_eq!(registers.free_register(RegisterIndex(0)), Ok(()));
    assert_eq!(cgload(4294967295, &mut registers, &mut out), Ok(RegisterIndex(0)));
    assert_eq!(
        out,
        "\tmovq\t$13, %r8\n\tmovq\t$0, %r9\n\tmovq\t$4294967295, %r8\n"
    );
}

#[test]
fn load_without_a_free_register_fails_and_writes_nothing() {
    let mut registers = pool_with(4);
    let mut out = String::from("kept");
    assert_eq!(cgload(1, &mut registers, &mut out), Err(RegisterError::OutOfRegisters));
    assert_eq!(cgloadglob("x", &mut registers, &mut out), Err(RegisterError::OutOfRegisters));
    assert_eq!(out, "kept");
}

#[test]
fn load_of_a_global() {
    let mut registers = pool_with(1);
    let mut out = String::new();
    assert_eq!(cgloadglob("total", &mut registers, &mut out), Ok(RegisterIndex(1)));
    assert_eq!(out, "\tmovq\ttotal(%rip), %r9\n\n");
}

#[test]
fn store_into_a_global_returns_the_register() {
    let mut out = String::new();
    assert_eq!(cgstorglob("x", RegisterIndex(2), &mut out), RegisterIndex(2));
    assert_eq!(out, "\tmovq\t%r10, x(%rip)\n\n");
}

#[test]
fn storage_directive() {
    let mut out = String::new();
    cgglobsym("x", &mut out);
    cgglobsym("count", &mut out);
    assert_eq!(out, "\t.comm\tx,8,8\n\t.comm\tcount,8,8\n");
}

#[test]
fn print_call() {
    let mut out = String::new();
    cgprintint(RegisterIndex(3), &mut out);
    assert_eq!(out, "\tmovq\t%r11,%rdi\n\tcall\tprintint\n");
}

#[test]
fn comment_line() {
    let mut out = String::from("a\n");
    cgcomment(&mut out, "Starting users code");
    assert_eq!(out, "a\n\t# Starting users code\n");
}

#[test]
fn preamble_text() {
    let expected = [
        "\t# Start of preamble",
        "\t.text",
        ".LC0:",
        "\t.string\t\"%d\\n\"",
        "",
        "printint:",
        "\tpushq\t%rbp",
        "\tmovq\t%rsp, %rbp",
        "\tsubq\t$16, %rsp",
        "\tmovl\t%edi, -4(%rbp)",
        "\tmovl\t-4(%rbp), %eax",
        "\tmovl\t%eax, %esi",
        "\tleaq\t.LC0(%rip), %rdi",
        "\tmovl\t$0, %eax",
        "\tcall\t_printf",
        "\tnop",
        "\tleave",
        "\tret",
        "\t.globl\t_main",
        "_main:",
        "\tpushq\t%rbp",
        "\tmovq\t%rsp, %rbp",
        "\t# End of preamble",
    ];
    let mut out = String::new();
    cgpreamble(&mut out);
    assert_eq!(out, PREAMBLE);
    assert!(out.ends_with('\n'));
    let lines: Vec<&str> = out.lines().collect();
    assert_eq!(lines, expected);
}

#[test]
fn postamble_text() {
    let mut out = String::from("x\n");
    cgpostamble(&mut out);
    assert_eq!(
        out,
        "x\n\tmovl\t$0, %eax             # Start of postamble\n\tpopq\t%rbp\n\tret                         # End of postamble\n"
    );
    assert_eq!(&out[2..], POSTAMBLE);
}
