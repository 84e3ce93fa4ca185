use std::collections::HashMap;

use learn_to_write_a_compiler::assembly::registers::{RegisterError, RegisterIndex, Registers};
use learn_to_write_a_compiler::assembly::{POSTAMBLE, PREAMBLE};
use learn_to_write_a_compiler::ast::{
    AbstractSyntaxTreeConstructNodeType, AbstractSyntaxTreeExpressionNodeType,
    AbstractSyntaxTreeLeafNodeType, AbstractSyntaxTreeNode,
};
use learn_to_write_a_compiler::compiler::{Compiler, Error};
use learn_to_write_a_compiler::scanner::{ScannerError, Token};

fn compile(text: &str) -> Result<String, Error> {
    Compiler::new().compile(text.chars().collect())
}

/// The code of the statements: what stands between the two comments.
fn body(assembly: &str) -> String {
    let opening = format!("{}\t# Starting users code\n", PREAMBLE);
    let closing = format!("\t# Ending users code\n{}", POSTAMBLE);
    assert!(assembly.starts_with(&opening), "no preamble");
    assert!(assembly.ends_with(&closing), "no postamble");
    assembly[opening.len()..assembly.len() - closing.len()].to_string()
}

fn value_of(operand: &str, registers: &HashMap<String, i64>) -> i64 {
    match operand.strip_prefix('$') {
        Some(number) => number.parse().expect("a number"),
        None => *registers.get(operand).expect("a register that holds a value"),
    }
}

/// Runs the code of the statements on a machine with the registers and
/// globals that the emitters use, and returns what the print helper was
/// called with. As in an assembler, a storage directive reserves its global
/// for the whole text, wherever it stands, and the storage starts at zero.
fn run(code: &str) -> Vec<i64> {
    let mut registers: HashMap<String, i64> = HashMap::new();
    let mut globals: HashMap<String, i64> = HashMap::new();
    for line in code.lines() {
        if let Some(rest) = line.trim().strip_prefix(".comm\t") {
            let name = rest.split(',').next().expect("a name");
            globals.insert(name.to_string(), 0);
        }
    }
    let mut flags: (i64, i64) = (0, 0);
    let mut printed = Vec::new();
    for line in code.lines() {
        let line = line.trim();
        if line.is_empty() {
            continue;
        }
        let (mnemonic, rest) = match line.split_once('\t') {
            Some((mnemonic, rest)) => (mnemonic, rest),
            None => (line, ""),
        };
        let operands: Vec<&str> = rest.split(',').map(|operand| operand.trim()).collect();
        match mnemonic {
            ".comm" => {}
            "movq" => {
                let value = match operands[0].strip_suffix("(%rip)") {
                    Some(name) => *globals.get(name).expect("a reserved global"),
                    None => value_of(operands[0], &registers),
                };
                match operands[1].strip_suffix("(%rip)") {
                    Some(name) => {
                        assert!(globals.contains_key(name), "store into {}", name);
                        globals.insert(name.to_string(), value);
                    }
                    None => {
                        registers.insert(operands[1].to_string(), value);
                    }
                }
            }
            "addq" => {
                let sum = value_of(operands[1], &registers) + value_of(operands[0], &registers);
                registers.insert(operands[1].to_string(), sum);
            }
            "subq" => {
                let difference =
                    value_of(operands[1], &registers) - value_of(operands[0], &registers);
                registers.insert(operands[1].to_string(), difference);
            }
            "imulq" => {
                let product =
                    value_of(operands[1], &registers) * value_of(operands[0], &registers);
                registers.insert(operands[1].to_string(), product);
            }
            "cqo" => {}
            "idivq" => {
                let quotient = value_of("%rax", &registers) / value_of(operands[0], &registers);
                registers.insert("%rax".to_string(), quotient);
            }
            "cmpq" => {
                flags = (
                    value_of(operands[1], &registers),
                    value_of(operands[0], &registers),
                );
            }
            "sete" | "setne" | "setl" | "setg" | "setle" | "setge" => {
                let holds = match mnemonic {
                    "sete" => flags.0 == flags.1,
                    "setne" => flags.0 != flags.1,
                    "setl" => flags.0 < flags.1,
                    "setg" => flags.0 > flags.1,
                    "setle" => flags.0 <= flags.1,
                    _ => flags.0 >= flags.1,
                };
                let wide = operands[0].strip_suffix('b').expect("a byte register");
                let upper = value_of(wide, &registers) & !255;
                registers.insert(wide.to_string(), upper | holds as i64);
            }
            "andq" => {
                let masked = value_of(operands[1], &registers) & value_of(operands[0], &registers);
                registers.insert(operands[1].to_string(), masked);
            }
            "call" => {
                assert_eq!(operands[0], "printint");
                printed.push(value_of("%rdi", &registers));
            }
            other => panic!("no such instruction: {}", other),
        }
    }
    printed
}

fn output_of(text: &str) -> Vec<i64> {
    run(&body(&compile(text).expect("assembly")))
}

fn num(value: u32) -> AbstractSyntaxTreeNode {
    AbstractSyntaxTreeNode::new_leaf_node(AbstractSyntaxTreeLeafNodeType::U32(value))
}

fn var(name: &str) -> AbstractSyntaxTreeNode {
    AbstractSyntaxTreeNode::new_leaf_node(AbstractSyntaxTreeLeafNodeType::Identifier(
        name.to_string(),
    ))
}

fn add(left: AbstractSyntaxTreeNode, right: AbstractSyntaxTreeNode) -> AbstractSyntaxTreeNode {
    AbstractSyntaxTreeNode::new_interior(AbstractSyntaxTreeExpressionNodeType::Add, left, right)
}

fn print(child: AbstractSyntaxTreeNode) -> AbstractSyntaxTreeNode {
    AbstractSyntaxTreeNode::new_construct(AbstractSyntaxTreeConstructNodeType::Print, child)
}

/// Generates the code of one tree on a fresh pool, with no global reserved.
fn generate(
    ast: AbstractSyntaxTreeNode,
) -> (Result<Option<RegisterIndex>, Error>, String, Registers, Vec<String>) {
    let mut out = String::new();
    let mut registers = Registers::new();
    let mut globals = Vec::new();
    let res = Compiler::new().interpret_ast_to_asm(&mut out, &mut registers, &mut globals, ast);
    (res, out, registers, globals)
}

#[test]
fn empty_source_compiles_to_the_frame() {
    let expected = format!(
        "{}\t# Starting users code\n\t# Ending users code\n{}",
        PREAMBLE, POSTAMBLE
    );
    assert_eq!(compile(""), Ok(expected.clone()));
    assert_eq!(compile("  \n\t \r\n "), Ok(expected.clone()));
    assert_eq!(compile(";;\n;"), Ok(expected));
}

#[test]
fn print_of_an_expression_emits_its_code_in_order() {
    let assembly = compile("print 2 + 3 * 4;").expect("assembly");
    assert_eq!(
        body(&assembly),
        "\tmovq\t$2, %r8\n\
         \tmovq\t$3, %r9\n\
         \tmovq\t$4, %r10\n\
         \timulq\t%r9, %r10\n\
         \taddq\t%r8, %r10\n\
         \tmovq\t%r10,%rdi\n\
         \tcall\tprintint\n"
    );
}

#[test]
fn print_of_an_expression_outputs_fourteen() {
    assert_eq!(output_of("print 2 + 3 * 4;"), vec![14]);
}

#[test]
fn variable_is_stored_and_read_back() {
    assert_eq!(output_of("int x; x = 10; print x * 2;"), vec![20]);
}

#[test]
fn variable_gets_exactly_one_storage_directive() {
    let assembly = compile("int x; x = 10; print x * 2;").expect("assembly");
    assert_eq!(assembly.matches("\t.comm\tx,8,8\n").count(), 1);
    assert_eq!(assembly.matches(".comm").count(), 1);
    assert_eq!(
        body(&assembly),
        "\t.comm\tx,8,8\n\
         \tmovq\t$10, %r8\n\
         \tmovq\t%r8, x(%rip)\n\n\
         \tmovq\tx(%rip), %r8\n\n\
         \tmovq\t$2, %r9\n\
         \timulq\t%r8, %r9\n\
         \tmovq\t%r9,%rdi\n\
         \tcall\tprintint\n"
    );
}

#[test]
fn storage_is_reserved_at_the_first_assignment_only() {
    let assembly = compile("x = 1; y = 2; x = 3; int y = 4; print x + y;").expect("assembly");
    assert_eq!(assembly.matches("\t.comm\tx,8,8\n").count(), 1);
    assert_eq!(assembly.matches("\t.comm\ty,8,8\n").count(), 1);
    assert_eq!(assembly.matches(".comm").count(), 2);
    assert_eq!(run(&body(&assembly)), vec![7]);
}

#[test]
fn declaration_with_initialiser_reserves_and_stores() {
    let assembly = compile("int total = 6 / 2;").expect("assembly");
    assert_eq!(
        body(&assembly),
        "\t.comm\ttotal,8,8\n\
         \tmovq\t$6, %r8\n\
         \tmovq\t$2, %r9\n\
         \tmovq\t%r8, %rax\n\
         \tcqo\n\
         \tidivq\t%r9\n\
         \tmovq\t%rax, %r8\n\
         \tmovq\t%r8, total(%rip)\n\n"
    );
}

#[test]
fn registers_are_free_again_for_each_statement() {
    let assembly = compile("print 1; print 2; print 3; print 4; print 5;").expect("assembly");
    assert_eq!(assembly.matches("%r8,%rdi").count(), 5);
    assert!(!assembly.contains("%r9"));
    assert_eq!(run(&body(&assembly)), vec![1, 2, 3, 4, 5]);
}

#[test]
fn arithmetic_gives_the_expected_values() {
    assert_eq!(output_of("print 8 - 4 - 2;"), vec![2]);
    assert_eq!(output_of("print 100 / 5 / 2;"), vec![10]);
    assert_eq!(output_of("print 7 - 2 * 3;"), vec![1]);
    assert_eq!(output_of("print 2 * 3 + 4 * 5;"), vec![26]);
    assert_eq!(output_of("print 20 / 4 + 1;"), vec![6]);
}

#[test]
fn comparisons_give_one_or_zero() {
    assert_eq!(output_of("print 1 < 2;"), vec![1]);
    assert_eq!(output_of("print 2 < 1;"), vec![0]);
    assert_eq!(output_of("print 2 <= 2;"), vec![1]);
    assert_eq!(output_of("print 3 <= 2;"), vec![0]);
    assert_eq!(output_of("print 3 > 2;"), vec![1]);
    assert_eq!(output_of("print 2 > 2;"), vec![0]);
    assert_eq!(output_of("print 2 >= 2;"), vec![1]);
    assert_eq!(output_of("print 1 >= 2;"), vec![0]);
    assert_eq!(output_of("print 5 == 5;"), vec![1]);
    assert_eq!(output_of("print 5 == 6;"), vec![0]);
    assert_eq!(output_of("print 5 != 6;"), vec![1]);
    assert_eq!(output_of("print 5 != 5;"), vec![0]);
}

#[test]
fn comparison_binds_tighter_than_arithmetic() {
    // 10 + (2 < 3), and (2 < 3) * 7
    assert_eq!(output_of("print 10 + 2 < 3;"), vec![11]);
    assert_eq!(output_of("print 2 < 3 * 7;"), vec![7]);
}

#[test]
fn deepest_expression_of_the_language_fits_the_pool() {
    let assembly = compile("print 1 + 2 * 3 < 4;").expect("assembly");
    assert!(assembly.contains("\tmovq\t$4, %r11\n"));
    assert_eq!(run(&body(&assembly)), vec![3]);
}

#[test]
fn missing_right_operand_is_rejected() {
    assert_eq!(compile("print 1 + ;"), Err(Error::UnexpectedToken(Token::SemiColon)));
}

#[test]
fn statement_after_valid_ones_is_still_checked() {
    assert_eq!(
        compile("print 1; int x = 2; 3;"),
        Err(Error::UnexpectedToken(Token::U32(3)))
    );
    assert_eq!(compile("print 1; x ="), Err(Error::UnexpectedEnd));
}

#[test]
fn lexical_error_is_reported_with_its_character() {
    assert_eq!(
        compile("print 1 ? 2;"),
        Err(Error::Scanner(ScannerError::UnrecognizedCharacter('?')))
    );
    assert_eq!(
        compile("print 1 !2;"),
        Err(Error::Scanner(ScannerError::UnexpectedAfterBang('2')))
    );
    assert_eq!(compile("print 1 !"), Err(Error::Scanner(ScannerError::UnterminatedBang)));
}

#[test]
fn first_error_in_the_order_of_reading_is_reported() {
    assert_eq!(compile("print + ; @"), Err(Error::UnexpectedToken(Token::Plus)));
    assert_eq!(
        compile("print 1; @ print +"),
        Err(Error::Scanner(ScannerError::UnrecognizedCharacter('@')))
    );
    assert_eq!(
        compile("print 1 @"),
        Err(Error::Scanner(ScannerError::UnrecognizedCharacter('@')))
    );
}

#[test]
fn literal_leaf_is_loaded_into_the_first_register() {
    let (res, out, mut registers, globals) = generate(num(42));
    assert_eq!(res, Ok(Some(RegisterIndex(0))));
    assert_eq!(out, "\tmovq\t$42, %r8\n");
    assert!(globals.is_empty());
    assert_eq!(registers.allocate_register(), Ok(RegisterIndex(1)));
}

#[test]
fn identifier_leaf_is_loaded_from_its_global() {
    let (res, out, _, globals) = generate(var("x"));
    assert_eq!(res, Ok(Some(RegisterIndex(0))));
    assert_eq!(out, "\tmovq\tx(%rip), %r8\n\n");
    assert!(globals.is_empty());
}

#[test]
fn binary_node_leaves_one_register_in_use() {
    let (res, out, mut registers, _) = generate(add(num(1), num(2)));
    assert_eq!(res, Ok(Some(RegisterIndex(1))));
    assert_eq!(out, "\tmovq\t$1, %r8\n\tmovq\t$2, %r9\n\taddq\t%r8, %r9\n");
    assert_eq!(registers.allocate_register(), Ok(RegisterIndex(0)));
    assert_eq!(registers.allocate_register(), Ok(RegisterIndex(2)));
}

#[test]
fn subtraction_keeps_the_left_register() {
    let (res, out, mut registers, _) = generate(AbstractSyntaxTreeNode::new_interior(
        AbstractSyntaxTreeExpressionNodeType::Subtract,
        num(5),
        num(3),
    ));
    assert_eq!(res, Ok(Some(RegisterIndex(0))));
    assert_eq!(out, "\tmovq\t$5, %r8\n\tmovq\t$3, %r9\n\tsubq\t%r9, %r8\n");
    assert_eq!(registers.allocate_register(), Ok(RegisterIndex(1)));
}

#[test]
fn print_node_has_no_value() {
    let (res, out, _, _) = generate(print(num(7)));
    assert_eq!(res, Ok(None));
    assert_eq!(out, "\tmovq\t$7, %r8\n\tmovq\t%r8,%rdi\n\tcall\tprintint\n");
}

#[test]
fn declaration_node_has_no_value() {
    let (res, out, _, globals) = generate(AbstractSyntaxTreeNode::new_construct(
        AbstractSyntaxTreeConstructNodeType::Declaration,
        AbstractSyntaxTreeNode::new_interior(
            AbstractSyntaxTreeExpressionNodeType::Assignment,
            var("x"),
            num(1),
        ),
    ));
    assert_eq!(res, Ok(None));
    assert_eq!(out, "\t.comm\tx,8,8\n\tmovq\t$1, %r8\n\tmovq\t%r8, x(%rip)\n\n");
    assert_eq!(globals, vec!["x".to_string()]);
}

#[test]
fn assignment_has_the_value_of_its_right_side() {
    let (res, out, _, globals) = generate(AbstractSyntaxTreeNode::new_interior(
        AbstractSyntaxTreeExpressionNodeType::Assignment,
        var("y"),
        add(num(1), num(2)),
    ));
    assert_eq!(res, Ok(Some(RegisterIndex(1))));
    assert_eq!(
        out,
        "\t.comm\ty,8,8\n\tmovq\t$1, %r8\n\tmovq\t$2, %r9\n\taddq\t%r8, %r9\n\tmovq\t%r9, y(%rip)\n\n"
    );
    assert_eq!(globals, vec!["y".to_string()]);
}

#[test]
fn assignment_to_a_reserved_global_writes_no_directive() {
    let mut out = String::new();
    let mut registers = Registers::new();
    let mut globals = vec!["a".to_string(), "x".to_string()];
    let res = Compiler::new().interpret_ast_to_asm(
        &mut out,
        &mut registers,
        &mut globals,
        AbstractSyntaxTreeNode::new_interior(
            AbstractSyntaxTreeExpressionNodeType::Assignment,
            var("x"),
            num(3),
        ),
    );
    assert_eq!(res, Ok(Some(RegisterIndex(0))));
    assert_eq!(out, "\tmovq\t$3, %r8\n\tmovq\t%r8, x(%rip)\n\n");
    assert_eq!(globals, vec!["a".to_string(), "x".to_string()]);
}

#[test]
fn assignment_to_anything_but_an_identifier_is_unhandled() {
    let (res, out, _, globals) = generate(AbstractSyntaxTreeNode::new_interior(
        AbstractSyntaxTreeExpressionNodeType::Assignment,
        num(5),
        num(3),
    ));
    assert_eq!(res, Err(Error::UnhandledNode));
    assert_eq!(out, "");
    assert!(globals.is_empty());
}

#[test]
fn semicolon_leaf_is_unhandled() {
    let (res, out, _, _) = generate(AbstractSyntaxTreeNode::new_leaf_node(
        AbstractSyntaxTreeLeafNodeType::SemiColon,
    ));
    assert_eq!(res, Err(Error::UnhandledNode));
    assert_eq!(out, "");
}

#[test]
fn statement_as_an_operand_has_no_value() {
    let (res, _, _, _) = generate(add(print(num(1)), num(2)));
    assert_eq!(res, Err(Error::MissingValue));
    let (res, _, _, _) = generate(add(num(2), print(num(1))));
    assert_eq!(res, Err(Error::MissingValue));
    let (res, _, _, _) = generate(print(print(num(1))));
    assert_eq!(res, Err(Error::MissingValue));
}

#[test]
fn tree_deeper_than_the_pool_runs_out_of_registers() {
    let deep = add(num(1), add(num(2), add(num(3), add(num(4), num(5)))));
    let (res, out, _, _) = generate(deep);
    assert_eq!(res, Err(Error::Register(RegisterError::OutOfRegisters)));
    assert_eq!(
        out,
        "\tmovq\t$1, %r8\n\tmovq\t$2, %r9\n\tmovq\t$3, %r10\n\tmovq\t$4, %r11\n"
    );
}

#[test]
fn left_deep_tree_of_any_length_needs_two_registers() {
    let mut tree = num(0);
    for value in 1..50 {
        tree = add(tree, num(value));
    }
    let (res, out, _, _) = generate(print(tree));
    assert_eq!(res, Ok(None));
    assert!(!out.contains("%r10"));
    assert_eq!(run(&out), vec![(0..50).sum::<i64>()]);
}

#[test]
fn declaration_without_initialiser_reserves_no_storage() {
    let assembly = compile("int x; print x;").expect("assembly");
    assert_eq!(assembly.matches(".comm").count(), 0);
    assert_eq!(
        body(&assembly),
        "\tmovq\tx(%rip), %r8\n\n\tmovq\t%r8,%rdi\n\tcall\tprintint\n"
    );
}

#[test]
fn declaration_without_initialiser_generates_nothing() {
    let (res, out, mut registers, globals) = generate(AbstractSyntaxTreeNode::new_construct(
        AbstractSyntaxTreeConstructNodeType::Declaration,
        var("x"),
    ));
    assert_eq!(res, Ok(None));
    assert_eq!(out, "");
    assert!(globals.is_empty());
    assert_eq!(registers.allocate_register(), Ok(RegisterIndex(0)));
    assert_eq!(body(&compile("int x;").expect("assembly")), "");
    assert_eq!(body(&compile("int a; int b;\nint c;").expect("assembly")), "");
}

#[test]
fn declaration_generates_nothing_on_a_full_pool_either() {
    let mut out = String::from("kept");
    let mut registers = Registers::new();
    for _ in 0..4 {
        assert!(registers.allocate_register().is_ok());
    }
    let mut globals = vec!["y".to_string()];
    let res = Compiler::new().interpret_ast_to_asm(
        &mut out,
        &mut registers,
        &mut globals,
        AbstractSyntaxTreeNode::new_construct(
            AbstractSyntaxTreeConstructNodeType::Declaration,
            var("x"),
        ),
    );
    assert_eq!(res, Ok(None));
    assert_eq!(out, "kept");
    assert_eq!(globals, vec!["y".to_string()]);
    assert_eq!(registers.allocate_register(), Err(RegisterError::OutOfRegisters));
}

#[test]
fn declaration_of_anything_else_generates_what_it_declares() {
    let (res, out, _, _) = generate(AbstractSyntaxTreeNode::new_construct(
        AbstractSyntaxTreeConstructNodeType::Declaration,
        num(3),
    ));
    assert_eq!(res, Ok(None));
    assert_eq!(out, "\tmovq\t$3, %r8\n");
}

#[test]
fn stray_equals_sign_is_rejected() {
    assert_eq!(compile("=print 1"), Err(Error::UnexpectedToken(Token::Assignment)));
    assert_eq!(compile("print 1; = 2;"), Err(Error::UnexpectedToken(Token::Assignment)));
}
