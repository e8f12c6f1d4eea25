use wasi_tcp::text::{chars_of, find, join, push_decimal, push_signed_decimal, ranges_equal, rfind};
use wasi_tcp::zkasm::{
    assemble_zkasm, build_test_zkasm, compile_invocation, fix_relocs, generate_postamble, generate_preamble,
    optimize_labels, relocate, try_optimize_labels, GlobalInit, Reloc, RelocTarget,
    ZkasmSettings,
};

fn lines(v: &[&str]) -> Vec<String> {
    v.iter().map(|s| s.to_string()).collect()
}

fn decimal(n: u64) -> String {
    let mut s = String::new();
    push_decimal(&mut s, n);
    s
}

fn signed(v: i64) -> String {
    let mut s = String::new();
    push_signed_decimal(&mut s, v);
    s
}

#[test]
fn settings_default() {
    let settings = ZkasmSettings::default();
    assert!(!settings.emit_profiling_info);
}

#[test]
fn postamble_lines() {
    assert_eq!(
        generate_postamble(),
        lines(&[
            "finalizeExecution:",
            "  ${beforeLast()}  :JMPN(finalizeExecution)",
            "                   :JMP(start)",
            "INCLUDE \"helpers/2-exp.zkasm\"",
        ])
    );
}

#[test]
fn empty_test_program() {
    let text = build_test_zkasm(Vec::new(), Vec::new());
    let expected = "start:\n  zkPC + 2 => RR\n    :JMP(main)\n    :JMP(finalizeExecution)\n\
main:\n  SP - 1 => SP\n  RR :MSTORE(SP)\n  SP - 1 => SP\n  :JMP(RR)\n\
finalizeExecution:\n  ${beforeLast()}  :JMPN(finalizeExecution)\n                   :JMP(start)\n\
INCLUDE \"helpers/2-exp.zkasm\"";
    assert_eq!(text, expected);
}

#[test]
fn test_program_with_functions_and_invocations() {
    let functions = vec![lines(&["add:", "  A + B => A", "  :JMP(RR)"]), lines(&["nop:"])];
    let invocations = vec![
        lines(&["  1 => A", "  2 => B", "    :JMP(add)", "  3 => B"]),
        Vec::new(),
        lines(&["    :JMP(nop)"]),
    ];
    let text = build_test_zkasm(functions, invocations);
    let expected = [
        "start:",
        "  zkPC + 2 => RR",
        "    :JMP(main)",
        "    :JMP(finalizeExecution)",
        "main:",
        "  SP - 1 => SP",
        "  RR :MSTORE(SP)",
        "  1 => A",
        "  2 => B",
        "    :JMP(add)",
        "  3 => B",
        "    :JMP(nop)",
        "  SP - 1 => SP",
        "  :JMP(RR)",
        "add:",
        "  A + B => A",
        "  :JMP(RR)",
        "nop:",
        "finalizeExecution:",
        "  ${beforeLast()}  :JMPN(finalizeExecution)",
        "                   :JMP(start)",
        "INCLUDE \"helpers/2-exp.zkasm\"",
    ]
    .join("\n");
    assert_eq!(text, expected);
}

#[test]
fn labels_are_tagged_with_the_function() {
    let code = ["label_1:", "  A :JMPNZ(label_1)", "  B => A"];
    assert_eq!(
        optimize_labels(&code, 3),
        lines(&["label_3_1:", "  A :JMPNZ(label_3_1)", "  B => A"])
    );
}

#[test]
fn jump_to_the_next_line_is_removed() {
    let code = ["  A => B", "  :JMP(label_2)", "label_2:", "  B => A"];
    assert_eq!(optimize_labels(&code, 0), lines(&["  A => B", "  B => A"]));
}

#[test]
fn unused_label_is_removed() {
    let code = ["label_9:", "  B => A"];
    assert_eq!(optimize_labels(&code, 12), lines(&["  B => A"]));
}

#[test]
fn label_with_two_jumps_stays() {
    let code = ["  :JMP(label_4)", "label_4:", "  A :JMPZ(label_4)"];
    assert_eq!(
        optimize_labels(&code, 7),
        lines(&["  :JMP(label_7_4)", "label_7_4:", "  A :JMPZ(label_7_4)"])
    );
}

#[test]
fn single_jump_from_elsewhere_stays() {
    let code = ["  :JMP(label_4)", "  A => B", "label_4:"];
    assert_eq!(
        optimize_labels(&code, 10),
        lines(&["  :JMP(label_10_4)", "  A => B", "label_10_4:"])
    );
}

#[test]
fn only_the_last_definition_counts() {
    let code = ["label_1:", "  x", "label_1:"];
    assert_eq!(optimize_labels(&code, 2), lines(&["label_2_1:", "  x"]));
}

#[test]
fn longer_label_names() {
    let code = ["  $ => A :JMPN(label_loop_3)", "label_loop_3:", "label_exit_0:", "  :JMP(label_loop_3)"];
    assert_eq!(
        optimize_labels(&code, 5),
        lines(&[
            "  $ => A :JMPN(label_loop_5_3)",
            "label_loop_5_3:",
            "  :JMP(label_loop_5_3)",
        ])
    );
}

#[test]
fn code_without_labels_is_unchanged() {
    let code = ["  A => B", "", "  :JMP(RR)"];
    assert_eq!(optimize_labels(&code, 1), lines(&["  A => B", "", "  :JMP(RR)"]));
    let none: [&str; 0] = [];
    assert_eq!(optimize_labels(&none, 1), Vec::<String>::new());
}

#[test]
fn decimal_numerals() {
    assert_eq!(decimal(0), "0");
    assert_eq!(decimal(7), "7");
    assert_eq!(decimal(10), "10");
    assert_eq!(decimal(12345), "12345");
    assert_eq!(decimal(1234567890), "1234567890");
    assert_eq!(decimal(u64::MAX), "18446744073709551615");
    let mut s = String::from("n=");
    push_decimal(&mut s, 42);
    assert_eq!(s, "n=42");
}

#[test]
fn signed_decimal_numerals() {
    assert_eq!(signed(0), "0");
    assert_eq!(signed(-1), "-1");
    assert_eq!(signed(905), "905");
    assert_eq!(signed(i64::MAX), "9223372036854775807");
    assert_eq!(signed(i64::MIN), "-9223372036854775808");
}

#[test]
fn joined_lines() {
    assert_eq!(join(&Vec::new()), "");
    assert_eq!(join(&lines(&["a"])), "a");
    assert_eq!(join(&lines(&["a", "", "b"])), "a\n\nb");
}

#[test]
fn searching() {
    let hay = chars_of("xx label_1 label_2)");
    let needle = chars_of("label_");
    assert_eq!(hay.len(), 19);
    assert_eq!(find(&hay, &needle), Some(3));
    assert_eq!(find(&hay, &chars_of("label_3")), None);
    assert_eq!(find(&hay, &Vec::new()), Some(0));
    assert_eq!(find(&needle, &hay), None);
    assert_eq!(rfind(&hay, '_'), Some(16));
    assert_eq!(rfind(&hay, ')'), Some(18));
    assert_eq!(rfind(&hay, 'q'), None);
    assert!(ranges_equal(&hay, 3, 9, &hay, 11, 17));
    assert!(!ranges_equal(&hay, 3, 10, &hay, 11, 18));
    assert!(!ranges_equal(&hay, 3, 9, &hay, 11, 18));
    assert_eq!(chars_of("héllo"), vec!['h', 'é', 'l', 'l', 'o']);
}

#[test]
fn preamble_with_globals_and_data() {
    let globals = [(0usize, GlobalInit::I32Const(-1)), (1usize, GlobalInit::I64Const(5))];
    let data = [(16u64, vec![1u8, 2, 3, 4, 5, 6, 7, 8, 9])];
    assert_eq!(
        generate_preamble(2, &globals, &data),
        lines(&[
            "VAR GLOBAL global_0",
            "VAR GLOBAL global_1",
            "start:",
            "  4294967295 :MSTORE(global_0)  ;; Global32(-1)",
            "  5 :MSTORE(global_1)  ;; Global64(5)",
            "  2 => E",
            "  578437695752307201n :MSTORE(MEM:E + 0)",
            "  9n :MSTORE(MEM:E + 1)",
            "  0xffff => SP",
            "  zkPC + 2 => RR",
            "  :JMP(function_2)",
            "  :JMP(finalizeExecution)",
        ])
    );
}

#[test]
fn preamble_without_globals_or_data() {
    assert_eq!(
        generate_preamble(0, &[], &[]),
        lines(&[
            "start:",
            "  0xffff => SP",
            "  zkPC + 2 => RR",
            "  :JMP(function_0)",
            "  :JMP(finalizeExecution)",
        ])
    );
}

#[test]
fn preamble_stores_twos_complement() {
    let globals = [
        (7usize, GlobalInit::I32Const(i32::MIN)),
        (8usize, GlobalInit::I64Const(-2)),
        (9usize, GlobalInit::I64Const(i64::MIN)),
        (10usize, GlobalInit::I32Const(12)),
    ];
    let got = generate_preamble(1, &globals, &[]);
    assert_eq!(got[5], "  2147483648 :MSTORE(global_7)  ;; Global32(-2147483648)");
    assert_eq!(got[6], "  18446744073709551614 :MSTORE(global_8)  ;; Global64(-2)");
    assert_eq!(
        got[7],
        "  9223372036854775808 :MSTORE(global_9)  ;; Global64(-9223372036854775808)"
    );
    assert_eq!(got[8], "  12 :MSTORE(global_10)  ;; Global32(12)");
}

#[test]
fn preamble_data_slots() {
    let data = [
        (0u64, Vec::new()),
        (15u64, vec![0xffu8; 8]),
        (800u64, vec![0u8, 1]),
        (8u64, vec![1u8, 0, 0, 0, 0, 0, 0, 0, 0, 0, 0, 0, 0, 0, 0, 0, 0x10]),
    ];
    let got = generate_preamble(3, &[], &data);
    assert_eq!(
        got,
        lines(&[
            "start:",
            "  0 => E",
            "  1 => E",
            "  18446744073709551615n :MSTORE(MEM:E + 0)",
            "  100 => E",
            "  256n :MSTORE(MEM:E + 0)",
            "  1 => E",
            "  1n :MSTORE(MEM:E + 0)",
            "  0n :MSTORE(MEM:E + 1)",
            "  16n :MSTORE(MEM:E + 2)",
            "  0xffff => SP",
            "  zkPC + 2 => RR",
            "  :JMP(function_3)",
            "  :JMP(finalizeExecution)",
        ])
    );
}

#[test]
fn invocation_lines() {
    let got = compile_invocation("add", &lines(&["1", "2"]), "==", &lines(&["3", "9"]));
    assert_eq!(
        got,
        lines(&["  1 => A", "  2 => B", "    :JMP(add)", "  3 => B", "  CALL AWESOME ASSERT (==)"])
    );
}

#[test]
fn invocation_with_five_arguments() {
    let got = compile_invocation("f", &lines(&["1", "2", "3", "4", "5"]), "!=", &lines(&["0"]));
    assert_eq!(
        got,
        lines(&[
            "  1 => A",
            "  2 => B",
            "  3 => C",
            "  4 => D",
            "  5 => E",
            "    :JMP(f)",
            "  0 => B",
            "  CALL AWESOME ASSERT (!=)",
        ])
    );
}

#[test]
fn invocation_without_arguments() {
    let got = compile_invocation("main", &Vec::new(), "==", &lines(&["7"]));
    assert_eq!(got, lines(&["    :JMP(main)", "  7 => B", "  CALL AWESOME ASSERT (==)"]));
}

#[test]
fn relocations_are_written() {
    let mut buffer = b"  A => B\n;; call\n  C => D\n;; assert\n;; what\n".to_vec();
    let relocs = [
        Reloc { offset: 9, target: RelocTarget::UserFunction(4) },
        Reloc { offset: 26, target: RelocTarget::UserFunction(0) },
        Reloc { offset: 36, target: RelocTarget::Other },
    ];
    fix_relocs(&mut buffer, &relocs);
    assert_eq!(
        String::from_utf8(buffer).unwrap(),
        "  A => B\n  zkPC + 2 => RR\n  :JMP(function_4)\n  C => D\n  B :ASSERT\n  UNKNOWN\n"
    );
}

#[test]
fn relocation_at_a_newline_inserts() {
    let mut buffer = b"ab\n\ncd\n".to_vec();
    let relocs = [Reloc { offset: 3, target: RelocTarget::UserFunction(12) }];
    fix_relocs(&mut buffer, &relocs);
    assert_eq!(
        String::from_utf8(buffer).unwrap(),
        "ab\n  zkPC + 2 => RR\n  :JMP(function_12)\ncd\n"
    );
}

#[test]
fn no_relocations_change_nothing() {
    let mut buffer = b"  A => B\n".to_vec();
    fix_relocs(&mut buffer, &[]);
    assert_eq!(buffer, b"  A => B\n".to_vec());
}

#[test]
fn jump_without_closing_bracket_has_no_result() {
    assert_eq!(try_optimize_labels(&["  A :JMP(label_1"], 0), None);
    assert_eq!(try_optimize_labels(&["  ) :JMP label_1"], 0), None);
    assert_eq!(try_optimize_labels(&["label_1:", "x label_1"], 0), None);
    assert_eq!(
        try_optimize_labels(&["label_1:", "  :JMPZ(label_1)"], 4),
        Some(lines(&["label_4_1:", "  :JMPZ(label_4_1)"]))
    );
    assert_eq!(try_optimize_labels(&["  x label_)"], 4), Some(lines(&["  x label_4_)"])));
}

#[test]
fn relocation_out_of_place_has_no_result() {
    let buffer = b"ab\ncd".to_vec();
    let call = RelocTarget::UserFunction(1);
    assert_eq!(relocate(&buffer, &[Reloc { offset: 3, target: call }]), None);
    assert_eq!(relocate(&buffer, &[Reloc { offset: 6, target: call }]), None);
    assert_eq!(relocate(&buffer, &[Reloc { offset: u32::MAX, target: call }]), None);
    assert_eq!(
        relocate(&buffer, &[Reloc { offset: 0, target: RelocTarget::Other }]),
        Some(b"  UNKNOWN\ncd".to_vec())
    );
    assert_eq!(
        relocate(
            &buffer,
            &[Reloc { offset: 0, target: RelocTarget::Other }, Reloc { offset: 3, target: call }]
        ),
        None
    );
    assert_eq!(relocate(&buffer, &[]), Some(buffer.clone()));
}

#[test]
fn later_relocations_move_with_the_text() {
    let buffer = b"x\ny\nz\n".to_vec();
    let relocs = [
        Reloc { offset: 0, target: RelocTarget::UserFunction(0) },
        Reloc { offset: 2, target: RelocTarget::Other },
        Reloc { offset: 5, target: RelocTarget::UserFunction(7) },
    ];
    assert_eq!(
        String::from_utf8(relocate(&buffer, &relocs).unwrap()).unwrap(),
        "  B :ASSERT\n  UNKNOWN\nz  zkPC + 2 => RR\n  :JMP(function_7)\n"
    );
}

#[test]
fn assembled_program() {
    let preamble = generate_preamble(3, &[], &[]);
    let bodies = vec![lines(&["  A => B", "  :JMP(RR)"]), Vec::new(), lines(&["  B :ASSERT"])];
    let expected = [
        "start:",
        "  0xffff => SP",
        "  zkPC + 2 => RR",
        "  :JMP(function_3)",
        "  :JMP(finalizeExecution)",
        "function_9:",
        "  A => B",
        "  :JMP(RR)",
        "function_10:",
        "function_11:",
        "  B :ASSERT",
        "finalizeExecution:",
        "  ${beforeLast()}  :JMPN(finalizeExecution)",
        "                   :JMP(start)",
        "INCLUDE \"helpers/2-exp.zkasm\"",
    ]
    .join("\n");
    assert_eq!(assemble_zkasm(preamble, 9, bodies), expected);
}

#[test]
fn assembled_program_without_functions() {
    let expected = [
        "only line",
        "finalizeExecution:",
        "  ${beforeLast()}  :JMPN(finalizeExecution)",
        "                   :JMP(start)",
        "INCLUDE \"helpers/2-exp.zkasm\"",
    ]
    .join("\n");
    assert_eq!(assemble_zkasm(lines(&["only line"]), 0, Vec::new()), expected);
}
