//! Assembling zkASM program text: the fixed frame around compiled
//! functions, and the clean-up of labels inside one function.
//!
//! Labels are found by scanning the lines of the function. A hash map keyed
//! by the label's text would be faster, but a `String` key has no model
//! that a proof could use: nothing can be shown of such a map after an
//! insert. The scans are stated and proved against the model of the lines.

use crate::text::{
    chars_of, concat_groups, decimal, find, first_occurrence, join, join_lines, last_position,
    occurs_at, occurs_in, push_decimal, push_signed_decimal, ranges_equal, rfind, signed_decimal,
};
use vstd::prelude::*;
use vstd::string::{StrSliceExecFns, StringExecFns};

verus! {

/// ISA specific settings for zkASM codegen.
#[derive(Default, Debug)]
pub struct ZkasmSettings {
    /// Instruments generated zkASM to trace executed instructions.
    pub emit_profiling_info: bool,
}

/// The lines that end every program: the prover runs a program for a fixed
/// number of steps, so the program ends in a loop that fills the trace.
pub open spec fn postamble() -> Seq<Seq<char>> {
    seq![
        "finalizeExecution:"@,
        "  ${beforeLast()}  :JMPN(finalizeExecution)"@,
        "                   :JMP(start)"@,
        "INCLUDE \"helpers/2-exp.zkasm\""@,
    ]
}

/// The lines of a test program: the entry code, a `main` that runs the
/// invocations in order, the functions in order, and the postamble.
pub open spec fn test_program(
    functions: Seq<Seq<Seq<char>>>,
    invocations: Seq<Seq<Seq<char>>>,
) -> Seq<Seq<char>> {
    seq![
        "start:\n  zkPC + 2 => RR\n    :JMP(main)\n    :JMP(finalizeExecution)"@,
        "main:"@,
        "  SP - 1 => SP"@,
        "  RR :MSTORE(SP)"@,
    ] + concat_groups(invocations) + seq!["  SP - 1 => SP"@, "  :JMP(RR)"@] + concat_groups(
        functions,
    ) + postamble()
}

/// The line that heads the function with the given index.
pub open spec fn function_header(func_index: nat) -> Seq<char> {
    "function_"@ + decimal(func_index) + ":"@
}

/// The functions one after another, each headed by its index; the first
/// has the index `first`.
pub open spec fn function_lines(first: nat, bodies: Seq<Seq<Seq<char>>>) -> Seq<Seq<char>>
    decreases bodies.len(),
{
    if bodies.len() == 0 {
        Seq::empty()
    } else {
        function_lines(first, bodies.drop_last()) + seq![
            function_header((first + bodies.len() - 1) as nat),
        ] + bodies.last()
    }
}

/// The lines of a program: the preamble, the functions that the module
/// defines, indexed behind the functions that it imports, and the
/// postamble.
pub open spec fn program_lines(
    preamble: Seq<Seq<char>>,
    num_func_imports: nat,
    bodies: Seq<Seq<Seq<char>>>,
) -> Seq<Seq<char>> {
    preamble + function_lines(num_func_imports, bodies) + postamble()
}

/// The text that marks a label.
pub open spec fn label_marker() -> Seq<char> {
    seq!['l', 'a', 'b', 'e', 'l', '_']
}

/// The line defines a label: it begins with the marker.
pub open spec fn is_label_definition(line: Seq<char>) -> bool {
    occurs_at(line, label_marker(), 0)
}

/// The line jumps to a label: it holds the marker, but not at its start.
pub open spec fn is_label_use(line: Seq<char>) -> bool {
    !is_label_definition(line) && occurs_in(line, label_marker())
}

/// The first position of the marker in a line that holds it.
pub open spec fn marker_position(line: Seq<char>) -> int {
    choose|i: int| first_occurrence(line, label_marker(), i)
}

/// The last position of `c` in a line that holds it.
pub open spec fn last_of(line: Seq<char>, c: char) -> int {
    choose|i: int| last_position(line, c, i)
}

/// The label that a line defines (the line without its last character, the
/// colon) or jumps to (from the marker to the last closing bracket).
pub open spec fn label_name(line: Seq<char>) -> Seq<char> {
    if is_label_definition(line) {
        line.drop_last()
    } else {
        line.subrange(marker_position(line), last_of(line, ')'))
    }
}

/// The line with the function's index put in front of its last underscore,
/// which makes `<name>_<label>` into `<name>_<function>_<label>`.
pub open spec fn tagged(line: Seq<char>, func_index: nat) -> Seq<char> {
    let p = last_of(line, '_');
    line.subrange(0, p) + seq!['_'] + decimal(func_index) + line.subrange(p, line.len() as int)
}

/// The line as it stands in the result, if it stays.
pub open spec fn rendered(line: Seq<char>, func_index: nat) -> Seq<char> {
    if is_label_definition(line) || is_label_use(line) {
        tagged(line, func_index)
    } else {
        line
    }
}

/// A line that jumps to a label closes a bracket behind the marker.
pub open spec fn well_formed_line(line: Seq<char>) -> bool {
    is_label_use(line) ==> exists|r: int|
        last_position(line, ')', r) && marker_position(line) <= r
}

pub open spec fn labels_well_formed(code: Seq<Seq<char>>) -> bool {
    forall|i: int| 0 <= i < code.len() ==> well_formed_line(#[trigger] code[i])
}

/// Line `i` defines the label `name`.
pub open spec fn defines(code: Seq<Seq<char>>, i: int, name: Seq<char>) -> bool {
    0 <= i < code.len() && is_label_definition(code[i]) && label_name(code[i]) == name
}

/// Line `j` jumps to the label `name`.
pub open spec fn uses(code: Seq<Seq<char>>, j: int, name: Seq<char>) -> bool {
    0 <= j < code.len() && is_label_use(code[j]) && label_name(code[j]) == name
}

/// Line `i` is the last definition of its label.
pub open spec fn effective_definition(code: Seq<Seq<char>>, i: int) -> bool {
    defines(code, i, label_name(code[i])) && forall|j: int|
        i < j ==> !#[trigger] defines(code, j, label_name(code[i]))
}

/// No line jumps to the label.
pub open spec fn unused(code: Seq<Seq<char>>, name: Seq<char>) -> bool {
    forall|j: int| !#[trigger] uses(code, j, name)
}

/// Line `k` jumps to the label, and no other line does.
pub open spec fn only_use(code: Seq<Seq<char>>, name: Seq<char>, k: int) -> bool {
    uses(code, k, name) && forall|j: int| j != k ==> !#[trigger] uses(code, j, name)
}

/// Line `i` is removed: it is the last definition of a label that nothing
/// jumps to; or the last definition of a label whose only jump stands in
/// the line before; or that jump.
pub open spec fn removed(code: Seq<Seq<char>>, i: int) -> bool {
    ||| effective_definition(code, i) && (unused(code, label_name(code[i])) || only_use(
        code,
        label_name(code[i]),
        i - 1,
    ))
    ||| is_label_use(code[i]) && effective_definition(code, i + 1) && label_name(code[i + 1])
        == label_name(code[i]) && only_use(code, label_name(code[i]), i)
}

/// The first `n` lines as they stand in the result.
pub open spec fn optimized_prefix(code: Seq<Seq<char>>, func_index: nat, n: nat) -> Seq<Seq<char>>
    decreases n,
{
    if n == 0 {
        Seq::empty()
    } else if removed(code, n - 1) {
        optimized_prefix(code, func_index, (n - 1) as nat)
    } else {
        optimized_prefix(code, func_index, (n - 1) as nat).push(rendered(code[n - 1], func_index))
    }
}

/// The lines of a function with its labels tagged by the function's index
/// and the needless labels and jumps removed.
pub open spec fn optimized(code: Seq<Seq<char>>, func_index: nat) -> Seq<Seq<char>> {
    optimized_prefix(code, func_index, code.len())
}

/// The lines of a slice of strings.
pub open spec fn line_views(code: Seq<&str>) -> Seq<Seq<char>> {
    Seq::new(code.len(), |i: int| code[i]@)
}

/// The lines of the postamble.
pub fn generate_postamble() -> (program: Vec<String>)
    ensures
        program.deep_view() == postamble(),
{
    let mut program: Vec<String> = Vec::new();
    program.push(String::from_str("finalizeExecution:"));
    program.push(String::from_str("  ${beforeLast()}  :JMPN(finalizeExecution)"));
    program.push(String::from_str("                   :JMP(start)"));
    program.push(String::from_str("INCLUDE \"helpers/2-exp.zkasm\""));
    assert(program.deep_view() =~= postamble());
    program
}

/// Moves the lines of `group` to the end of `program`.
fn append_lines(program: &mut Vec<String>, group: Vec<String>)
    ensures
        final(program).deep_view() == old(program).deep_view() + group.deep_view(),
{
    let mut group = group;
    let ghost g = group;
    program.append(&mut group);
    assert(program.deep_view() =~= old(program).deep_view() + g.deep_view());
}

/// Moves the lines of every group to the end of `program`, in order.
fn append_groups(program: &mut Vec<String>, groups: Vec<Vec<String>>)
    ensures
        final(program).deep_view() == old(program).deep_view() + concat_groups(
            groups.deep_view(),
        ),
{
    let ghost all = groups.deep_view();
    let ghost n = groups.len();
    let mut i: usize = 0;
    for group in it: groups
        invariant
            i == it.index(),
            it.seq().len() == n,
            all.len() == n,
            forall|k: int| 0 <= k < n ==> (#[trigger] it.seq()[k]).deep_view() == all[k],
            program.deep_view() == old(program).deep_view() + concat_groups(all.take(i as int)),
    {
        proof {
            assert(all.take(i + 1).drop_last() =~= all.take(i as int));
            assert(all.take(i + 1).last() == group.deep_view());
        }
        append_lines(program, group);
        assert(program.deep_view() =~= old(program).deep_view() + concat_groups(all.take(i + 1)));
        i += 1;
    }
    assert(all.take(n as int) =~= all);
}

/// Assembles the text of a program from its preamble and the lines of its
/// functions: each function is headed by `function_<index>:`, where the
/// functions that the module defines are indexed behind the
/// `num_func_imports` functions that it imports; the postamble follows, and
/// the lines are joined by newlines.
pub fn assemble_zkasm(
    preamble: Vec<String>,
    num_func_imports: usize,
    bodies: Vec<Vec<String>>,
) -> (text: String)
    requires
        num_func_imports + bodies.len() <= usize::MAX,
    ensures
        text@ == join_lines(
            program_lines(preamble.deep_view(), num_func_imports as nat, bodies.deep_view()),
        ),
{
    let ghost head = preamble.deep_view();
    let ghost all = bodies.deep_view();
    let ghost n = bodies.len();
    let mut program = preamble;
    let mut i: usize = 0;
    for body in it: bodies
        invariant
            i == it.index(),
            it.seq().len() == n,
            all.len() == n,
            num_func_imports + n <= usize::MAX,
            forall|k: int| 0 <= k < n ==> (#[trigger] it.seq()[k]).deep_view() == all[k],
            program.deep_view() == head + function_lines(
                num_func_imports as nat,
                all.take(i as int),
            ),
    {
        let ghost before = program.deep_view();
        proof {
            assert(all.take(i + 1).drop_last() =~= all.take(i as int));
            assert(all.take(i + 1).last() == body.deep_view());
            reveal_strlit(":");
        }
        let mut header = String::from_str("function_");
        push_decimal(&mut header, (num_func_imports + i) as u64);
        header.append(":");
        assert(header@ =~= function_header((num_func_imports + i) as nat));
        program.push(header);
        assert(program.deep_view() =~= before.push(
            function_header((num_func_imports + i) as nat),
        ));
        append_lines(&mut program, body);
        assert(program.deep_view() =~= head + function_lines(
            num_func_imports as nat,
            all.take(i + 1),
        ));
        i += 1;
    }
    assert(all.take(n as int) =~= all);
    let postamble = generate_postamble();
    append_lines(&mut program, postamble);
    join(&program)
}

/// Builds the zkASM text of a test: the entry code, a `main` that runs the
/// invocations in order, the functions, and the postamble, one line after
/// another.
pub fn build_test_zkasm(functions: Vec<Vec<String>>, invocations: Vec<Vec<String>>) -> (text:
    String)
    ensures
        text@ == join_lines(test_program(functions.deep_view(), invocations.deep_view())),
{
    let mut program: Vec<String> = Vec::new();
    program.push(
        String::from_str("start:\n  zkPC + 2 => RR\n    :JMP(main)\n    :JMP(finalizeExecution)"),
    );
    program.push(String::from_str("main:"));
    program.push(String::from_str("  SP - 1 => SP"));
    program.push(String::from_str("  RR :MSTORE(SP)"));
    let ghost head = program.deep_view();
    assert(head =~= seq![
        "start:\n  zkPC + 2 => RR\n    :JMP(main)\n    :JMP(finalizeExecution)"@,
        "main:"@,
        "  SP - 1 => SP"@,
        "  RR :MSTORE(SP)"@,
    ]);
    append_groups(&mut program, invocations);
    let ghost body = program.deep_view();
    program.push(String::from_str("  SP - 1 => SP"));
    program.push(String::from_str("  :JMP(RR)"));
    assert(program.deep_view() =~= body + seq!["  SP - 1 => SP"@, "  :JMP(RR)"@]);
    append_groups(&mut program, functions);
    let postamble = generate_postamble();
    append_lines(&mut program, postamble);
    join(&program)
}

/// What a line is with respect to labels.
#[derive(Clone, Copy, Debug, PartialEq, Eq, Structural)]
enum LineKind {
    Other,
    Definition,
    Use,
}

/// Where a line holds its label and its last underscore.
#[derive(Clone, Copy, Debug)]
struct LineInfo {
    kind: LineKind,
    start: usize,
    end: usize,
    underscore: usize,
}

spec fn info_ok(line: Seq<char>, info: LineInfo) -> bool {
    match info.kind {
        LineKind::Other => !is_label_definition(line) && !is_label_use(line),
        LineKind::Definition => {
            &&& is_label_definition(line)
            &&& info.start == 0
            &&& info.end == line.len() - 1
            &&& last_position(line, '_', info.underscore as int)
        },
        LineKind::Use => {
            &&& is_label_use(line)
            &&& first_occurrence(line, label_marker(), info.start as int)
            &&& last_position(line, ')', info.end as int)
            &&& info.start <= info.end
            &&& last_position(line, '_', info.underscore as int)
        },
    }
}

spec fn lines_of(all: Seq<Vec<char>>) -> Seq<Seq<char>> {
    Seq::new(all.len(), |i: int| all[i]@)
}

spec fn infos_ok(all: Seq<Vec<char>>, infos: Seq<LineInfo>) -> bool {
    all.len() == infos.len() && forall|i: int|
        0 <= i < all.len() ==> info_ok(#[trigger] all[i]@, infos[i])
}

proof fn lemma_first_unique(hay: Seq<char>, needle: Seq<char>, i: int, j: int)
    requires
        first_occurrence(hay, needle, i),
        first_occurrence(hay, needle, j),
    ensures
        i == j,
{
}

proof fn lemma_last_unique(hay: Seq<char>, c: char, i: int, j: int)
    requires
        last_position(hay, c, i),
        last_position(hay, c, j),
    ensures
        i == j,
{
}

/// What was found of a line is what the model says of it.
proof fn lemma_info(line: Seq<char>, info: LineInfo)
    requires
        info_ok(line, info),
        info.kind != LineKind::Other,
    ensures
        0 <= info.start <= info.end <= line.len(),
        label_name(line) == line.subrange(info.start as int, info.end as int),
        last_of(line, '_') == info.underscore,
        0 <= info.underscore < line.len(),
{
    lemma_last_unique(line, '_', last_of(line, '_'), info.underscore as int);
    if info.kind == LineKind::Use {
        lemma_first_unique(line, label_marker(), marker_position(line), info.start as int);
        lemma_last_unique(line, ')', last_of(line, ')'), info.end as int);
    } else {
        assert(line.subrange(0, 6) == label_marker());
        assert(line.drop_last() =~= line.subrange(0, line.len() - 1));
    }
}

fn marker_chars() -> (m: Vec<char>)
    ensures
        m@ == label_marker(),
{
    let mut m: Vec<char> = Vec::new();
    m.push('l');
    m.push('a');
    m.push('b');
    m.push('e');
    m.push('l');
    m.push('_');
    assert(m@ =~= label_marker());
    m
}

/// Finds the label of a line and its last underscore, if the line is well
/// formed.
fn classify(chars: &Vec<char>) -> (r: Option<LineInfo>)
    ensures
        match r {
            Some(info) => well_formed_line(chars@) && info_ok(chars@, info),
            None => !well_formed_line(chars@),
        },
{
    let marker = marker_chars();
    match find(chars, &marker) {
        None => {
            assert(!is_label_definition(chars@)) by {
                if is_label_definition(chars@) {
                    assert(occurs_at(chars@, label_marker(), 0));
                }
            }
            Some(LineInfo { kind: LineKind::Other, start: 0, end: 0, underscore: 0 })
        },
        Some(start) => {
            assert(chars@.subrange(start as int, start + 6)[5] == '_');
            assert(chars@[start + 5] == '_');
            assert(occurs_in(chars@, label_marker()));
            let underscore = match rfind(chars, '_') {
                Some(u) => u,
                None => 0,
            };
            if start == 0 {
                Some(
                    LineInfo {
                        kind: LineKind::Definition,
                        start: 0,
                        end: chars.len() - 1,
                        underscore,
                    },
                )
            } else {
                assert(!occurs_at(chars@, label_marker(), 0));
                proof {
                    lemma_first_unique(
                        chars@,
                        label_marker(),
                        marker_position(chars@),
                        start as int,
                    );
                }
                match rfind(chars, ')') {
                    Some(end) => {
                        if end < start {
                            assert(!well_formed_line(chars@)) by {
                                if well_formed_line(chars@) {
                                    let r = choose|r: int|
                                        last_position(chars@, ')', r) && marker_position(chars@)
                                            <= r;
                                    lemma_last_unique(chars@, ')', r, end as int);
                                }
                            }
                            None
                        } else {
                            Some(LineInfo { kind: LineKind::Use, start, end, underscore })
                        }
                    },
                    None => {
                        assert(!well_formed_line(chars@)) by {
                            if well_formed_line(chars@) {
                                let r = choose|r: int|
                                    last_position(chars@, ')', r) && marker_position(chars@) <= r;
                                assert(chars@.contains(chars@[r]));
                            }
                        }
                        None
                    },
                }
            }
        },
    }
}

/// Whether two lines that hold labels hold the same one.
fn same_label(all: &Vec<Vec<char>>, infos: &Vec<LineInfo>, i: usize, j: usize) -> (b: bool)
    requires
        infos_ok(all@, infos@),
        i < all.len(),
        j < all.len(),
        infos[i as int].kind != LineKind::Other,
        infos[j as int].kind != LineKind::Other,
    ensures
        b == (label_name(lines_of(all@)[i as int]) == label_name(lines_of(all@)[j as int])),
{
    proof {
        lemma_info(all@[i as int]@, infos@[i as int]);
        lemma_info(all@[j as int]@, infos@[j as int]);
    }
    ranges_equal(
        &all[i],
        infos[i].start,
        infos[i].end,
        &all[j],
        infos[j].start,
        infos[j].end,
    )
}

/// Whether a definition is the last one of its label.
fn is_effective(all: &Vec<Vec<char>>, infos: &Vec<LineInfo>, i: usize) -> (b: bool)
    requires
        infos_ok(all@, infos@),
        i < all.len(),
        infos[i as int].kind == LineKind::Definition,
    ensures
        b == effective_definition(lines_of(all@), i as int),
{
    let ghost code = lines_of(all@);
    let ghost name = label_name(code[i as int]);
    let mut j: usize = i + 1;
    while j < all.len()
        invariant
            infos_ok(all@, infos@),
            i < j <= all.len(),
            infos[i as int].kind == LineKind::Definition,
            code == lines_of(all@),
            name == label_name(code[i as int]),
            forall|k: int| i < k < j ==> !#[trigger] defines(code, k, name),
        decreases all.len() - j,
    {
        if infos[j].kind == LineKind::Definition && same_label(all, infos, i, j) {
            assert(defines(code, j as int, name));
            return false;
        }
        assert(!defines(code, j as int, name)) by {
            assert(info_ok(all@[j as int]@, infos@[j as int]));
        }
        j += 1;
    }
    assert(info_ok(all@[i as int]@, infos@[i as int]));
    assert(defines(code, i as int, name));
    true
}

/// Counts the lines that jump to the label of line `i`, up to two, and
/// finds the first of them.
fn find_uses(all: &Vec<Vec<char>>, infos: &Vec<LineInfo>, i: usize) -> (r: (u8, usize))
    requires
        infos_ok(all@, infos@),
        i < all.len(),
        infos[i as int].kind != LineKind::Other,
    ensures
        r.0 <= 2,
        r.0 == 0 ==> unused(lines_of(all@), label_name(lines_of(all@)[i as int])),
        r.0 == 1 ==> only_use(lines_of(all@), label_name(lines_of(all@)[i as int]), r.1 as int),
        r.0 == 2 ==> exists|a: int, b: int|
            a != b && uses(lines_of(all@), a, label_name(lines_of(all@)[i as int])) && uses(
                lines_of(all@),
                b,
                label_name(lines_of(all@)[i as int]),
            ),
{
    let ghost code = lines_of(all@);
    let ghost name = label_name(code[i as int]);
    let mut count: u8 = 0;
    let mut first: usize = 0;
    let mut j: usize = 0;
    while j < all.len()
        invariant
            infos_ok(all@, infos@),
            i < all.len(),
            infos[i as int].kind != LineKind::Other,
            j <= all.len(),
            code == lines_of(all@),
            name == label_name(code[i as int]),
            count <= 1,
            count == 0 ==> forall|k: int| k < j ==> !#[trigger] uses(code, k, name),
            count == 1 ==> first < j && uses(code, first as int, name) && forall|k: int|
                k < j && k != first ==> !#[trigger] uses(code, k, name),
        decreases all.len() - j,
    {
        assert(info_ok(all@[j as int]@, infos@[j as int]));
        if infos[j].kind == LineKind::Use && same_label(all, infos, i, j) {
            assert(uses(code, j as int, name));
            if count == 1 {
                return (2, first);
            }
            count = 1;
            first = j;
        } else {
            assert(!uses(code, j as int, name));
        }
        j += 1;
    }
    (count, first)
}

/// Whether line `i` is removed.
fn is_removed(all: &Vec<Vec<char>>, infos: &Vec<LineInfo>, i: usize) -> (b: bool)
    requires
        infos_ok(all@, infos@),
        i < all.len(),
    ensures
        b == removed(lines_of(all@), i as int),
{
    let ghost code = lines_of(all@);
    let ghost name = label_name(code[i as int]);
    assert(info_ok(all@[i as int]@, infos@[i as int]));
    match infos[i].kind {
        LineKind::Other => false,
        LineKind::Definition => {
            if !is_effective(all, infos, i) {
                return false;
            }
            let (count, first) = find_uses(all, infos, i);
            if count == 0 {
                true
            } else if count == 1 {
                first + 1 == i
            } else {
                proof {
                    let (a, b) = choose|a: int, b: int|
                        a != b && uses(code, a, name) && uses(code, b, name);
                    assert(!unused(code, name));
                    assert(!only_use(code, name, i - 1)) by {
                        if only_use(code, name, i - 1) {
                            assert(a == i - 1 && b == i - 1);
                        }
                    }
                }
                false
            }
        },
        LineKind::Use => {
            assert(uses(code, i as int, name));
            if i + 1 >= all.len() {
                return false;
            }
            assert(info_ok(all@[i + 1]@, infos@[i + 1]));
            if !(infos[i + 1].kind == LineKind::Definition) {
                return false;
            }
            if !same_label(all, infos, i, i + 1) {
                return false;
            }
            if !is_effective(all, infos, i + 1) {
                return false;
            }
            let (count, first) = find_uses(all, infos, i);
            if count == 1 {
                assert(first == i);
                true
            } else {
                proof {
                    if count == 2 {
                        let (a, b) = choose|a: int, b: int|
                            a != b && uses(code, a, name) && uses(code, b, name);
                        if only_use(code, name, i as int) {
                            assert(a == i && b == i);
                        }
                    }
                }
                false
            }
        },
    }
}

/// The line as it stands in the result.
fn render(line: &str, info: &LineInfo, func_index: usize) -> (s: String)
    requires
        info_ok(line@, *info),
    ensures
        s@ == rendered(line@, func_index as nat),
{
    match info.kind {
        LineKind::Other => String::from_str(line),
        _ => {
            proof {
                lemma_info(line@, *info);
                reveal_strlit("_");
            }
            let len = line.unicode_len();
            let mut out = String::from_str(line.substring_char(0, info.underscore));
            out.append("_");
            push_decimal(&mut out, func_index as u64);
            out.append(line.substring_char(info.underscore, len));
            assert(out@ =~= tagged(line@, func_index as nat));
            out
        },
    }
}

/// Tags the labels of one function with the function's index, so that they
/// are unique in the whole program, and removes the labels that nothing
/// jumps to and the jumps to the line that follows. A label is written
/// `label_<name>_<id>`; a line that begins with `label_` defines one, any
/// other line that holds `label_` jumps to one. Where a line that jumps to
/// a label closes no bracket behind it, there is no result.
pub fn try_optimize_labels(code: &[&str], func_index: usize) -> (r: Option<Vec<String>>)
    ensures
        match r {
            Some(lines) => labels_well_formed(line_views(code@)) && lines.deep_view() == optimized(
                line_views(code@),
                func_index as nat,
            ),
            None => !labels_well_formed(line_views(code@)),
        },
{
    let ghost model = line_views(code@);
    let n = code.len();
    let mut all: Vec<Vec<char>> = Vec::new();
    let mut infos: Vec<LineInfo> = Vec::new();
    let mut i: usize = 0;
    while i < n
        invariant
            n == code@.len(),
            model == line_views(code@),
            i <= n,
            all.len() == i,
            infos.len() == i,
            forall|k: int| 0 <= k < i ==> (#[trigger] all@[k])@ == model[k],
            forall|k: int| 0 <= k < i ==> info_ok(model[k], #[trigger] infos@[k]),
            forall|k: int| 0 <= k < i ==> well_formed_line(#[trigger] model[k]),
        decreases n - i,
    {
        let chars = chars_of(code[i]);
        let info = match classify(&chars) {
            Some(info) => info,
            None => {
                assert(!well_formed_line(model[i as int]));
                return None;
            },
        };
        all.push(chars);
        infos.push(info);
        i += 1;
    }
    assert(lines_of(all@) =~= model);
    assert(infos_ok(all@, infos@));
    let mut lines: Vec<String> = Vec::new();
    let mut i: usize = 0;
    while i < n
        invariant
            n == code@.len(),
            model == line_views(code@),
            lines_of(all@) == model,
            infos_ok(all@, infos@),
            all.len() == n,
            i <= n,
            lines.deep_view() == optimized_prefix(model, func_index as nat, i as nat),
        decreases n - i,
    {
        let ghost before = lines.deep_view();
        if !is_removed(&all, &infos, i) {
            assert(info_ok(all@[i as int]@, infos@[i as int]));
            let line = render(code[i], &infos[i], func_index);
            lines.push(line);
            assert(lines.deep_view() =~= before.push(rendered(model[i as int], func_index as nat)));
        }
        i += 1;
    }
    Some(lines)
}

/// Tags the labels of one function with the function's index and removes
/// the needless labels and jumps, as `try_optimize_labels` does, for code
/// in which every line that jumps to a label closes a bracket behind it.
pub fn optimize_labels(code: &[&str], func_index: usize) -> (lines: Vec<String>)
    requires
        labels_well_formed(line_views(code@)),
    ensures
        lines.deep_view() == optimized(line_views(code@), func_index as nat),
{
    match try_optimize_labels(code, func_index) {
        Some(lines) => lines,
        None => Vec::new(),
    }
}

/// The initial value of a global variable.
#[derive(Clone, Copy, Debug, PartialEq, Eq)]
pub enum GlobalInit {
    I32Const(i32),
    I64Const(i64),
}

/// The number that stands for `v` in 32-bit two's complement.
pub open spec fn unsigned_32(v: i32) -> nat {
    if v < 0 {
        (v + 0x1_0000_0000) as nat
    } else {
        v as nat
    }
}

/// The number that stands for `v` in 64-bit two's complement.
pub open spec fn unsigned_64(v: i64) -> nat {
    if v < 0 {
        (v + 0x1_0000_0000_0000_0000) as nat
    } else {
        v as nat
    }
}

/// The number that the bytes spell, the first byte in the lowest bits.
pub open spec fn little_endian(bytes: Seq<u8>) -> nat
    decreases bytes.len(),
{
    if bytes.len() == 0 {
        0
    } else {
        (bytes[0] + 256 * little_endian(bytes.drop_first())) as nat
    }
}

/// The line that declares the global with index `index`.
pub open spec fn global_declaration(index: nat) -> Seq<char> {
    "VAR GLOBAL global_"@ + decimal(index)
}

/// The line that stores the initial value of the global with index `index`.
/// Constants are stored as two's complement; the comment gives the signed
/// value.
pub open spec fn global_store(index: nat, init: GlobalInit) -> Seq<char> {
    match init {
        GlobalInit::I32Const(v) => "  "@ + decimal(unsigned_32(v)) + " :MSTORE(global_"@ + decimal(
            index,
        ) + ")  ;; Global32("@ + signed_decimal(v as int) + ")"@,
        GlobalInit::I64Const(v) => "  "@ + decimal(unsigned_64(v)) + " :MSTORE(global_"@ + decimal(
            index,
        ) + ")  ;; Global64("@ + signed_decimal(v as int) + ")"@,
    }
}

/// The number of 8-byte slots that `len` bytes take.
pub open spec fn slot_count(len: nat) -> nat {
    (len + 7) / 8
}

/// The bytes of slot `i`.
pub open spec fn slot_bytes(data: Seq<u8>, i: int) -> Seq<u8> {
    data.subrange(8 * i, if 8 * i + 8 <= data.len() {
        8 * i + 8
    } else {
        data.len() as int
    })
}

/// The line that stores slot `i` of a data segment.
pub open spec fn slot_store(data: Seq<u8>, i: int) -> Seq<char> {
    "  "@ + decimal(little_endian(slot_bytes(data, i))) + "n :MSTORE(MEM:E + "@ + decimal(
        i as nat,
    ) + ")"@
}

/// The lines of one data segment: the slot it starts at goes to `E`, then
/// each slot of eight bytes is stored.
pub open spec fn segment_lines(segment: (u64, Seq<u8>)) -> Seq<Seq<char>> {
    seq!["  "@ + decimal((segment.0 / 8) as nat) + " => E"@] + Seq::new(
        slot_count(segment.1.len()),
        |i: int| slot_store(segment.1, i),
    )
}

/// The lines that start a program: the globals are declared; at `start`
/// they and the data segments are stored; the stack is set up and the main
/// function is called.
pub open spec fn preamble(
    main_func_index: nat,
    globals: Seq<(usize, GlobalInit)>,
    data_segments: Seq<(u64, Seq<u8>)>,
) -> Seq<Seq<char>> {
    Seq::new(globals.len(), |i: int| global_declaration(globals[i].0 as nat)) + seq!["start:"@]
        + Seq::new(globals.len(), |i: int| global_store(globals[i].0 as nat, globals[i].1))
        + concat_groups(Seq::new(data_segments.len(), |i: int| segment_lines(data_segments[i])))
        + seq![
        "  0xffff => SP"@,
        "  zkPC + 2 => RR"@,
        "  :JMP(function_"@ + decimal(main_func_index) + ")"@,
        "  :JMP(finalizeExecution)"@,
    ]
}

/// The data segments as the model sees them.
pub open spec fn segment_views(data_segments: Seq<(u64, Vec<u8>)>) -> Seq<(u64, Seq<u8>)> {
    Seq::new(data_segments.len(), |i: int| (data_segments[i].0, data_segments[i].1@))
}

/// The registers that carry the arguments of an invocation, in order.
pub open spec fn argument_register(i: int) -> Seq<char> {
    if i == 0 {
        "A"@
    } else if i == 1 {
        "B"@
    } else if i == 2 {
        "C"@
    } else if i == 3 {
        "D"@
    } else {
        "E"@
    }
}

/// The lines of one invocation: each argument goes to its register, the
/// function is called, and its result in `A` is compared with the first
/// expected value, which goes to `B`.
pub open spec fn invocation(
    func: Seq<char>,
    args: Seq<Seq<char>>,
    compare: Seq<char>,
    expected: Seq<Seq<char>>,
) -> Seq<Seq<char>> {
    Seq::new(args.len(), |i: int| "  "@ + args[i] + " => "@ + argument_register(i)) + seq![
        "    :JMP("@ + func + ")"@,
        "  "@ + expected[0] + " => B"@,
        "  CALL AWESOME ASSERT ("@ + compare + ")"@,
    ]
}

fn unsigned_of_i32(v: i32) -> (u: u64)
    ensures
        u == unsigned_32(v),
{
    if v < 0 {
        (v as i64 + 0x1_0000_0000) as u64
    } else {
        v as u64
    }
}

fn unsigned_of_i64(v: i64) -> (u: u64)
    ensures
        u == unsigned_64(v),
{
    if v < 0 {
        (v as i128 + 0x1_0000_0000_0000_0000) as u64
    } else {
        v as u64
    }
}

proof fn lemma_little_endian_bound(bytes: Seq<u8>)
    requires
        bytes.len() <= 8,
    ensures
        bytes.len() == 0 ==> little_endian(bytes) == 0,
        bytes.len() == 1 ==> little_endian(bytes) < 0x100,
        bytes.len() == 2 ==> little_endian(bytes) < 0x1_0000,
        bytes.len() == 3 ==> little_endian(bytes) < 0x100_0000,
        bytes.len() == 4 ==> little_endian(bytes) < 0x1_0000_0000,
        bytes.len() == 5 ==> little_endian(bytes) < 0x100_0000_0000,
        bytes.len() == 6 ==> little_endian(bytes) < 0x1_0000_0000_0000,
        bytes.len() == 7 ==> little_endian(bytes) < 0x100_0000_0000_0000,
        bytes.len() == 8 ==> little_endian(bytes) < 0x1_0000_0000_0000_0000,
    decreases bytes.len(),
{
    if bytes.len() > 0 {
        lemma_little_endian_bound(bytes.drop_first());
    }
}

/// The number that the bytes of `data` from `from` to `to` spell.
fn slot_value(data: &Vec<u8>, from: usize, to: usize) -> (value: u64)
    requires
        from <= to <= data.len(),
        to - from <= 8,
    ensures
        value == little_endian(data@.subrange(from as int, to as int)),
{
    let mut value: u64 = 0;
    let mut k: usize = to;
    while k > from
        invariant
            from <= k <= to <= data.len(),
            to - from <= 8,
            value == little_endian(data@.subrange(k as int, to as int)),
        decreases k,
    {
        k -= 1;
        proof {
            let tail = data@.subrange(k + 1, to as int);
            let whole = data@.subrange(k as int, to as int);
            assert(whole.drop_first() =~= tail);
            assert(whole[0] == data@[k as int]);
            lemma_little_endian_bound(tail);
            lemma_little_endian_bound(whole);
        }
        value = value * 256 + data[k] as u64;
    }
    value
}

/// Generates the lines that start a program.
pub fn generate_preamble(
    main_func_index: usize,
    globals: &[(usize, GlobalInit)],
    data_segments: &[(u64, Vec<u8>)],
) -> (program: Vec<String>)
    ensures
        program.deep_view() == preamble(
            main_func_index as nat,
            globals@,
            segment_views(data_segments@),
        ),
{
    let ghost segments = segment_views(data_segments@);
    let ghost declarations = Seq::new(
        globals@.len(),
        |i: int| global_declaration(globals@[i].0 as nat),
    );
    let ghost stores = Seq::new(
        globals@.len(),
        |i: int| global_store(globals@[i].0 as nat, globals@[i].1),
    );
    let ghost groups = Seq::new(segments.len(), |i: int| segment_lines(segments[i]));
    let mut program: Vec<String> = Vec::new();
    let mut i: usize = 0;
    while i < globals.len()
        invariant
            i <= globals.len(),
            declarations == Seq::new(
                globals@.len(),
                |i: int| global_declaration(globals@[i].0 as nat),
            ),
            program.deep_view() == declarations.take(i as int),
        decreases globals.len() - i,
    {
        let ghost before = program.deep_view();
        let mut line = String::from_str("VAR GLOBAL global_");
        push_decimal(&mut line, globals[i].0 as u64);
        assert(line@ =~= declarations[i as int]);
        program.push(line);
        assert(program.deep_view() =~= before.push(declarations[i as int]));
        assert(before.push(declarations[i as int]) =~= declarations.take(i + 1));
        i += 1;
    }
    assert(declarations.take(globals@.len() as int) =~= declarations);
    program.push(String::from_str("start:"));
    assert(program.deep_view() =~= declarations + seq!["start:"@]);
    let mut i: usize = 0;
    while i < globals.len()
        invariant
            i <= globals.len(),
            stores == Seq::new(
                globals@.len(),
                |i: int| global_store(globals@[i].0 as nat, globals@[i].1),
            ),
            program.deep_view() == declarations + seq!["start:"@] + stores.take(i as int),
        decreases globals.len() - i,
    {
        let ghost before = program.deep_view();
        let index = globals[i].0;
        let mut line = String::from_str("  ");
        match globals[i].1 {
            GlobalInit::I32Const(v) => {
                push_decimal(&mut line, unsigned_of_i32(v));
                line.append(" :MSTORE(global_");
                push_decimal(&mut line, index as u64);
                line.append(")  ;; Global32(");
                push_signed_decimal(&mut line, v as i64);
            },
            GlobalInit::I64Const(v) => {
                push_decimal(&mut line, unsigned_of_i64(v));
                line.append(" :MSTORE(global_");
                push_decimal(&mut line, index as u64);
                line.append(")  ;; Global64(");
                push_signed_decimal(&mut line, v);
            },
        }
        line.append(")");
        assert(line@ =~= stores[i as int]);
        program.push(line);
        assert(program.deep_view() =~= before.push(stores[i as int]));
        assert(before.push(stores[i as int]) =~= declarations + seq!["start:"@] + stores.take(
            i + 1,
        ));
        i += 1;
    }
    assert(stores.take(globals@.len() as int) =~= stores);
    let ghost head = declarations + seq!["start:"@] + stores;
    let mut i: usize = 0;
    while i < data_segments.len()
        invariant
            i <= data_segments.len(),
            segments == segment_views(data_segments@),
            groups == Seq::new(segments.len(), |i: int| segment_lines(segments[i])),
            program.deep_view() == head + concat_groups(groups.take(i as int)),
        decreases data_segments.len() - i,
    {
        let offset = data_segments[i].0;
        let data = &data_segments[i].1;
        let ghost segment = segments[i as int];
        let ghost before = program.deep_view();
        let ghost slots = Seq::new(
            slot_count(segment.1.len()),
            |j: int| slot_store(segment.1, j),
        );
        assert(segment.1 == data@ && segment.0 == offset);
        let mut line = String::from_str("  ");
        push_decimal(&mut line, offset / 8);
        line.append(" => E");
        program.push(line);
        let ghost first = "  "@ + decimal((offset / 8) as nat) + " => E"@;
        assert(program.deep_view() =~= before + seq![first]);
        let slot_total: usize = if data.len() % 8 == 0 {
            data.len() / 8
        } else {
            data.len() / 8 + 1
        };
        let mut j: usize = 0;
        while j < slot_total
            invariant
                j <= slot_total,
                slot_total == slot_count(data@.len()),
                slots == Seq::new(slot_count(data@.len()), |j: int| slot_store(data@, j)),
                program.deep_view() == before + seq![first] + slots.take(j as int),
            decreases slot_total - j,
        {
            let from = 8 * j;
            let to = if data.len() - from >= 8 {
                from + 8
            } else {
                data.len()
            };
            assert(data@.subrange(from as int, to as int) == slot_bytes(data@, j as int));
            let ghost so_far = program.deep_view();
            let mut line = String::from_str("  ");
            push_decimal(&mut line, slot_value(data, from, to));
            line.append("n :MSTORE(MEM:E + ");
            push_decimal(&mut line, j as u64);
            line.append(")");
            assert(line@ =~= slots[j as int]);
            program.push(line);
            assert(program.deep_view() =~= so_far.push(slots[j as int]));
            assert(so_far.push(slots[j as int]) =~= before + seq![first] + slots.take(j + 1));
            j += 1;
        }
        proof {
            assert(slots.take(slots.len() as int) =~= slots);
            assert(groups.take(i + 1).drop_last() =~= groups.take(i as int));
            assert(groups.take(i + 1).last() =~= seq![first] + slots);
            assert(program.deep_view() =~= head + concat_groups(groups.take(i + 1)));
        }
        i += 1;
    }
    assert(groups.take(segments.len() as int) =~= groups);
    let ghost body = program.deep_view();
    program.push(String::from_str("  0xffff => SP"));
    program.push(String::from_str("  zkPC + 2 => RR"));
    let mut line = String::from_str("  :JMP(function_");
    push_decimal(&mut line, main_func_index as u64);
    line.append(")");
    program.push(line);
    program.push(String::from_str("  :JMP(finalizeExecution)"));
    assert(program.deep_view() =~= body + seq![
        "  0xffff => SP"@,
        "  zkPC + 2 => RR"@,
        "  :JMP(function_"@ + decimal(main_func_index as nat) + ")"@,
        "  :JMP(finalizeExecution)"@,
    ]);
    program
}

fn register(i: usize) -> (r: &'static str)
    requires
        i < 5,
    ensures
        r@ == argument_register(i as int),
{
    if i == 0 {
        "A"
    } else if i == 1 {
        "B"
    } else if i == 2 {
        "C"
    } else if i == 3 {
        "D"
    } else {
        "E"
    }
}

/// Compiles one invocation of a function in a test. The arguments and the
/// expected values come as they are printed. A function takes its
/// arguments in the first registers, at most five of them, and leaves its
/// result in `A`.
pub fn compile_invocation(
    func: &str,
    args: &Vec<String>,
    compare: &str,
    expected: &Vec<String>,
) -> (res: Vec<String>)
    requires
        args.len() <= 5,
        expected.len() >= 1,
    ensures
        res.deep_view() == invocation(func@, args.deep_view(), compare@, expected.deep_view()),
{
    let ghost moves = Seq::new(
        args.deep_view().len(),
        |i: int| "  "@ + args.deep_view()[i] + " => "@ + argument_register(i),
    );
    let mut res: Vec<String> = Vec::new();
    let mut idx: usize = 0;
    while idx < args.len()
        invariant
            idx <= args.len() <= 5,
            moves == Seq::new(
                args.deep_view().len(),
                |i: int| "  "@ + args.deep_view()[i] + " => "@ + argument_register(i),
            ),
            res.deep_view() == moves.take(idx as int),
        decreases args.len() - idx,
    {
        let ghost before = res.deep_view();
        let mut line = String::from_str("  ");
        line.append(args[idx].as_str());
        line.append(" => ");
        line.append(register(idx));
        assert(line@ =~= moves[idx as int]);
        res.push(line);
        assert(res.deep_view() =~= before.push(moves[idx as int]));
        assert(before.push(moves[idx as int]) =~= moves.take(idx + 1));
        idx += 1;
    }
    assert(moves.take(args.len() as int) =~= moves);
    let mut call = String::from_str("    :JMP(");
    call.append(func);
    call.append(")");
    res.push(call);
    let mut result = String::from_str("  ");
    result.append(expected[0].as_str());
    result.append(" => B");
    res.push(result);
    let mut check = String::from_str("  CALL AWESOME ASSERT (");
    check.append(compare);
    check.append(")");
    res.push(check);
    assert(res.deep_view() =~= invocation(func@, args.deep_view(), compare@, expected.deep_view()));
    res
}

/// What a relocation points at.
#[derive(Clone, Copy, Debug, PartialEq, Eq)]
pub enum RelocTarget {
    /// A function named by the user, by its index.
    UserFunction(u32),
    /// Anything else.
    Other,
}

/// A place in the text of a compiled function where a reference is to be
/// written.
#[derive(Clone, Copy, Debug, PartialEq, Eq)]
pub struct Reloc {
    /// The place, as an offset into the text before any relocation.
    pub offset: u32,
    pub target: RelocTarget,
}

/// The bytes of a text of ASCII characters.
pub open spec fn ascii(text: Seq<char>) -> Seq<u8> {
    Seq::new(text.len(), |i: int| text[i] as u8)
}

/// The text that is written for a target: function 0 is the assertion; any
/// other function is called.
pub open spec fn reloc_text(target: RelocTarget) -> Seq<char> {
    match target {
        RelocTarget::UserFunction(index) => if index == 0 {
            "  B :ASSERT"@
        } else {
            "  zkPC + 2 => RR\n  :JMP(function_"@ + decimal(index as nat) + ")"@
        },
        RelocTarget::Other => "  UNKNOWN"@,
    }
}

/// `end` is the place of the first newline at or behind `start`.
pub open spec fn line_ends_at(buffer: Seq<u8>, start: int, end: int) -> bool {
    0 <= start <= end < buffer.len() && buffer[end] == 10 && forall|j: int|
        start <= j < end ==> buffer[j] != 10
}

/// The place of the first newline at or behind `start`.
pub open spec fn line_end(buffer: Seq<u8>, start: int) -> int {
    choose|end: int| line_ends_at(buffer, start, end)
}

/// Where the relocation `reloc` starts in a buffer that the relocations
/// before it have brought from `initial_len` bytes to its present length.
pub open spec fn reloc_start(buffer: Seq<u8>, initial_len: int, reloc: Reloc) -> int {
    reloc.offset + (buffer.len() - initial_len)
}

/// The buffer with the rest of the line at the relocation's place replaced
/// by the relocation's text.
pub open spec fn apply_reloc(buffer: Seq<u8>, initial_len: int, reloc: Reloc) -> Seq<u8> {
    let start = reloc_start(buffer, initial_len, reloc);
    buffer.subrange(0, start) + ascii(reloc_text(reloc.target)) + buffer.subrange(
        line_end(buffer, start),
        buffer.len() as int,
    )
}

/// Every relocation, taken in order, finds its place in the buffer and a
/// newline at or behind it.
pub open spec fn relocs_fit(buffer: Seq<u8>, initial_len: int, relocs: Seq<Reloc>) -> bool
    decreases relocs.len(),
{
    relocs.len() == 0 || {
        let start = reloc_start(buffer, initial_len, relocs[0]);
        &&& exists|end: int| line_ends_at(buffer, start, end)
        &&& relocs_fit(apply_reloc(buffer, initial_len, relocs[0]), initial_len, relocs.drop_first())
    }
}

/// The buffer after the relocations, taken in order.
pub open spec fn relocated(buffer: Seq<u8>, initial_len: int, relocs: Seq<Reloc>) -> Seq<u8>
    decreases relocs.len(),
{
    if relocs.len() == 0 {
        buffer
    } else {
        relocated(apply_reloc(buffer, initial_len, relocs[0]), initial_len, relocs.drop_first())
    }
}

fn ascii_bytes(text: &str) -> (bytes: Vec<u8>)
    ensures
        bytes@ == ascii(text@),
{
    let mut bytes: Vec<u8> = Vec::new();
    for c in it: text.chars()
        invariant
            it.seq() == text@,
            bytes@ == ascii(text@.take(it.index() as int)),
    {
        bytes.push(c as u8);
        assert(bytes@ =~= ascii(text@.take(it.index() + 1)));
    }
    assert(text@.take(text@.len() as int) =~= text@);
    bytes
}

fn reloc_bytes(target: RelocTarget) -> (bytes: Vec<u8>)
    ensures
        bytes@ == ascii(reloc_text(target)),
{
    match target {
        RelocTarget::UserFunction(index) => {
            if index == 0 {
                ascii_bytes("  B :ASSERT")
            } else {
                let mut text = String::from_str("  zkPC + 2 => RR\n  :JMP(function_");
                push_decimal(&mut text, index as u64);
                text.append(")");
                ascii_bytes(text.as_str())
            }
        },
        RelocTarget::Other => ascii_bytes("  UNKNOWN"),
    }
}

/// Applies the relocations in order as long as each finds its place, and
/// says whether all did.
fn apply_relocs(code_buffer: &mut Vec<u8>, relocs: &[Reloc]) -> (ok: bool)
    ensures
        ok == relocs_fit(old(code_buffer)@, old(code_buffer)@.len() as int, relocs@),
        ok ==> final(code_buffer)@ == relocated(
            old(code_buffer)@,
            old(code_buffer)@.len() as int,
            relocs@,
        ),
{
    let initial_len = code_buffer.len();
    let mut i: usize = 0;
    assert(relocs@.skip(0) =~= relocs@);
    while i < relocs.len()
        invariant
            i <= relocs.len(),
            initial_len == old(code_buffer)@.len(),
            relocs_fit(code_buffer@, initial_len as int, relocs@.skip(i as int)) == relocs_fit(
                old(code_buffer)@,
                initial_len as int,
                relocs@,
            ),
            relocated(code_buffer@, initial_len as int, relocs@.skip(i as int)) == relocated(
                old(code_buffer)@,
                initial_len as int,
                relocs@,
            ),
        decreases relocs.len() - i,
    {
        let reloc = relocs[i];
        let ghost rest = relocs@.skip(i as int);
        let ghost before = code_buffer@;
        proof {
            assert(rest[0] == reloc);
            assert(rest.drop_first() =~= relocs@.skip(i + 1));
        }
        let len = code_buffer.len();
        if len < initial_len && (reloc.offset as usize) < initial_len - len {
            return false;
        }
        if len >= initial_len && len - initial_len > usize::MAX - reloc.offset as usize {
            return false;
        }
        let start: usize = if len >= initial_len {
            reloc.offset as usize + (len - initial_len)
        } else {
            reloc.offset as usize - (initial_len - len)
        };
        assert(start == reloc_start(before, initial_len as int, reloc));
        let mut pos: usize = start;
        while pos < len && code_buffer[pos] != 10
            invariant
                code_buffer@ == before,
                len == before.len(),
                start <= pos,
                forall|j: int| start <= j < pos && j < len ==> before[j] != 10,
            decreases len - pos,
        {
            pos += 1;
        }
        if pos >= len {
            assert(!exists|end: int| line_ends_at(before, start as int, end)) by {
                if exists|end: int| line_ends_at(before, start as int, end) {
                    let end = choose|end: int| line_ends_at(before, start as int, end);
                    assert(before[end] == 10);
                }
            }
            return false;
        }
        proof {
            assert(line_ends_at(before, start as int, pos as int));
            let end = line_end(before, start as int);
            if end < pos {
                assert(before[end] != 10);
            }
            if pos < end {
                assert(before[pos as int] == 10);
            }
            assert(end == pos);
        }
        let mut code = reloc_bytes(reloc.target);
        let mut tail = code_buffer.split_off(pos);
        code_buffer.truncate(start);
        code_buffer.append(&mut code);
        code_buffer.append(&mut tail);
        assert(code_buffer@ =~= apply_reloc(before, initial_len as int, reloc));
        i += 1;
    }
    assert(relocs@.skip(relocs@.len() as int) =~= Seq::<Reloc>::empty());
    true
}

/// Writes the references into the text of a compiled function: at each
/// relocation's place, the rest of the line gives way to the text for the
/// relocation's target. The places are offsets into the text as it was
/// compiled, so each is moved by what the relocations before it have added
/// or taken away.
pub fn fix_relocs(code_buffer: &mut Vec<u8>, relocs: &[Reloc])
    requires
        relocs_fit(old(code_buffer)@, old(code_buffer)@.len() as int, relocs@),
    ensures
        final(code_buffer)@ == relocated(
            old(code_buffer)@,
            old(code_buffer)@.len() as int,
            relocs@,
        ),
{
    apply_relocs(code_buffer, relocs);
}

/// The text with the references written into it, as `fix_relocs` writes
/// them. Where a relocation does not find its place in the text, or no
/// newline at or behind it, there is no result.
pub fn relocate(code_buffer: &Vec<u8>, relocs: &[Reloc]) -> (r: Option<Vec<u8>>)
    ensures
        match r {
            Some(text) => relocs_fit(code_buffer@, code_buffer@.len() as int, relocs@) && text@
                == relocated(code_buffer@, code_buffer@.len() as int, relocs@),
            None => !relocs_fit(code_buffer@, code_buffer@.len() as int, relocs@),
        },
{
    let mut text = code_buffer.clone();
    assert(text@ =~= code_buffer@);
    if apply_relocs(&mut text, relocs) {
        Some(text)
    } else {
        None
    }
}

} // verus!
