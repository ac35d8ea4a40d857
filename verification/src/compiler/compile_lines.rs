//! Compiling the statements of a function body, block by block.

use vstd::prelude::*;
use vstd::string::StringExecFns;
use crate::assembler::{indented_line, Assembly, AssemblyBuilder};
use crate::ast::evaluable::{EvaluableToken, LineTokens};
use crate::builtin::types::boolean::{bool_type_id, BoolType};
use crate::builtin::types::integer::{int_type_id, IntType};
use crate::common::{address_text, value_ref, AddressedTypeRef, FunctionID, LocalAddress, TypeRef};
use crate::compiler::evaluation::evaluate::{
    compile_evaluable_into, compile_evaluable_reference, compile_evaluable_type_only, depth, error_is, into_outcome, lemma_into_grows, lemma_ref_grows,
    place_ok, ready, ref_outcome, slot, type_of, EvalError,
};
use crate::compiler::global_table::GlobalTable;
use crate::compiler::global_tracker::{unique_tag, GlobalTracker};
use crate::compiler::local_variable_table::LocalVariableTable;
use crate::errors::{CompErrs, ErrorKind, Location, WErr};

verus! {

/// What compiling statements gives: the code, whether the last statement compiled
/// returns, the scopes and innermost stack size after them, the largest stack size
/// reached, the tag counter after them, the information messages they add, and the error
/// where they fail.
pub struct LinesOutcome {
    pub code: Seq<char>,
    pub last_return: bool,
    pub scopes: Seq<Map<Seq<char>, AddressedTypeRef>>,
    pub size: nat,
    pub peak: nat,
    pub counter: nat,
    pub infos: Seq<(Seq<char>, Location)>,
    pub error: Option<(Location, EvalError)>,
}

/// Information messages as texts with their locations.
pub open spec fn info_views(infos: Seq<(String, Location)>) -> Seq<(Seq<char>, Location)> {
    infos.map_values(|m: (String, Location)| (m.0@, m.1))
}

/// The lines `leave` and `ret`.
pub open spec fn return_text() -> Seq<char> {
    indented_line("leave"@) + indented_line("ret"@)
}

/// The larger of two numbers.
pub open spec fn larger(a: nat, b: nat) -> nat {
    if a >= b {
        a
    } else {
        b
    }
}

/// A failure after reaching stack size `peak`.
pub open spec fn stopped(peak: nat, counter: nat, scopes: Seq<Map<Seq<char>, AddressedTypeRef>>, size: nat, infos: Seq<(Seq<char>, Location)>, x: (Location, EvalError)) -> LinesOutcome {
    LinesOutcome { code: Seq::empty(), last_return: false, scopes, size, peak, counter, infos, error: Some(x) }
}

/// Compiling the statements `lines` from index `i` on, in the scopes `scopes` with the
/// innermost stack at `size` bytes and the tag counter at `counter`, inside function
/// `fid` returning into `ret`, where `break` jumps to `brk`.
pub open spec fn lines_from(
    table: GlobalTable,
    fid: FunctionID,
    ret: Option<AddressedTypeRef>,
    brk: Option<Seq<char>>,
    scopes: Seq<Map<Seq<char>, AddressedTypeRef>>,
    size: nat,
    counter: nat,
    lines: Seq<LineTokens>,
    i: nat,
) -> LinesOutcome
    decreases lines, lines.len() - i, elif_count(lines, i) + 4,
{
    if i >= lines.len() {
        LinesOutcome { code: Seq::empty(), last_return: false, scopes, size, peak: size, counter, infos: Seq::empty(), error: None }
    } else {
        let line = line_outcome(table, fid, ret, brk, scopes, size, counter, lines, i);
        if line.error is Some {
            line
        } else if i + 1 == lines.len() {
            line
        } else {
            let rest = lines_from(table, fid, ret, brk, line.scopes, line.size, line.counter, lines, i + 1);
            if rest.error is Some {
                stopped(larger(line.peak, rest.peak), rest.counter, rest.scopes, rest.size, line.infos + rest.infos, rest.error.unwrap())
            } else {
                LinesOutcome {
                    code: line.code + rest.code,
                    last_return: rest.last_return,
                    scopes: rest.scopes,
                    size: rest.size,
                    peak: larger(line.peak, rest.peak),
                    counter: rest.counter,
                    infos: line.infos + rest.infos,
                    error: None,
                }
            }
        }
    }
}

/// Compiling the body of `lines[i]` as a block: in a new scope that starts at the current
/// stack size and is dropped afterwards, so the scopes and stack size after it are those
/// before it.
pub open spec fn block_outcome(
    table: GlobalTable,
    fid: FunctionID,
    ret: Option<AddressedTypeRef>,
    brk: Option<Seq<char>>,
    scopes: Seq<Map<Seq<char>, AddressedTypeRef>>,
    size: nat,
    counter: nat,
    lines: Seq<LineTokens>,
    i: nat,
) -> LinesOutcome
    decreases lines, lines.len() - i, 0nat,
{
    if i < lines.len() {
        match lines[i as int] {
            LineTokens::While { body, .. } => {
                let inner = lines_from(table, fid, ret, brk, scopes.push(Map::empty()), size, counter, body@, 0);
                LinesOutcome { scopes, size, ..inner }
            },
            LineTokens::If { body, .. } => {
                let inner = lines_from(table, fid, ret, brk, scopes.push(Map::empty()), size, counter, body@, 0);
                LinesOutcome { scopes, size, ..inner }
            },
            _ => LinesOutcome { code: Seq::empty(), last_return: false, scopes, size, peak: size, counter, infos: Seq::empty(), error: None },
        }
    } else {
        LinesOutcome { code: Seq::empty(), last_return: false, scopes, size, peak: size, counter, infos: Seq::empty(), error: None }
    }
}

/// Compiling `let name: type_ref = value;`: a slot for the variable, named at once, then
/// the value evaluated into it.
pub open spec fn init_outcome(
    table: GlobalTable, scopes: Seq<Map<Seq<char>, AddressedTypeRef>>, size: nat, counter: nat,
    name: Seq<char>, type_ref: TypeRef, value: EvaluableToken,
) -> LinesOutcome {
    let s = slot(table, size, type_ref);
    let named = scopes.update(scopes.len() - 1, scopes.last().insert(name, s));
    let v = into_outcome(table, named, size + table.size_of(type_ref), value, s);
    if v.error is Some {
        stopped(v.size, counter, named, v.size, Seq::empty(), v.error.unwrap())
    } else {
        LinesOutcome { code: v.code, last_return: false, scopes: named, size: v.size, peak: v.size, counter, infos: Seq::empty(), error: None }
    }
}

/// Compiling an expression statement: evaluated for its effect.
pub open spec fn noop_outcome(
    table: GlobalTable, scopes: Seq<Map<Seq<char>, AddressedTypeRef>>, size: nat, counter: nat, et: EvaluableToken,
) -> LinesOutcome {
    let v = ref_outcome(table, scopes, size, et);
    if v.error is Some {
        stopped(v.size, counter, scopes, v.size, Seq::empty(), v.error.unwrap())
    } else {
        LinesOutcome { code: v.code, last_return: false, scopes, size: v.size, peak: v.size, counter, infos: Seq::empty(), error: None }
    }
}

/// Compiling `break;`: a jump to the end of the loop, or an error outside one.
pub open spec fn break_outcome(
    brk: Option<Seq<char>>, scopes: Seq<Map<Seq<char>, AddressedTypeRef>>, size: nat, counter: nat, location: Location,
) -> LinesOutcome {
    match brk {
        Some(t) => LinesOutcome { code: indented_line("jmp "@ + t), last_return: false, scopes, size, peak: size, counter, infos: Seq::empty(), error: None },
        None => stopped(size, counter, scopes, size, Seq::empty(), (location, EvalError::CannotBreak)),
    }
}

/// Compiling `return;` or `return value;`. `main` must return an `int`, which goes into
/// `rax`; another function puts its value into its return variable.
pub open spec fn return_outcome(
    table: GlobalTable, fid: FunctionID, ret: Option<AddressedTypeRef>, scopes: Seq<Map<Seq<char>, AddressedTypeRef>>,
    size: nat, counter: nat, location: Location, value: Option<EvaluableToken>,
) -> LinesOutcome {
    if fid.0 == 0 {
        match value {
            None => stopped(size, counter, scopes, size, Seq::empty(), (location, EvalError::ExpectedSomeReturn(table.name_of(value_ref(int_type_id()))))),
            Some(e) => {
                let a = slot(table, size, value_ref(int_type_id()));
                let v = into_outcome(table, scopes, size + table.size_of(value_ref(int_type_id())), e, a);
                if v.error is Some {
                    stopped(v.size, counter, scopes, v.size, Seq::empty(), v.error.unwrap())
                } else {
                    LinesOutcome {
                        code: v.code + indented_line("mov rax, qword "@ + address_text(a.address)) + return_text(),
                        last_return: true, scopes, size: v.size, peak: v.size, counter, infos: Seq::empty(), error: None,
                    }
                }
            },
        }
    } else {
        match value {
            Some(e) => match ret {
                None => stopped(size, counter, scopes, size, Seq::empty(), (e.location, EvalError::ExpectedNoReturn)),
                Some(rv) => {
                    let v = into_outcome(table, scopes, size, e, rv);
                    if v.error is Some {
                        stopped(v.size, counter, scopes, v.size, Seq::empty(), v.error.unwrap())
                    } else {
                        LinesOutcome { code: v.code + return_text(), last_return: true, scopes, size: v.size, peak: v.size, counter, infos: Seq::empty(), error: None }
                    }
                },
            },
            None => match ret {
                Some(rv) => stopped(size, counter, scopes, size, Seq::empty(), (location, EvalError::ExpectedSomeReturn(table.name_of(rv.type_ref)))),
                None => LinesOutcome { code: return_text(), last_return: true, scopes, size, peak: size, counter, infos: Seq::empty(), error: None },
            },
        }
    }
}

/// Compiling the loop `lines[i]` with condition `condition`: a start tag, the condition
/// into a new `bool`, a jump to the end tag when it is false, the body as a block in which
/// `break` jumps to the end, and a jump back to the start. The loop may not run, so it
/// does not count as returning, whatever its body does.
pub open spec fn while_outcome(
    table: GlobalTable, fid: FunctionID, ret: Option<AddressedTypeRef>,
    scopes: Seq<Map<Seq<char>, AddressedTypeRef>>, size: nat, counter: nat, lines: Seq<LineTokens>, i: nat,
    condition: EvaluableToken,
) -> LinesOutcome
    decreases lines, lines.len() - i, elif_count(lines, i) + 2,
{
    let start = unique_tag(fid, counter);
    let end = unique_tag(fid, counter + 1);
    let b = slot(table, size, value_ref(bool_type_id()));
    let cond = into_outcome(table, scopes, size + table.size_of(value_ref(bool_type_id())), condition, b);
    if cond.error is Some {
        stopped(cond.size, counter + 2, scopes, cond.size, Seq::empty(), cond.error.unwrap())
    } else {
        let block = block_outcome(table, fid, ret, Some(end), scopes, cond.size, counter + 2, lines, i);
        if block.error is Some {
            stopped(larger(cond.size, block.peak), block.counter, scopes, cond.size, block.infos, block.error.unwrap())
        } else {
            LinesOutcome {
                code: indented_line(start + ":"@) + cond.code + indented_line("cmp byte "@ + address_text(b.address) + ", 0"@)
                    + indented_line("jz "@ + end) + block.code + indented_line("jmp "@ + start)
                    + indented_line(end + ":"@),
                last_return: false,
                scopes,
                size: cond.size,
                peak: larger(cond.size, block.peak),
                counter: block.counter,
                infos: block.infos,
                error: None,
            }
        }
    }
}

/// The number of `elif` branches of `lines[i]`.
pub open spec fn elif_count(lines: Seq<LineTokens>, i: nat) -> nat {
    if i < lines.len() {
        match lines[i as int] {
            LineTokens::If { elifs, .. } => elifs@.len(),
            _ => 0,
        }
    } else {
        0
    }
}

/// Whether the conditional `lines[i]` has an `elif` or an `else` after its first body.
pub open spec fn has_alternatives(lines: Seq<LineTokens>, i: nat) -> bool {
    &&& i < lines.len()
    &&& lines[i as int] matches LineTokens::If { elifs, else_body, .. }
    &&& (elifs@.len() > 0 || else_body is Some)
}

/// The test of the `bool` at `b` and the jump to `target` when it is false.
pub open spec fn test_text(b: LocalAddress, target: Seq<char>) -> Seq<char> {
    indented_line("cmp byte "@ + address_text(b) + ", 0"@) + indented_line("jz "@ + target)
}

/// Compiling the conditional `lines[i]` with condition `condition`: the condition into a
/// new `bool`, a jump to the next branch (or past the end) when it is false, the body as
/// a block, then the `elif` and `else` branches. It returns on every path only when it
/// has an `else` and every branch returns.
pub open spec fn if_outcome(
    table: GlobalTable, fid: FunctionID, ret: Option<AddressedTypeRef>, brk: Option<Seq<char>>,
    scopes: Seq<Map<Seq<char>, AddressedTypeRef>>, size: nat, counter: nat, lines: Seq<LineTokens>, i: nat,
    condition: EvaluableToken,
) -> LinesOutcome
    decreases lines, lines.len() - i, elif_count(lines, i) + 2,
{
    let b = slot(table, size, value_ref(bool_type_id()));
    let cond = into_outcome(table, scopes, size + table.size_of(value_ref(bool_type_id())), condition, b);
    if cond.error is Some {
        stopped(cond.size, counter, scopes, cond.size, Seq::empty(), cond.error.unwrap())
    } else {
        let end = unique_tag(fid, counter);
        let next = unique_tag(fid, counter + 1);
        let block = block_outcome(table, fid, ret, brk, scopes, cond.size, counter + 2, lines, i);
        if block.error is Some {
            stopped(larger(cond.size, block.peak), block.counter, scopes, cond.size, block.infos, block.error.unwrap())
        } else {
            let rest = alternatives_outcome(table, fid, ret, brk, scopes, cond.size, block.counter, lines, i, 0, end, next);
            let peak = larger(larger(cond.size, block.peak), rest.peak);
            if rest.error is Some {
                stopped(peak, rest.counter, scopes, rest.size, block.infos + rest.infos, rest.error.unwrap())
            } else {
                LinesOutcome {
                    code: cond.code + test_text(b.address, if has_alternatives(lines, i) { next } else { end })
                        + block.code + rest.code,
                    last_return: block.last_return && rest.last_return,
                    scopes,
                    size: rest.size,
                    peak,
                    counter: rest.counter,
                    infos: block.infos + rest.infos,
                    error: None,
                }
            }
        }
    }
}

/// Compiling the branches of the conditional `lines[i]` from its `elif` number `k` on,
/// then its `else`, on a stack of `size` bytes, where `end` tags the end of the whole
/// conditional and `next` the branch after the one before. Each branch starts with a jump
/// to the end, closing the branch before, and the tag `next`; an `elif` tests its
/// condition in a new `bool` and jumps to a fresh tag when it is false. The last tag and
/// `end` close the conditional.
pub open spec fn alternatives_outcome(
    table: GlobalTable, fid: FunctionID, ret: Option<AddressedTypeRef>, brk: Option<Seq<char>>,
    scopes: Seq<Map<Seq<char>, AddressedTypeRef>>, size: nat, counter: nat, lines: Seq<LineTokens>, i: nat,
    k: nat, end: Seq<char>, next: Seq<char>,
) -> LinesOutcome
    decreases lines, lines.len() - i, elif_count(lines, i) - k + 1,
{
    if i < lines.len() && k <= elif_count(lines, i) {
        match lines[i as int] {
            LineTokens::If { elifs, else_body, .. } => if k < elifs@.len() {
                let c = elifs@[k as int].0;
                let body = elifs@[k as int].1;
                let jump = indented_line("jmp "@ + end) + indented_line(next + ":"@);
                let next2 = unique_tag(fid, counter);
                let b = slot(table, size, value_ref(bool_type_id()));
                let cond = into_outcome(table, scopes, size + table.size_of(value_ref(bool_type_id())), c, b);
                if cond.error is Some {
                    stopped(cond.size, counter + 1, scopes, cond.size, Seq::empty(), cond.error.unwrap())
                } else {
                    let inner = lines_from(table, fid, ret, brk, scopes.push(Map::empty()), cond.size, counter + 1, body@, 0);
                    if inner.error is Some {
                        stopped(larger(cond.size, inner.peak), inner.counter, scopes, cond.size, inner.infos, inner.error.unwrap())
                    } else {
                        let rest = alternatives_outcome(table, fid, ret, brk, scopes, cond.size, inner.counter, lines, i, k + 1, end, next2);
                        let peak = larger(larger(cond.size, inner.peak), rest.peak);
                        if rest.error is Some {
                            stopped(peak, rest.counter, scopes, rest.size, inner.infos + rest.infos, rest.error.unwrap())
                        } else {
                            LinesOutcome {
                                code: jump + cond.code + test_text(b.address, next2) + inner.code + rest.code,
                                last_return: inner.last_return && rest.last_return,
                                scopes,
                                size: rest.size,
                                peak,
                                counter: rest.counter,
                                infos: inner.infos + rest.infos,
                                error: None,
                            }
                        }
                    }
                }
            } else {
                match else_body {
                    Some(eb) => {
                        let next2 = unique_tag(fid, counter);
                        let inner = lines_from(table, fid, ret, brk, scopes.push(Map::empty()), size, counter + 1, eb@, 0);
                        if inner.error is Some {
                            stopped(larger(size, inner.peak), inner.counter, scopes, size, inner.infos, inner.error.unwrap())
                        } else {
                            LinesOutcome {
                                code: indented_line("jmp "@ + end) + indented_line(next + ":"@) + inner.code
                                    + indented_line(next2 + ":"@) + indented_line(end + ":"@),
                                last_return: inner.last_return,
                                scopes,
                                size,
                                peak: larger(size, inner.peak),
                                counter: inner.counter,
                                infos: inner.infos,
                                error: None,
                            }
                        }
                    },
                    None => LinesOutcome {
                        code: indented_line(next + ":"@) + indented_line(end + ":"@),
                        last_return: false,
                        scopes,
                        size,
                        peak: size,
                        counter,
                        infos: Seq::empty(),
                        error: None,
                    },
                }
            },
            _ => LinesOutcome { code: Seq::empty(), last_return: false, scopes, size, peak: size, counter, infos: Seq::empty(), error: None },
        }
    } else {
        LinesOutcome { code: Seq::empty(), last_return: false, scopes, size, peak: size, counter, infos: Seq::empty(), error: None }
    }
}

/// Compiling the statement `lines[i]`.
pub open spec fn line_outcome(
    table: GlobalTable,
    fid: FunctionID,
    ret: Option<AddressedTypeRef>,
    brk: Option<Seq<char>>,
    scopes: Seq<Map<Seq<char>, AddressedTypeRef>>,
    size: nat,
    counter: nat,
    lines: Seq<LineTokens>,
    i: nat,
) -> LinesOutcome
    decreases lines, lines.len() - i, elif_count(lines, i) + 3,
{
    if i >= lines.len() {
        LinesOutcome { code: Seq::empty(), last_return: false, scopes, size, peak: size, counter, infos: Seq::empty(), error: None }
    } else {
        match lines[i as int] {
            LineTokens::Initialisation { name, type_ref, value } => init_outcome(table, scopes, size, counter, name@, type_ref, value),
            LineTokens::NoOp(et) => noop_outcome(table, scopes, size, counter, et),
            LineTokens::Typequery { location, querying } => match type_of(table, scopes, querying) {
                Ok(t) => LinesOutcome {
                    code: Seq::empty(),
                    last_return: false,
                    scopes,
                    size,
                    peak: size,
                    counter,
                    infos: seq![("Type: "@ + table.name_of(t), location)],
                    error: None,
                },
                Err(x) => stopped(size, counter, scopes, size, Seq::empty(), x),
            },
            LineTokens::Marker(text) => LinesOutcome {
                code: indented_line(";"@ + text@),
                last_return: false,
                scopes,
                size,
                peak: size,
                counter,
                infos: Seq::empty(),
                error: None,
            },
            LineTokens::Break { location } => break_outcome(brk, scopes, size, counter, location),
            LineTokens::Return { location, value } => return_outcome(table, fid, ret, scopes, size, counter, location, value),
            LineTokens::While { condition, .. } => while_outcome(table, fid, ret, scopes, size, counter, lines, i, condition),
            LineTokens::If { condition, .. } => if_outcome(table, fid, ret, brk, scopes, size, counter, lines, i, condition),
        }
    }
}

/// How many references deep types and expressions of a function body may go.
///
/// Reference counts are held in a `usize`, and each `&` in an expression adds one to the
/// count of the value it makes, so a bound on nesting is what keeps every count the
/// compiler produces representable. The compiler also recurses once per level of nesting,
/// so the bound limits its recursion depth as well. No program written by hand comes near
/// it; a deeper one is refused by the precondition rather than miscompiled.
pub const NESTING_LIMIT: usize = 65536;

/// Whether `lines[i]` is one the compiler can take: its declared types are registered and
/// within the nesting limit, and its expressions nest no deeper than the limit.
pub open spec fn line_ok(table: GlobalTable, lines: Seq<LineTokens>, i: nat) -> bool
    decreases lines, lines.len() - i, elif_count(lines, i) + 2,
{
    if i >= lines.len() {
        true
    } else {
        match lines[i as int] {
            LineTokens::Initialisation { type_ref, value, .. } => table.has_type(type_ref.type_id)
                && type_ref.indirection.0 <= NESTING_LIMIT && depth(value) <= NESTING_LIMIT,
            LineTokens::NoOp(e) => depth(e) <= NESTING_LIMIT,
            LineTokens::Return { value, .. } => value matches Some(e) ==> depth(e) <= NESTING_LIMIT,
            LineTokens::Break { .. } => true,
            LineTokens::Marker(_) => true,
            LineTokens::Typequery { querying, .. } => depth(querying) <= NESTING_LIMIT,
            LineTokens::While { condition, body } => depth(condition) <= NESTING_LIMIT && lines_ok(table, body@, 0),
            LineTokens::If { condition, body, .. } => depth(condition) <= NESTING_LIMIT && lines_ok(table, body@, 0)
                && alternatives_ok(table, lines, i, 0),
        }
    }
}

/// Whether the `elif` branches of the conditional `lines[i]` from number `k` on, and its
/// `else`, are ones the compiler can take.
pub open spec fn alternatives_ok(table: GlobalTable, lines: Seq<LineTokens>, i: nat, k: nat) -> bool
    decreases lines, lines.len() - i, elif_count(lines, i) - k + 1,
{
    if i < lines.len() && k <= elif_count(lines, i) {
        match lines[i as int] {
            LineTokens::If { elifs, else_body, .. } => if k < elifs@.len() {
                depth(elifs@[k as int].0) <= NESTING_LIMIT && lines_ok(table, elifs@[k as int].1@, 0)
                    && alternatives_ok(table, lines, i, k + 1)
            } else {
                else_body matches Some(eb) ==> lines_ok(table, eb@, 0)
            },
            _ => true,
        }
    } else {
        true
    }
}

/// Whether every statement of `lines` from index `i` on is one the compiler can take.
pub open spec fn lines_ok(table: GlobalTable, lines: Seq<LineTokens>, i: nat) -> bool
    decreases lines, lines.len() - i, elif_count(lines, i) + 3,
{
    if i >= lines.len() {
        true
    } else {
        line_ok(table, lines, i) && lines_ok(table, lines, i + 1)
    }
}

/// The number of tags compiling `lines[i]` takes: two for each loop and conditional, and
/// one more for each `elif` and `else`.
pub open spec fn line_tags(lines: Seq<LineTokens>, i: nat) -> nat
    decreases lines, lines.len() - i, elif_count(lines, i) + 2,
{
    if i >= lines.len() {
        0
    } else {
        match lines[i as int] {
            LineTokens::While { body, .. } => 2 + lines_tags(body@, 0),
            LineTokens::If { body, .. } => 2 + lines_tags(body@, 0) + alternatives_tags(lines, i, 0),
            _ => 0,
        }
    }
}

/// The number of tags compiling the `elif` branches of `lines[i]` from number `k` on, and
/// its `else`, takes at most.
pub open spec fn alternatives_tags(lines: Seq<LineTokens>, i: nat, k: nat) -> nat
    decreases lines, lines.len() - i, elif_count(lines, i) - k + 1,
{
    if i < lines.len() && k <= elif_count(lines, i) {
        match lines[i as int] {
            LineTokens::If { elifs, else_body, .. } => if k < elifs@.len() {
                1 + lines_tags(elifs@[k as int].1@, 0) + alternatives_tags(lines, i, k + 1)
            } else {
                match else_body {
                    Some(eb) => 1 + lines_tags(eb@, 0),
                    None => 0,
                }
            },
            _ => 0,
        }
    } else {
        0
    }
}

/// The number of tags compiling the statements of `lines` from index `i` on takes at most.
pub open spec fn lines_tags(lines: Seq<LineTokens>, i: nat) -> nat
    decreases lines, lines.len() - i, elif_count(lines, i) + 3,
{
    if i >= lines.len() {
        0
    } else {
        line_tags(lines, i) + lines_tags(lines, i + 1)
    }
}

/// The number of tags compiling the body of the loop or conditional `lines[i]` takes at
/// most.
pub open spec fn body_tags(lines: Seq<LineTokens>, i: nat) -> nat {
    if i < lines.len() {
        match lines[i as int] {
            LineTokens::While { body, .. } => lines_tags(body@, 0),
            LineTokens::If { body, .. } => lines_tags(body@, 0),
            _ => 0,
        }
    } else {
        0
    }
}

/// The variables in scope are good places within the nesting limit.
pub open spec fn scopes_ready(table: GlobalTable, scopes: Seq<Map<Seq<char>, AddressedTypeRef>>) -> bool {
    ready(table, scopes, NESTING_LIMIT as nat)
}

proof fn lemma_ready_less(table: GlobalTable, scopes: Seq<Map<Seq<char>, AddressedTypeRef>>, d: nat)
    requires
        scopes_ready(table, scopes),
        d <= NESTING_LIMIT,
    ensures
        ready(table, scopes, d),
{
}

proof fn lemma_ready_push(table: GlobalTable, scopes: Seq<Map<Seq<char>, AddressedTypeRef>>)
    requires
        scopes_ready(table, scopes),
    ensures
        scopes_ready(table, scopes.push(Map::empty())),
{
    assert forall|i: int, n: Seq<char>|
        0 <= i < scopes.push(Map::empty()).len() && #[trigger] scopes.push(Map::empty())[i].dom().contains(n)
        implies place_ok(table, scopes.push(Map::empty())[i][n])
            && scopes.push(Map::empty())[i][n].type_ref.indirection.0 + NESTING_LIMIT < usize::MAX by {
        assert(i < scopes.len());
        assert(scopes.push(Map::empty())[i] == scopes[i]);
    }
}

proof fn lemma_ready_insert(
    table: GlobalTable,
    scopes: Seq<Map<Seq<char>, AddressedTypeRef>>,
    name: Seq<char>,
    v: AddressedTypeRef,
)
    requires
        scopes_ready(table, scopes),
        scopes.len() > 0,
        place_ok(table, v),
        v.type_ref.indirection.0 <= NESTING_LIMIT,
    ensures
        scopes_ready(table, scopes.update(scopes.len() - 1, scopes.last().insert(name, v))),
{
    let after = scopes.update(scopes.len() - 1, scopes.last().insert(name, v));
    assert forall|i: int, n: Seq<char>|
        0 <= i < after.len() && #[trigger] after[i].dom().contains(n)
        implies place_ok(table, after[i][n]) && after[i][n].type_ref.indirection.0 + NESTING_LIMIT < usize::MAX by {
        if i == scopes.len() - 1 && n == name {
        } else if i == scopes.len() - 1 {
            assert(scopes[i].dom().contains(n));
        } else {
            assert(after[i] == scopes[i]);
        }
    }
}

/// The text of `brk` as a jump target.
pub open spec fn break_target(brk: Option<String>) -> Option<Seq<char>> {
    match brk {
        Some(t) => Some(t@),
        None => None,
    }
}

/// The state after compiling statements from `lv` and `tr`: the local variables and tag
/// counter the outcome reached, and the result the outcome gives.
pub open spec fn compiled(
    lv: LocalVariableTable,
    lv2: LocalVariableTable,
    tr: GlobalTracker,
    tr2: GlobalTracker,
    out: LinesOutcome,
    r: Result<(Assembly, bool), WErr>,
) -> bool {
    &&& lv2.wf()
    &&& lv2.scopes() == out.scopes
    &&& lv2.scopes().len() == lv.scopes().len()
    &&& lv2.scopes().drop_last() == lv.scopes().drop_last()
    &&& lv2.sizes() == lv.sizes().update(lv.sizes().len() - 1, out.size as usize)
    &&& out.size <= out.peak
    &&& lv.current_size() <= out.peak
    &&& tr2.wf()
    &&& tr2.tag_counter() == out.counter
    &&& tr2.calls() == tr.calls()
    &&& tr2.readonly_names() == tr.readonly_names()
    &&& tr2.readonly_section() == tr.readonly_section()
    &&& info_views(tr2.infos()) == info_views(tr.infos()) + out.infos
    &&& tr2.warnings() == tr.warnings()
    &&& match r {
        Ok(v) => out.error is None && v.0@ == out.code && v.1 == out.last_return,
        Err(e) => out.error matches Some(x) && error_is(e, x.0, x.1),
    }
}

/// What the compiler needs before compiling statements: well-formed tables, variables
/// in scope within the nesting limit, a good return place, and room for the stack and
/// the tags the statements take.
pub open spec fn can_compile(
    table: GlobalTable,
    ret: Option<AddressedTypeRef>,
    lv: LocalVariableTable,
    tr: GlobalTracker,
    out: LinesOutcome,
) -> bool {
    &&& lv.wf()
    &&& lv.sizes().len() > 0
    &&& tr.wf()
    &&& scopes_ready(table, lv.scopes())
    &&& ret matches Some(rv) ==> place_ok(table, rv) && rv.type_ref.indirection.0 + 1 < usize::MAX
    &&& out.peak <= isize::MAX
}

/// Compiles the statements `lines[i..]`, in order.
#[verifier::rlimit(100)]
fn compile_lines_from(
    fid: FunctionID,
    lines: &[LineTokens],
    i: usize,
    ret: &Option<AddressedTypeRef>,
    brk: &Option<String>,
    local_variables: &mut LocalVariableTable,
    global_table: &GlobalTable,
    global_tracker: &mut GlobalTracker,
) -> (r: Result<(Assembly, bool), WErr>)
    requires
        lines_ok(*global_table, lines@, i as nat),
        can_compile(*global_table, *ret, *old(local_variables), *old(global_tracker), lines_from(*global_table, fid, *ret, break_target(*brk), old(local_variables).scopes(), old(local_variables).current_size() as nat, old(global_tracker).tag_counter() as nat, lines@, i as nat)),
        old(global_tracker).tag_counter() + lines_tags(lines@, i as nat) <= usize::MAX,
    ensures
        compiled(*old(local_variables), *final(local_variables), *old(global_tracker), *final(global_tracker), lines_from(*global_table, fid, *ret, break_target(*brk), old(local_variables).scopes(), old(local_variables).current_size() as nat, old(global_tracker).tag_counter() as nat, lines@, i as nat), r),
        scopes_ready(*global_table, final(local_variables).scopes()),
        final(global_tracker).tag_counter() <= old(global_tracker).tag_counter() + lines_tags(lines@, i as nat),
    decreases lines@, lines@.len() - i, elif_count(lines@, i as nat) + 4,
{
    let ghost table = *global_table;
    let ghost scopes = local_variables.scopes();
    let ghost size0 = local_variables.current_size() as nat;
    let ghost counter0 = global_tracker.tag_counter();
    proof {
        local_variables.lemma_scopes_match_sizes();
        assert(local_variables.sizes().update(local_variables.sizes().len() - 1, local_variables.current_size()) =~= local_variables.sizes());
        assert(local_variables.scopes().drop_last() == scopes.drop_last());
    }
    if i >= lines.len() {
        return Ok((String::new(), false));
    }
    let ghost line = line_outcome(table, fid, *ret, break_target(*brk), scopes, size0, counter0 as nat, lines@, i as nat);
    let (c1, b1) = match compile_line(fid, lines, i, ret, brk, local_variables, global_table, global_tracker) {
        Ok(x) => x,
        Err(e) => return Err(e),
    };
    if i + 1 == lines.len() {
        return Ok((c1, b1));
    }
    let ghost mid_scopes = local_variables.scopes();
    let ghost rest = lines_from(table, fid, *ret, break_target(*brk), line.scopes, line.size, line.counter, lines@, (i + 1) as nat);
    proof {
        assert(line.error is None);
        assert(lines_from(table, fid, *ret, break_target(*brk), scopes, size0, counter0 as nat, lines@, i as nat) == (if rest.error is Some {
            stopped(larger(line.peak, rest.peak), rest.counter, rest.scopes, rest.size, line.infos + rest.infos, rest.error.unwrap())
        } else {
            LinesOutcome {
                code: line.code + rest.code,
                last_return: rest.last_return,
                scopes: rest.scopes,
                size: rest.size,
                peak: larger(line.peak, rest.peak),
                counter: rest.counter,
                infos: line.infos + rest.infos,
                error: None,
            }
        }));
    }
    let r2 = compile_lines_from(fid, lines, i + 1, ret, brk, local_variables, global_table, global_tracker);
    proof {
        assert(info_views(old(global_tracker).infos()) + (line.infos + rest.infos)
            =~= (info_views(old(global_tracker).infos()) + line.infos) + rest.infos);
    }
    let (c2, b2) = match r2 {
        Ok(x) => x,
        Err(e) => {
            proof {
                assert(local_variables.sizes() =~= old(local_variables).sizes().update(old(local_variables).sizes().len() - 1, lines_from(table, fid, *ret, break_target(*brk), scopes, size0, counter0 as nat, lines@, i as nat).size as usize));
            }
            return Err(e);
        },
    };
    let mut code = c1;
    code.append(c2.as_str());
    proof {
        assert(local_variables.sizes() =~= old(local_variables).sizes().update(old(local_variables).sizes().len() - 1, lines_from(table, fid, *ret, break_target(*brk), scopes, size0, counter0 as nat, lines@, i as nat).size as usize));
    }
    Ok((code, b2))
}

/// Compiles the body of the loop or conditional `lines[i]` in a scope of its own.
#[verifier::rlimit(100)]
fn compile_block(
    fid: FunctionID,
    lines: &[LineTokens],
    i: usize,
    ret: &Option<AddressedTypeRef>,
    brk: &Option<String>,
    local_variables: &mut LocalVariableTable,
    global_table: &GlobalTable,
    global_tracker: &mut GlobalTracker,
) -> (r: Result<(Assembly, bool), WErr>)
    requires
        i < lines@.len(),
        lines@[i as int] is While || lines@[i as int] is If,
        line_ok(*global_table, lines@, i as nat),
        can_compile(*global_table, *ret, *old(local_variables), *old(global_tracker), block_outcome(*global_table, fid, *ret, break_target(*brk), old(local_variables).scopes(), old(local_variables).current_size() as nat, old(global_tracker).tag_counter() as nat, lines@, i as nat)),
        old(global_tracker).tag_counter() + body_tags(lines@, i as nat) <= usize::MAX,
    ensures
        compiled(*old(local_variables), *final(local_variables), *old(global_tracker), *final(global_tracker), block_outcome(*global_table, fid, *ret, break_target(*brk), old(local_variables).scopes(), old(local_variables).current_size() as nat, old(global_tracker).tag_counter() as nat, lines@, i as nat), r),
        scopes_ready(*global_table, final(local_variables).scopes()),
        final(global_tracker).tag_counter() <= old(global_tracker).tag_counter() + body_tags(lines@, i as nat),
    decreases lines@, lines@.len() - i, 0nat,
{
    let ghost table = *global_table;
    let ghost scopes = local_variables.scopes();
    let ghost size0 = local_variables.current_size() as nat;
    let ghost counter0 = global_tracker.tag_counter();
    proof {
        local_variables.lemma_scopes_match_sizes();
        assert(local_variables.sizes().update(local_variables.sizes().len() - 1, local_variables.current_size()) =~= local_variables.sizes());
        assert(local_variables.scopes().drop_last() == scopes.drop_last());
    }
    let body: &Vec<LineTokens> = match &lines[i] {
        LineTokens::While { body, .. } => body,
        LineTokens::If { body, .. } => body,
        _ => {
            proof {
                assert(false);
            }
            return Ok((String::new(), false));
        },
    };
    let ghost inner = lines_from(table, fid, *ret, break_target(*brk), scopes.push(Map::empty()), size0, counter0 as nat, body@, 0);
    proof {
        lemma_ready_push(table, scopes);
        assert(block_outcome(table, fid, *ret, break_target(*brk), scopes, size0, counter0 as nat, lines@, i as nat)
            == LinesOutcome { scopes, size: size0, ..inner });
        assert(body_tags(lines@, i as nat) == lines_tags(body@, 0));
        assert(line_ok(table, lines@, i as nat) ==> lines_ok(table, body@, 0));
    }
    local_variables.enter_scope();
    let r = compile_lines_from(fid, body.as_slice(), 0, ret, brk, local_variables, global_table, global_tracker);
    proof {
        local_variables.lemma_scopes_match_sizes();
    }
    local_variables.leave_scope();
    proof {
        assert(local_variables.scopes() =~= scopes);
        assert(local_variables.sizes() =~= old(local_variables).sizes());
    }
    r
}


/// Compiles the statement `lines[i]`.
#[verifier::rlimit(100)]
fn compile_line(
    fid: FunctionID,
    lines: &[LineTokens],
    i: usize,
    ret: &Option<AddressedTypeRef>,
    brk: &Option<String>,
    local_variables: &mut LocalVariableTable,
    global_table: &GlobalTable,
    global_tracker: &mut GlobalTracker,
) -> (r: Result<(Assembly, bool), WErr>)
    requires
        i < lines@.len(),
        line_ok(*global_table, lines@, i as nat),
        can_compile(*global_table, *ret, *old(local_variables), *old(global_tracker), line_outcome(*global_table, fid, *ret, break_target(*brk), old(local_variables).scopes(), old(local_variables).current_size() as nat, old(global_tracker).tag_counter() as nat, lines@, i as nat)),
        old(global_tracker).tag_counter() + line_tags(lines@, i as nat) <= usize::MAX,
    ensures
        compiled(*old(local_variables), *final(local_variables), *old(global_tracker), *final(global_tracker), line_outcome(*global_table, fid, *ret, break_target(*brk), old(local_variables).scopes(), old(local_variables).current_size() as nat, old(global_tracker).tag_counter() as nat, lines@, i as nat), r),
        scopes_ready(*global_table, final(local_variables).scopes()),
        final(global_tracker).tag_counter() <= old(global_tracker).tag_counter() + line_tags(lines@, i as nat),
    decreases lines@, lines@.len() - i, elif_count(lines@, i as nat) + 3,
{
    let ghost table = *global_table;
    let ghost scopes = local_variables.scopes();
    let ghost size0 = local_variables.current_size() as nat;
    let ghost counter0 = global_tracker.tag_counter();
    proof {
        local_variables.lemma_scopes_match_sizes();
        assert(local_variables.sizes().update(local_variables.sizes().len() - 1, local_variables.current_size()) =~= local_variables.sizes());
        assert(local_variables.scopes().drop_last() == scopes.drop_last());
    }
    proof {
        reveal_strlit("leave");
        reveal_strlit("ret");
    }
    match &lines[i] {
        LineTokens::Initialisation { name, type_ref, value } => {
            let ghost out = init_outcome(table, scopes, size0, counter0 as nat, name@, *type_ref, *value);
            proof {
                lemma_into_grows(table, scopes.update(scopes.len() - 1, scopes.last().insert(name@, slot(table, size0, *type_ref))), size0 + table.size_of(*type_ref), *value, slot(table, size0, *type_ref));
            }
            let s = global_table.add_local_variable_unnamed(*type_ref, local_variables);
            local_variables.add_existing(name.clone(), s);
            proof {
                lemma_ready_insert(table, scopes, name@, s);
                lemma_ready_less(table, local_variables.scopes(), depth(*value));
            }
            let r = compile_evaluable_into(value, s, local_variables, global_table);
            proof {
                assert(local_variables.sizes() =~= old(local_variables).sizes().update(old(local_variables).sizes().len() - 1, out.size as usize));
                assert(local_variables.scopes().drop_last() =~= scopes.drop_last());
            }
            match r {
                Ok(c) => Ok((c, false)),
                Err(e) => Err(e),
            }
        },
        LineTokens::NoOp(et) => {
            proof {
                lemma_ready_less(table, scopes, depth(*et));
                lemma_ref_grows(table, scopes, size0, *et);
            }
            match compile_evaluable_reference(et, local_variables, global_table) {
                Ok((c, _)) => Ok((c, false)),
                Err(e) => Err(e),
            }
        },
        LineTokens::Typequery { location, querying } => {
            proof {
                lemma_ready_less(table, scopes, depth(*querying));
            }
            match compile_evaluable_type_only(querying, local_variables, global_table) {
                Ok(t) => {
                    let mut m = String::from_str("Type: ");
                    let name = global_table.get_type_name(&t);
                    m.append(name.as_str());
                    let ghost before = global_tracker.infos();
                    global_tracker.push_info_message(m, *location);
                    proof {
                        reveal_strlit("Type: ");
                        assert(info_views(global_tracker.infos()) =~= info_views(before)
                            + seq![("Type: "@ + table.name_of(t), *location)]);
                    }
                    Ok((String::new(), false))
                },
                Err(e) => Err(e),
            }
        },
        LineTokens::Marker(text) => {
            let mut l = String::from_str(";");
            l.append(text.as_str());
            let mut b = AssemblyBuilder::new();
            b.line(l.as_str());
            proof {
                assert(b@ =~= indented_line(";"@ + text@));
            }
            Ok((b.finish(), false))
        },
        LineTokens::Break { location } => {
            match brk {
                Some(t) => {
                    let mut l = String::from_str("jmp ");
                    l.append(t.as_str());
                    let mut b = AssemblyBuilder::new();
                    b.line(l.as_str());
                    proof {
                        assert(b@ =~= indented_line("jmp "@ + t@));
                    }
                    Ok((b.finish(), false))
                },
                None => Err(WErr::n(ErrorKind::Comp(CompErrs::CannotBreak), *location)),
            }
        },
        LineTokens::Return { location, value } => {
            if fid.is_main() {
                match value {
                    None => Err(WErr::n(ErrorKind::Comp(CompErrs::ExpectedSomeReturn(global_table.get_type_name(&IntType::id().immediate_single()))), *location)),
                    Some(e) => {
                        let ghost a0 = slot(table, size0, value_ref(int_type_id()));
                        proof {
                            lemma_into_grows(table, scopes, size0 + table.size_of(value_ref(int_type_id())), *e, a0);
                            lemma_ready_less(table, scopes, depth(*e));
                        }
                        let a = global_table.add_local_variable_unnamed(IntType::id().immediate_single(), local_variables);
                        let r = compile_evaluable_into(e, a, local_variables, global_table);
                        proof {
                            assert(local_variables.sizes() =~= old(local_variables).sizes().update(old(local_variables).sizes().len() - 1, into_outcome(table, scopes, size0 + table.size_of(value_ref(int_type_id())), *e, a0).size as usize));
                        }
                        let c = match r {
                            Ok(c) => c,
                            Err(err) => return Err(err),
                        };
                        let mut l = String::from_str("mov rax, qword ");
                        a.address.append_text(&mut l);
                        let mut b = AssemblyBuilder::new();
                        b.other(c.as_str());
                        b.line(l.as_str());
                        b.line("leave");
                        b.line("ret");
                        proof {
                            assert(b@ =~= c@ + indented_line("mov rax, qword "@ + address_text(a.address)) + return_text());
                        }
                        Ok((b.finish(), true))
                    },
                }
            } else {
                match value {
                    Some(e) => match ret {
                        None => Err(WErr::n(ErrorKind::Comp(CompErrs::ExpectedNoReturn), e.location)),
                        Some(rv) => {
                            proof {
                                lemma_ready_less(table, scopes, depth(*e));
                                lemma_into_grows(table, scopes, size0, *e, *rv);
                            }
                            let c = match compile_evaluable_into(e, *rv, local_variables, global_table) {
                                Ok(c) => c,
                                Err(err) => return Err(err),
                            };
                            let mut b = AssemblyBuilder::new();
                            b.other(c.as_str());
                            b.line("leave");
                            b.line("ret");
                            proof {
                                assert(b@ =~= c@ + return_text());
                            }
                            Ok((b.finish(), true))
                        },
                    },
                    None => match ret {
                        Some(rv) => Err(WErr::n(ErrorKind::Comp(CompErrs::ExpectedSomeReturn(global_table.get_type_name(&rv.type_ref))), *location)),
                        None => {
                            let mut b = AssemblyBuilder::new();
                            b.line("leave");
                            b.line("ret");
                            proof {
                                assert(b@ =~= return_text());
                            }
                            Ok((b.finish(), true))
                        },
                    },
                }
            }
        },
        LineTokens::While { .. } => compile_while(fid, lines, i, ret, brk, local_variables, global_table, global_tracker),
        LineTokens::If { .. } => compile_if(fid, lines, i, ret, brk, local_variables, global_table, global_tracker),
    }
}


/// Compiles the loop `lines[i]`.
#[verifier::rlimit(100)]
fn compile_while(
    fid: FunctionID,
    lines: &[LineTokens],
    i: usize,
    ret: &Option<AddressedTypeRef>,
    brk: &Option<String>,
    local_variables: &mut LocalVariableTable,
    global_table: &GlobalTable,
    global_tracker: &mut GlobalTracker,
) -> (r: Result<(Assembly, bool), WErr>)
    requires
        i < lines@.len(),
        lines@[i as int] is While,
        line_ok(*global_table, lines@, i as nat),
        can_compile(*global_table, *ret, *old(local_variables), *old(global_tracker), line_outcome(*global_table, fid, *ret, break_target(*brk), old(local_variables).scopes(), old(local_variables).current_size() as nat, old(global_tracker).tag_counter() as nat, lines@, i as nat)),
        old(global_tracker).tag_counter() + line_tags(lines@, i as nat) <= usize::MAX,
    ensures
        compiled(*old(local_variables), *final(local_variables), *old(global_tracker), *final(global_tracker), line_outcome(*global_table, fid, *ret, break_target(*brk), old(local_variables).scopes(), old(local_variables).current_size() as nat, old(global_tracker).tag_counter() as nat, lines@, i as nat), r),
        scopes_ready(*global_table, final(local_variables).scopes()),
        final(global_tracker).tag_counter() <= old(global_tracker).tag_counter() + line_tags(lines@, i as nat),
    decreases lines@, lines@.len() - i, elif_count(lines@, i as nat) + 2,
{
    let ghost table = *global_table;
    let ghost scopes = local_variables.scopes();
    let ghost size0 = local_variables.current_size() as nat;
    let ghost counter0 = global_tracker.tag_counter();
    proof {
        local_variables.lemma_scopes_match_sizes();
        assert(local_variables.sizes().update(local_variables.sizes().len() - 1, local_variables.current_size()) =~= local_variables.sizes());
    }
    let condition: &EvaluableToken = match &lines[i] {
        LineTokens::While { condition, .. } => condition,
        LineTokens::If { condition, .. } => condition,
        _ => {
            proof {
                assert(false);
            }
            return Ok((String::new(), false));
        },
    };
    let ghost b0 = slot(table, size0, value_ref(bool_type_id()));
    let ghost cond = into_outcome(table, scopes, size0 + table.size_of(value_ref(bool_type_id())), *condition, b0);
    proof {
        lemma_into_grows(table, scopes, size0 + table.size_of(value_ref(bool_type_id())), *condition, b0);
        lemma_ready_less(table, scopes, depth(*condition));
    }
    let start = global_tracker.get_unique_tag(fid);
    let end = global_tracker.get_unique_tag(fid);
    let b = global_table.add_local_variable_unnamed(BoolType::id().immediate_single(), local_variables);
    let rc = compile_evaluable_into(condition, b, local_variables, global_table);
    proof {
        assert(local_variables.sizes() =~= old(local_variables).sizes().update(old(local_variables).sizes().len() - 1, cond.size as usize));
    }
    let c = match rc {
        Ok(c) => c,
        Err(e) => return Err(e),
    };
    let mut test_line = String::from_str("cmp byte ");
    b.address.append_text(&mut test_line);
    test_line.append(", 0");
    let mut start_line = start.clone();
    start_line.append(":");
    let mut jz = String::from_str("jz ");
    jz.append(end.as_str());
    let mut text = AssemblyBuilder::new();
    text.line(start_line.as_str());
    text.other(c.as_str());
    text.line(test_line.as_str());
    text.line(jz.as_str());
    let inner_brk = Some(end.clone());
    let ghost sizes_mid = local_variables.sizes();
    let rb = compile_block(fid, lines, i, ret, &inner_brk, local_variables, global_table, global_tracker);
    proof {
        assert(local_variables.sizes() =~= old(local_variables).sizes().update(old(local_variables).sizes().len() - 1, cond.size as usize));
        assert(local_variables.scopes() =~= scopes);
    }
    let (block_code, _) = match rb {
        Ok(x) => x,
        Err(e) => return Err(e),
    };
    let mut jmp = String::from_str("jmp ");
    jmp.append(start.as_str());
    let mut end_line = end.clone();
    end_line.append(":");
    text.other(block_code.as_str());
    text.line(jmp.as_str());
    text.line(end_line.as_str());
    proof {
        assert(text@ =~= indented_line(start@ + ":"@) + cond.code + indented_line("cmp byte "@ + address_text(b.address) + ", 0"@)
            + indented_line("jz "@ + end@) + block_code@ + indented_line("jmp "@ + start@) + indented_line(end@ + ":"@));
    }
    Ok((text.finish(), false))
}

/// Compiles the conditional `lines[i]`: its condition and first body, then its `elif`
/// and `else` branches.
#[verifier::rlimit(100)]
fn compile_if(
    fid: FunctionID,
    lines: &[LineTokens],
    i: usize,
    ret: &Option<AddressedTypeRef>,
    brk: &Option<String>,
    local_variables: &mut LocalVariableTable,
    global_table: &GlobalTable,
    global_tracker: &mut GlobalTracker,
) -> (r: Result<(Assembly, bool), WErr>)
    requires
        i < lines@.len(),
        lines@[i as int] is If,
        line_ok(*global_table, lines@, i as nat),
        can_compile(*global_table, *ret, *old(local_variables), *old(global_tracker), line_outcome(*global_table, fid, *ret, break_target(*brk), old(local_variables).scopes(), old(local_variables).current_size() as nat, old(global_tracker).tag_counter() as nat, lines@, i as nat)),
        old(global_tracker).tag_counter() + line_tags(lines@, i as nat) <= usize::MAX,
    ensures
        compiled(*old(local_variables), *final(local_variables), *old(global_tracker), *final(global_tracker), line_outcome(*global_table, fid, *ret, break_target(*brk), old(local_variables).scopes(), old(local_variables).current_size() as nat, old(global_tracker).tag_counter() as nat, lines@, i as nat), r),
        scopes_ready(*global_table, final(local_variables).scopes()),
        final(global_tracker).tag_counter() <= old(global_tracker).tag_counter() + line_tags(lines@, i as nat),
    decreases lines@, lines@.len() - i, elif_count(lines@, i as nat) + 2,
{
    let ghost table = *global_table;
    let ghost scopes = local_variables.scopes();
    let ghost size0 = local_variables.current_size() as nat;
    let ghost counter0 = global_tracker.tag_counter();
    proof {
        local_variables.lemma_scopes_match_sizes();
        assert(local_variables.sizes().update(local_variables.sizes().len() - 1, local_variables.current_size()) =~= local_variables.sizes());
    }
    let (condition, more): (&EvaluableToken, bool) = match &lines[i] {
        LineTokens::If { condition, elifs, else_body, .. } => (condition, elifs.len() > 0 || else_body.is_some()),
        _ => {
            proof {
                assert(false);
            }
            return Ok((String::new(), false));
        },
    };
    let ghost b0 = slot(table, size0, value_ref(bool_type_id()));
    let ghost cond = into_outcome(table, scopes, size0 + table.size_of(value_ref(bool_type_id())), *condition, b0);
    proof {
        lemma_into_grows(table, scopes, size0 + table.size_of(value_ref(bool_type_id())), *condition, b0);
        lemma_ready_less(table, scopes, depth(*condition));
    }
    let b = global_table.add_local_variable_unnamed(BoolType::id().immediate_single(), local_variables);
    let rc = compile_evaluable_into(condition, b, local_variables, global_table);
    proof {
        assert(local_variables.sizes() =~= old(local_variables).sizes().update(old(local_variables).sizes().len() - 1, cond.size as usize));
    }
    let c = match rc {
        Ok(c) => c,
        Err(e) => return Err(e),
    };
    let end = global_tracker.get_unique_tag(fid);
    let next = global_tracker.get_unique_tag(fid);
    let mut test_line = String::from_str("cmp byte ");
    b.address.append_text(&mut test_line);
    test_line.append(", 0");
    let mut jz = String::from_str("jz ");
    if more {
        jz.append(next.as_str());
    } else {
        jz.append(end.as_str());
    }
    let mut text = AssemblyBuilder::new();
    text.other(c.as_str());
    text.line(test_line.as_str());
    text.line(jz.as_str());
    let rb = compile_block(fid, lines, i, ret, brk, local_variables, global_table, global_tracker);
    proof {
        assert(local_variables.sizes() =~= old(local_variables).sizes().update(old(local_variables).sizes().len() - 1, cond.size as usize));
        assert(local_variables.scopes() =~= scopes);
    }
    let ghost block = block_outcome(table, fid, *ret, break_target(*brk), scopes, cond.size, counter0 + 2, lines@, i as nat);
    let ghost whole = if_outcome(table, fid, *ret, break_target(*brk), scopes, size0, counter0 as nat, lines@, i as nat, *condition);
    let (block_code, block_return) = match rb {
        Ok(x) => x,
        Err(e) => return Err(e),
    };
    let ghost rest = alternatives_outcome(table, fid, *ret, break_target(*brk), scopes, cond.size, block.counter, lines@, i as nat, 0, end@, next@);
    proof {
        assert(cond.error is None && block.error is None);
        assert(line_outcome(table, fid, *ret, break_target(*brk), scopes, size0, counter0 as nat, lines@, i as nat) == whole);
        assert(whole == (if rest.error is Some {
            stopped(larger(larger(cond.size, block.peak), rest.peak), rest.counter, scopes, rest.size, block.infos + rest.infos, rest.error.unwrap())
        } else {
            LinesOutcome {
                code: cond.code + test_text(b.address, if has_alternatives(lines@, i as nat) { next@ } else { end@ }) + block.code + rest.code,
                last_return: block.last_return && rest.last_return,
                scopes,
                size: rest.size,
                peak: larger(larger(cond.size, block.peak), rest.peak),
                counter: rest.counter,
                infos: block.infos + rest.infos,
                error: None,
            }
        }));
        assert(line_tags(lines@, i as nat) == 2 + body_tags(lines@, i as nat) + alternatives_tags(lines@, i as nat, 0));
    }
    let rr = compile_alternatives(fid, lines, i, 0, &end, &next, ret, brk, local_variables, global_table, global_tracker);
    proof {
        assert(local_variables.scopes() =~= scopes);
        assert(local_variables.sizes() =~= old(local_variables).sizes().update(old(local_variables).sizes().len() - 1, rest.size as usize));
        assert(info_views(old(global_tracker).infos()) + (block.infos + rest.infos)
            =~= (info_views(old(global_tracker).infos()) + block.infos) + rest.infos);
    }
    let (rest_code, rest_return) = match rr {
        Ok(x) => x,
        Err(e) => return Err(e),
    };
    text.other(block_code.as_str());
    text.other(rest_code.as_str());
    proof {
        let target = if more { next@ } else { end@ };
        assert(text@ =~= cond.code + test_text(b.address, target) + block_code@ + rest_code@);
    }
    Ok((text.finish(), block_return && rest_return))
}

/// Compiles the `elif` branches of the conditional `lines[i]` from number `k` on, then its
/// `else`, where `end` tags the end of the conditional and `next` the branch to come.
#[verifier::rlimit(100)]
fn compile_alternatives(
    fid: FunctionID,
    lines: &[LineTokens],
    i: usize,
    k: usize,
    end: &String,
    next: &String,
    ret: &Option<AddressedTypeRef>,
    brk: &Option<String>,
    local_variables: &mut LocalVariableTable,
    global_table: &GlobalTable,
    global_tracker: &mut GlobalTracker,
) -> (r: Result<(Assembly, bool), WErr>)
    requires
        i < lines@.len(),
        lines@[i as int] is If,
        k <= elif_count(lines@, i as nat),
        alternatives_ok(*global_table, lines@, i as nat, k as nat),
        can_compile(*global_table, *ret, *old(local_variables), *old(global_tracker), alternatives_outcome(*global_table, fid, *ret, break_target(*brk), old(local_variables).scopes(), old(local_variables).current_size() as nat, old(global_tracker).tag_counter() as nat, lines@, i as nat, k as nat, end@, next@)),
        old(global_tracker).tag_counter() + alternatives_tags(lines@, i as nat, k as nat) <= usize::MAX,
    ensures
        compiled(*old(local_variables), *final(local_variables), *old(global_tracker), *final(global_tracker), alternatives_outcome(*global_table, fid, *ret, break_target(*brk), old(local_variables).scopes(), old(local_variables).current_size() as nat, old(global_tracker).tag_counter() as nat, lines@, i as nat, k as nat, end@, next@), r),
        scopes_ready(*global_table, final(local_variables).scopes()),
        final(global_tracker).tag_counter() <= old(global_tracker).tag_counter() + alternatives_tags(lines@, i as nat, k as nat),
    decreases lines@, lines@.len() - i, elif_count(lines@, i as nat) - k + 1,
{
    let ghost table = *global_table;
    let ghost scopes = local_variables.scopes();
    let ghost size0 = local_variables.current_size() as nat;
    let ghost counter0 = global_tracker.tag_counter();
    proof {
        local_variables.lemma_scopes_match_sizes();
        assert(local_variables.sizes().update(local_variables.sizes().len() - 1, local_variables.current_size()) =~= local_variables.sizes());
        assert(local_variables.scopes().drop_last() == scopes.drop_last());
    }
    let (elifs, else_body) = match &lines[i] {
        LineTokens::If { elifs, else_body, .. } => (elifs, else_body),
        _ => {
            proof {
                assert(false);
            }
            return Ok((String::new(), false));
        },
    };
    let mut next_line = next.clone();
    next_line.append(":");
    let mut end_line = end.clone();
    end_line.append(":");
    let mut jmp = String::from_str("jmp ");
    jmp.append(end.as_str());
    if k < elifs.len() {
        let condition = &elifs[k].0;
        let body = elifs[k].1.as_slice();
        let next2 = global_tracker.get_unique_tag(fid);
        let ghost b0 = slot(table, size0, value_ref(bool_type_id()));
        let ghost cond = into_outcome(table, scopes, size0 + table.size_of(value_ref(bool_type_id())), *condition, b0);
        proof {
            lemma_into_grows(table, scopes, size0 + table.size_of(value_ref(bool_type_id())), *condition, b0);
            lemma_ready_less(table, scopes, depth(*condition));
        }
        let b = global_table.add_local_variable_unnamed(BoolType::id().immediate_single(), local_variables);
        let rc = compile_evaluable_into(condition, b, local_variables, global_table);
        proof {
            assert(local_variables.sizes() =~= old(local_variables).sizes().update(old(local_variables).sizes().len() - 1, cond.size as usize));
        }
        let c = match rc {
            Ok(c) => c,
            Err(e) => return Err(e),
        };
        let rb = recursively_compile_lines(fid, body, ret, brk, local_variables, global_table, global_tracker);
        proof {
            assert(local_variables.sizes() =~= old(local_variables).sizes().update(old(local_variables).sizes().len() - 1, cond.size as usize));
        }
        let ghost inner = lines_from(table, fid, *ret, break_target(*brk), scopes.push(Map::empty()), cond.size, counter0 + 1, elifs@[k as int].1@, 0);
        let ghost whole = alternatives_outcome(table, fid, *ret, break_target(*brk), scopes, size0, counter0 as nat, lines@, i as nat, k as nat, end@, next@);
        let (body_code, body_return) = match rb {
            Ok(x) => x,
            Err(e) => return Err(e),
        };
        let ghost rest = alternatives_outcome(table, fid, *ret, break_target(*brk), scopes, cond.size, inner.counter, lines@, i as nat, (k + 1) as nat, end@, next2@);
        proof {
            assert(body@ == elifs@[k as int].1@);
            assert(cond.error is None && inner.error is None);
            assert(whole == (if rest.error is Some {
                stopped(larger(larger(cond.size, inner.peak), rest.peak), rest.counter, scopes, rest.size, inner.infos + rest.infos, rest.error.unwrap())
            } else {
                LinesOutcome {
                    code: indented_line("jmp "@ + end@) + indented_line(next@ + ":"@) + cond.code + test_text(b.address, next2@) + inner.code + rest.code,
                    last_return: inner.last_return && rest.last_return,
                    scopes,
                    size: rest.size,
                    peak: larger(larger(cond.size, inner.peak), rest.peak),
                    counter: rest.counter,
                    infos: inner.infos + rest.infos,
                    error: None,
                }
            }));
            assert(local_variables.scopes() == scopes);
            assert(local_variables.current_size() == cond.size);
        }
        let rr = compile_alternatives(fid, lines, i, k + 1, end, &next2, ret, brk, local_variables, global_table, global_tracker);
        proof {
            assert(local_variables.sizes() =~= old(local_variables).sizes().update(old(local_variables).sizes().len() - 1, rest.size as usize));
            assert(info_views(old(global_tracker).infos()) + (inner.infos + rest.infos)
                =~= (info_views(old(global_tracker).infos()) + inner.infos) + rest.infos);
        }
        let (rest_code, rest_return) = match rr {
            Ok(x) => x,
            Err(e) => return Err(e),
        };
        let mut test_line = String::from_str("cmp byte ");
        b.address.append_text(&mut test_line);
        test_line.append(", 0");
        let mut jz = String::from_str("jz ");
        jz.append(next2.as_str());
        let mut text = AssemblyBuilder::new();
        text.line(jmp.as_str());
        text.line(next_line.as_str());
        text.other(c.as_str());
        text.line(test_line.as_str());
        text.line(jz.as_str());
        text.other(body_code.as_str());
        text.other(rest_code.as_str());
        proof {
            assert(text@ =~= indented_line("jmp "@ + end@) + indented_line(next@ + ":"@) + cond.code
                + test_text(b.address, next2@) + body_code@ + rest_code@);
        }
        Ok((text.finish(), body_return && rest_return))
    } else {
        match else_body {
            Some(eb) => {
                let next2 = global_tracker.get_unique_tag(fid);
                let rb = recursively_compile_lines(fid, eb.as_slice(), ret, brk, local_variables, global_table, global_tracker);
                let (body_code, body_return) = match rb {
                    Ok(x) => x,
                    Err(e) => return Err(e),
                };
                let mut next2_line = next2.clone();
                next2_line.append(":");
                let mut text = AssemblyBuilder::new();
                text.line(jmp.as_str());
                text.line(next_line.as_str());
                text.other(body_code.as_str());
                text.line(next2_line.as_str());
                text.line(end_line.as_str());
                proof {
                    assert(text@ =~= indented_line("jmp "@ + end@) + indented_line(next@ + ":"@) + body_code@
                        + indented_line(next2@ + ":"@) + indented_line(end@ + ":"@));
                }
                Ok((text.finish(), body_return))
            },
            None => {
                let mut text = AssemblyBuilder::new();
                text.line(next_line.as_str());
                text.line(end_line.as_str());
                proof {
                    assert(text@ =~= indented_line(next@ + ":"@) + indented_line(end@ + ":"@));
                }
                Ok((text.finish(), false))
            },
        }
    }
}

/// Compiling `lines` as a block: in a new scope that starts at the current stack size and
/// is dropped afterwards, so the scopes and stack size after it are those before it.
pub open spec fn block_lines_outcome(
    table: GlobalTable,
    fid: FunctionID,
    ret: Option<AddressedTypeRef>,
    brk: Option<Seq<char>>,
    scopes: Seq<Map<Seq<char>, AddressedTypeRef>>,
    size: nat,
    counter: nat,
    lines: Seq<LineTokens>,
) -> LinesOutcome {
    let inner = lines_from(table, fid, ret, brk, scopes.push(Map::empty()), size, counter, lines, 0);
    LinesOutcome { scopes, size, ..inner }
}

/// Compiles the statements `lines` of a function body, a loop or a conditional, in a
/// scope of their own, inside function `fid` whose return value goes into `ret`, where a
/// `break` jumps to `break_tag`. Returns the code and whether the last statement compiled
/// returns.
pub fn recursively_compile_lines(
    fid: FunctionID,
    lines: &[LineTokens],
    ret: &Option<AddressedTypeRef>,
    break_tag: &Option<String>,
    local_variables: &mut LocalVariableTable,
    global_table: &GlobalTable,
    global_tracker: &mut GlobalTracker,
) -> (r: Result<(Assembly, bool), WErr>)
    requires
        lines_ok(*global_table, lines@, 0),
        can_compile(*global_table, *ret, *old(local_variables), *old(global_tracker), block_lines_outcome(*global_table, fid, *ret, break_target(*break_tag), old(local_variables).scopes(), old(local_variables).current_size() as nat, old(global_tracker).tag_counter() as nat, lines@)),
        old(global_tracker).tag_counter() + lines_tags(lines@, 0) <= usize::MAX,
    ensures
        compiled(*old(local_variables), *final(local_variables), *old(global_tracker), *final(global_tracker), block_lines_outcome(*global_table, fid, *ret, break_target(*break_tag), old(local_variables).scopes(), old(local_variables).current_size() as nat, old(global_tracker).tag_counter() as nat, lines@), r),
        final(local_variables).scopes() == old(local_variables).scopes(),
        final(local_variables).sizes() == old(local_variables).sizes(),
        final(global_tracker).tag_counter() <= old(global_tracker).tag_counter() + lines_tags(lines@, 0),
    decreases lines@, lines@.len() + 1, 0nat,
{
    let ghost scopes = local_variables.scopes();
    proof {
        lemma_ready_push(*global_table, scopes);
        local_variables.lemma_scopes_match_sizes();
    }
    local_variables.enter_scope();
    let r = compile_lines_from(fid, lines, 0, ret, break_tag, local_variables, global_table, global_tracker);
    proof {
        local_variables.lemma_scopes_match_sizes();
    }
    local_variables.leave_scope();
    proof {
        assert(local_variables.scopes() =~= scopes);
        assert(local_variables.sizes() =~= old(local_variables).sizes());
        assert(old(local_variables).sizes().update(old(local_variables).sizes().len() - 1, old(local_variables).current_size()) =~= old(local_variables).sizes());
    }
    r
}

/// Whether the statements `lines` return on every path: the last one is a `return`, or a
/// conditional with an `else` all of whose branches return on every path. A loop never
/// does, since its body may not run.
pub open spec fn returns_on_every_path(lines: Seq<LineTokens>) -> bool
    decreases lines, elif_count(lines, (lines.len() - 1) as nat) + 3,
{
    if lines.len() == 0 {
        false
    } else {
        statement_returns(lines, (lines.len() - 1) as nat)
    }
}

/// Whether the statement `lines[i]` returns on every path.
pub open spec fn statement_returns(lines: Seq<LineTokens>, i: nat) -> bool
    decreases lines, elif_count(lines, i) + 2,
{
    if i < lines.len() {
        match lines[i as int] {
            LineTokens::Return { .. } => true,
            LineTokens::If { body, .. } => returns_on_every_path(body@) && branches_return(lines, i, 0),
            _ => false,
        }
    } else {
        false
    }
}

/// Whether the `elif` branches of the conditional `lines[i]` from number `k` on, and an
/// `else` it must have, all return on every path.
pub open spec fn branches_return(lines: Seq<LineTokens>, i: nat, k: nat) -> bool
    decreases lines, elif_count(lines, i) - k + 1,
{
    if i < lines.len() && k <= elif_count(lines, i) {
        match lines[i as int] {
            LineTokens::If { elifs, else_body, .. } => if k < elifs@.len() {
                returns_on_every_path(elifs@[k as int].1@) && branches_return(lines, i, k + 1)
            } else {
                match else_body {
                    Some(eb) => returns_on_every_path(eb@),
                    None => false,
                }
            },
            _ => false,
        }
    } else {
        false
    }
}

proof fn lemma_lines_from_returns(
    table: GlobalTable, fid: FunctionID, ret: Option<AddressedTypeRef>, brk: Option<Seq<char>>,
    scopes: Seq<Map<Seq<char>, AddressedTypeRef>>, size: nat, counter: nat, lines: Seq<LineTokens>, i: nat,
)
    ensures
        lines_from(table, fid, ret, brk, scopes, size, counter, lines, i).error is None ==> lines_from(
            table, fid, ret, brk, scopes, size, counter, lines, i,
        ).last_return == (i < lines.len() && statement_returns(lines, (lines.len() - 1) as nat)),
    decreases lines, lines.len() - i, elif_count(lines, i) + 4,
{
    if i < lines.len() {
        lemma_line_returns(table, fid, ret, brk, scopes, size, counter, lines, i);
        let line = line_outcome(table, fid, ret, brk, scopes, size, counter, lines, i);
        if line.error is None && i + 1 < lines.len() {
            lemma_lines_from_returns(table, fid, ret, brk, line.scopes, line.size, line.counter, lines, i + 1);
        }
    }
}

proof fn lemma_line_returns(
    table: GlobalTable, fid: FunctionID, ret: Option<AddressedTypeRef>, brk: Option<Seq<char>>,
    scopes: Seq<Map<Seq<char>, AddressedTypeRef>>, size: nat, counter: nat, lines: Seq<LineTokens>, i: nat,
)
    requires
        i < lines.len(),
    ensures
        line_outcome(table, fid, ret, brk, scopes, size, counter, lines, i).error is None ==> line_outcome(
            table, fid, ret, brk, scopes, size, counter, lines, i,
        ).last_return == statement_returns(lines, i),
    decreases lines, lines.len() - i, elif_count(lines, i) + 3,
{
    match lines[i as int] {
        LineTokens::If { condition, .. } => {
            lemma_if_returns(table, fid, ret, brk, scopes, size, counter, lines, i, condition);
        },
        _ => {},
    }
}

proof fn lemma_if_returns(
    table: GlobalTable, fid: FunctionID, ret: Option<AddressedTypeRef>, brk: Option<Seq<char>>,
    scopes: Seq<Map<Seq<char>, AddressedTypeRef>>, size: nat, counter: nat, lines: Seq<LineTokens>, i: nat,
    condition: EvaluableToken,
)
    requires
        i < lines.len(),
        lines[i as int] is If,
    ensures
        if_outcome(table, fid, ret, brk, scopes, size, counter, lines, i, condition).error is None ==> if_outcome(
            table, fid, ret, brk, scopes, size, counter, lines, i, condition,
        ).last_return == statement_returns(lines, i),
    decreases lines, lines.len() - i, elif_count(lines, i) + 2,
{
    let b = slot(table, size, value_ref(bool_type_id()));
    let cond = into_outcome(table, scopes, size + table.size_of(value_ref(bool_type_id())), condition, b);
    if cond.error is None {
        let end = unique_tag(fid, counter);
        let next = unique_tag(fid, counter + 1);
        let block = block_outcome(table, fid, ret, brk, scopes, cond.size, counter + 2, lines, i);
        match lines[i as int] {
            LineTokens::If { body, .. } => {
                lemma_lines_from_returns(table, fid, ret, brk, scopes.push(Map::empty()), cond.size, counter + 2, body@, 0);
            },
            _ => {},
        }
        if block.error is None {
            lemma_alternatives_returns(table, fid, ret, brk, scopes, cond.size, block.counter, lines, i, 0, end, next);
        }
    }
}

proof fn lemma_alternatives_returns(
    table: GlobalTable, fid: FunctionID, ret: Option<AddressedTypeRef>, brk: Option<Seq<char>>,
    scopes: Seq<Map<Seq<char>, AddressedTypeRef>>, size: nat, counter: nat, lines: Seq<LineTokens>, i: nat,
    k: nat, end: Seq<char>, next: Seq<char>,
)
    requires
        i < lines.len(),
        lines[i as int] is If,
        k <= elif_count(lines, i),
    ensures
        alternatives_outcome(table, fid, ret, brk, scopes, size, counter, lines, i, k, end, next).error is None
            ==> alternatives_outcome(table, fid, ret, brk, scopes, size, counter, lines, i, k, end, next).last_return
            == branches_return(lines, i, k),
    decreases lines, lines.len() - i, elif_count(lines, i) - k + 1,
{
    match lines[i as int] {
        LineTokens::If { elifs, else_body, .. } => {
            if k < elifs@.len() {
                let c = elifs@[k as int].0;
                let body = elifs@[k as int].1;
                let next2 = unique_tag(fid, counter);
                let b = slot(table, size, value_ref(bool_type_id()));
                let cond = into_outcome(table, scopes, size + table.size_of(value_ref(bool_type_id())), c, b);
                if cond.error is None {
                    lemma_lines_from_returns(table, fid, ret, brk, scopes.push(Map::empty()), cond.size, counter + 1, body@, 0);
                    let inner = lines_from(table, fid, ret, brk, scopes.push(Map::empty()), cond.size, counter + 1, body@, 0);
                    assert(returns_on_every_path(body@) == (0 < body@.len() && statement_returns(body@, (body@.len() - 1) as nat)));
                    assert(branches_return(lines, i, k) == (returns_on_every_path(body@) && branches_return(lines, i, k + 1)));
                    if inner.error is None {
                        lemma_alternatives_returns(table, fid, ret, brk, scopes, cond.size, inner.counter, lines, i, k + 1, end, next2);
                    }
                }
            } else {
                match else_body {
                    Some(eb) => {
                        lemma_lines_from_returns(table, fid, ret, brk, scopes.push(Map::empty()), size, counter + 1, eb@, 0);
                        assert(returns_on_every_path(eb@) == (0 < eb@.len() && statement_returns(eb@, (eb@.len() - 1) as nat)));
                        assert(branches_return(lines, i, k) == returns_on_every_path(eb@));
                    },
                    None => {},
                }
            }
        },
        _ => {},
    }
}

/// A block of statements counts as returning on every path exactly when it does: its last
/// statement is a `return`, or a conditional with an `else` whose every branch returns on
/// every path. A loop, a conditional without `else`, or one with a branch that can end
/// without returning does not count, so a function ending in one gets its implicit return
/// or, where it must return a value, an error.
pub proof fn block_returns_exactly_when_every_path_returns(
    table: GlobalTable, fid: FunctionID, ret: Option<AddressedTypeRef>, brk: Option<Seq<char>>,
    scopes: Seq<Map<Seq<char>, AddressedTypeRef>>, size: nat, counter: nat, lines: Seq<LineTokens>,
)
    ensures
        block_lines_outcome(table, fid, ret, brk, scopes, size, counter, lines).error is None
            ==> block_lines_outcome(table, fid, ret, brk, scopes, size, counter, lines).last_return
            == returns_on_every_path(lines),
{
    lemma_lines_from_returns(table, fid, ret, brk, scopes.push(Map::empty()), size, counter, lines, 0);
}

} // verus!
