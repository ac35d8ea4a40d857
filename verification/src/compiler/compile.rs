//! The order in which functions are compiled, and the assembly of the whole program.
//!
//! Compilation starts with `main`; every function a compiled function calls is queued in
//! turn, until nothing is left to compile.

use vstd::prelude::*;
use vstd::string::StringExecFns;
use crate::assembler::Assembly;
use crate::common::{FunctionID, Indirection, TypeRef};
use crate::ast::evaluable::FunctionToken;
use crate::builtin::types::boolean::bool_type_id;
use crate::builtin::types::integer::int_type_id;
use crate::compiler::compile_function::{body_outcome, compile_function, function_result, function_text, signature_ok};
use crate::compiler::compile_lines::{lines_ok, lines_tags};
use crate::compiler::evaluation::evaluate::error_is;
use crate::compiler::global_table::GlobalTable;
use crate::compiler::global_tracker::GlobalTracker;
use crate::errors::{CompErrs, ErrorKind, WErr};

verus! {

/// The functions still to compile and those already compiled, with their assembly.
pub struct CompileQueue {
    open: Vec<FunctionID>,
    compiled: Vec<(FunctionID, Assembly)>,
    compiled_count: usize,
    taken: Ghost<Set<FunctionID>>,
    calls: Ghost<Map<FunctionID, Set<FunctionID>>>,
}

/// The text every program starts with.
pub open spec fn program_header() -> Seq<char> {
    "    global main\n\nsection .text\n\n"@
}

/// The compiled functions one after the other, each followed by a blank line.
pub open spec fn functions_text(compiled: Seq<(FunctionID, Seq<char>)>) -> Seq<char>
    decreases compiled.len(),
{
    if compiled.len() == 0 {
        Seq::empty()
    } else {
        functions_text(compiled.drop_last()) + compiled.last().1 + "\n\n"@
    }
}

/// The read-only data section of a program, absent when there is no data.
pub open spec fn data_text(readonly: Seq<char>) -> Seq<char> {
    if readonly.len() == 0 {
        Seq::empty()
    } else {
        "section .data_readonly"@ + readonly
    }
}

impl CompileQueue {
    /// Functions waiting to be compiled.
    pub closed spec fn open_ids(&self) -> Set<FunctionID> {
        self.open@.to_set()
    }

    /// Compiled functions and their assembly, in the order they were compiled.
    pub closed spec fn compiled_functions(&self) -> Seq<(FunctionID, Seq<char>)> {
        self.compiled@.map_values(|c: (FunctionID, Assembly)| (c.0, c.1@))
    }

    /// The ids of the compiled functions, in the order they were compiled.
    pub open spec fn compiled_ids(&self) -> Seq<FunctionID> {
        self.compiled_functions().map_values(|c: (FunctionID, Seq<char>)| c.0)
    }

    /// Every function handed out for compilation so far.
    pub closed spec fn taken_ids(&self) -> Set<FunctionID> {
        self.taken@
    }

    /// The functions each compiled function calls.
    pub closed spec fn call_graph(&self) -> Map<FunctionID, Set<FunctionID>> {
        self.calls@
    }

    /// Number of functions waiting to be compiled.
    pub closed spec fn waiting(&self) -> nat {
        self.open@.len()
    }

    /// Number of functions handed out so far, counting a function each time.
    pub closed spec fn handed_out(&self) -> nat {
        self.compiled_count as nat
    }

    /// Nothing is queued twice, nothing compiled is queued, nothing is compiled twice,
    /// and every function a compiled function calls is queued or was handed out.
    pub closed spec fn wf(&self) -> bool {
        &&& self.open@.no_duplicates()
        &&& self.compiled_ids().no_duplicates()
        &&& forall|i: int| 0 <= i < self.compiled@.len() ==> !self.open@.contains(
            #[trigger] self.compiled@[i].0,
        )
        &&& forall|i: int| 0 <= i < self.compiled@.len() ==> self.taken@.contains(
            #[trigger] self.compiled@[i].0,
        )
        &&& self.calls@.dom() == self.compiled_ids().to_set()
        &&& forall|f: FunctionID, c: FunctionID|
            #![trigger self.calls@[f].contains(c)]
            self.calls@.dom().contains(f) && self.calls@[f].contains(c) ==> self.open@.contains(c)
                || self.taken@.contains(c)
    }

    /// A queue holding only `main`.
    pub fn new() -> (q: CompileQueue)
        ensures
            q.wf(),
            q.open_ids() == set![FunctionID(0)],
            q.compiled_functions() == Seq::<(FunctionID, Seq<char>)>::empty(),
            q.taken_ids() == Set::<FunctionID>::empty(),
            q.handed_out() == 0,
            q.waiting() == 1,
    {
        let mut open: Vec<FunctionID> = Vec::new();
        open.push(FunctionID::main_function());
        let q = CompileQueue {
            open,
            compiled: Vec::new(),
            compiled_count: 0,
            taken: Ghost(Set::empty()),
            calls: Ghost(Map::empty()),
        };
        proof {
            assert(q.open@.to_set() =~= set![FunctionID(0)]) by {
                assert(q.open@[0] == FunctionID(0));
                assert(q.open@.contains(FunctionID(0)));
                assert forall|x: FunctionID| q.open@.contains(x) implies x == FunctionID(0) by {
                    let k = choose|k: int| 0 <= k < q.open@.len() && q.open@[k] == x;
                    assert(k == 0);
                }
            }
            assert(q.compiled_functions() =~= Seq::<(FunctionID, Seq<char>)>::empty());
            assert(q.compiled_ids() =~= Seq::<FunctionID>::empty());
            assert(q.calls@.dom() =~= q.compiled_ids().to_set());
        }
        q
    }

    /// Hands out a function still to compile, or `None` when nothing is left.
    pub fn next_function(&mut self) -> (r: Option<FunctionID>)
        requires
            old(self).wf(),
            old(self).handed_out() < usize::MAX,
        ensures
            final(self).wf(),
            final(self).compiled_functions() == old(self).compiled_functions(),
            final(self).call_graph() == old(self).call_graph(),
            match r {
                None => {
                    &&& old(self).open_ids() == Set::<FunctionID>::empty()
                    &&& final(self).waiting() == old(self).waiting()
                    &&& final(self).open_ids() == old(self).open_ids()
                    &&& final(self).taken_ids() == old(self).taken_ids()
                    &&& final(self).handed_out() == old(self).handed_out()
                },
                Some(f) => {
                    &&& old(self).open_ids().contains(f)
                    &&& final(self).open_ids() == old(self).open_ids().remove(f)
                    &&& final(self).taken_ids() == old(self).taken_ids().insert(f)
                    &&& final(self).handed_out() == old(self).handed_out() + 1
                    &&& final(self).waiting() + 1 == old(self).waiting()
                },
            },
    {
        if self.open.len() == 0 {
            proof {
                assert(self.open@.to_set() =~= Set::<FunctionID>::empty());
            }
            return None;
        }
        let ghost before = self.open@;
        let f = self.open.pop().unwrap();
        self.compiled_count = self.compiled_count + 1;
        self.taken = Ghost(self.taken@.insert(f));
        proof {
            assert(before =~= self.open@.push(f));
            assert(before.contains(f)) by {
                assert(before[before.len() - 1] == f);
            }
            assert forall|x: FunctionID| self.open@.to_set().contains(x) <==> before.to_set().remove(
                f,
            ).contains(x) by {
                if self.open@.contains(x) {
                    let k = choose|k: int| 0 <= k < self.open@.len() && self.open@[k] == x;
                    assert(before[k] == x);
                    assert(x != f) by {
                        assert(before[k] != before[before.len() - 1]);
                    }
                }
                if before.contains(x) && x != f {
                    let k = choose|k: int| 0 <= k < before.len() && before[k] == x;
                    assert(k < before.len() - 1);
                    assert(self.open@[k] == x);
                }
            }
            assert(self.open@.to_set() =~= before.to_set().remove(f));
            assert forall|i: int| 0 <= i < self.compiled@.len() implies !self.open@.contains(
                #[trigger] self.compiled@[i].0,
            ) by {
                if self.open@.contains(self.compiled@[i].0) {
                    let k = choose|k: int|
                        0 <= k < self.open@.len() && self.open@[k] == self.compiled@[i].0;
                    assert(before[k] == self.compiled@[i].0);
                }
            }
            assert forall|g: FunctionID, c: FunctionID|
                #![trigger self.calls@[g].contains(c)]
                self.calls@.dom().contains(g) && self.calls@[g].contains(c) implies self.open@.contains(c)
                    || self.taken@.contains(c) by {
                if before.contains(c) && c != f {
                    let k = choose|k: int| 0 <= k < before.len() && before[k] == c;
                    assert(k < before.len() - 1);
                    assert(self.open@[k] == c);
                }
            }
        }
        Some(f)
    }

    /// Whether `f` has been compiled.
    fn is_compiled(&self, f: FunctionID) -> (r: bool)
        ensures
            r == self.compiled_ids().contains(f),
    {
        let mut i: usize = 0;
        while i < self.compiled.len()
            invariant
                i <= self.compiled@.len(),
                forall|j: int| 0 <= j < i ==> self.compiled@[j].0 != f,
            decreases self.compiled@.len() - i,
        {
            if self.compiled[i].0 == f {
                proof {
                    assert(self.compiled_ids()[i as int] == f);
                }
                return true;
            }
            i = i + 1;
        }
        proof {
            if self.compiled_ids().contains(f) {
                let k = choose|k: int| 0 <= k < self.compiled_ids().len() && self.compiled_ids()[k] == f;
                assert(self.compiled@[k].0 == f);
            }
        }
        false
    }

    /// Whether `f` is waiting to be compiled.
    fn is_open(&self, f: FunctionID) -> (r: bool)
        ensures
            r == self.open@.contains(f),
    {
        let mut i: usize = 0;
        while i < self.open.len()
            invariant
                i <= self.open@.len(),
                forall|j: int| 0 <= j < i ==> self.open@[j] != f,
            decreases self.open@.len() - i,
        {
            if self.open[i] == f {
                return true;
            }
            i = i + 1;
        }
        false
    }

    /// Records the assembly of the function `f`, just handed out, and queues every function
    /// it calls that is not compiled yet.
    pub fn function_compiled(&mut self, f: FunctionID, assembly: Assembly, calls: &[FunctionID])
        requires
            old(self).wf(),
            old(self).taken_ids().contains(f),
            !old(self).open_ids().contains(f),
            !old(self).compiled_ids().contains(f),
        ensures
            final(self).wf(),
            final(self).compiled_functions() == old(self).compiled_functions().push((f, assembly@)),
            final(self).open_ids() == old(self).open_ids().union(
                calls@.to_set().filter(|c: FunctionID| !final(self).compiled_ids().contains(c)),
            ),
            final(self).call_graph() == old(self).call_graph().insert(f, calls@.to_set()),
            final(self).taken_ids() == old(self).taken_ids(),
            final(self).handed_out() == old(self).handed_out(),
            calls@.len() == 0 ==> final(self).waiting() == old(self).waiting(),
    {
        let ghost old_ids = self.compiled_ids();
        let ghost old_open = self.open@;
        self.compiled.push((f, assembly));
        self.calls = Ghost(self.calls@.insert(f, calls@.to_set()));
        let ghost new_ids = self.compiled_ids();
        proof {
            assert(new_ids =~= old_ids.push(f));
            assert forall|a: int, b: int| 0 <= a < b < new_ids.len() implies new_ids[a] != new_ids[b] by {
                if b == new_ids.len() - 1 {
                    assert(old_ids.contains(new_ids[a]));
                }
            }
            old_ids.lemma_push_to_set_commute(f);
            assert(self.calls@.dom() =~= new_ids.to_set());
            assert forall|i: int| 0 <= i < self.compiled@.len() implies !self.open@.contains(
                #[trigger] self.compiled@[i].0,
            ) by {
                if i < self.compiled@.len() - 1 {
                    assert(old(self).compiled@[i] == self.compiled@[i]);
                }
            }
        }
        let mut k: usize = 0;
        while k < calls.len()
            invariant
                k <= calls@.len(),
                self.compiled@ == old(self).compiled@.push((f, assembly)),
                self.compiled_ids() == new_ids,
                new_ids == old_ids.push(f),
                old_ids == old(self).compiled_ids(),
                old_open == old(self).open@,
                calls@.len() == 0 ==> self.open@ == old_open,
                new_ids.no_duplicates(),
                self.calls@ == old(self).calls@.insert(f, calls@.to_set()),
                self.calls@.dom() == new_ids.to_set(),
                self.taken@ == old(self).taken@,
                self.compiled_count == old(self).compiled_count,
                self.taken@.contains(f),
                self.open@.no_duplicates(),
                forall|i: int| 0 <= i < self.compiled@.len() ==> !self.open@.contains(
                    #[trigger] self.compiled@[i].0,
                ),
                forall|i: int| 0 <= i < self.compiled@.len() ==> self.taken@.contains(
                    #[trigger] self.compiled@[i].0,
                ),
                forall|x: FunctionID| #[trigger] self.open@.contains(x) <==> (old_open.contains(x) || (
                    calls@.take(k as int).contains(x) && !new_ids.contains(x))),
                forall|g: FunctionID, c: FunctionID|
                    #![trigger old(self).calls@[g].contains(c)]
                    old(self).calls@.dom().contains(g) && old(self).calls@[g].contains(c)
                        ==> old_open.contains(c) || self.taken@.contains(c),
            decreases calls@.len() - k,
        {
            let c = calls[k];
            let ghost open_before = self.open@;
            proof {
                assert(calls@.take(k + 1) =~= calls@.take(k as int).push(c));
                assert forall|x: FunctionID| #[trigger] calls@.take(k + 1).contains(x) <==> (
                    calls@.take(k as int).contains(x) || x == c) by {
                    let pre = calls@.take(k as int);
                    let post = calls@.take(k + 1);
                    if post.contains(x) && x != c {
                        let j = choose|j: int| 0 <= j < post.len() && post[j] == x;
                        assert(j < k);
                        assert(pre[j] == x);
                    }
                    if pre.contains(x) {
                        let j = choose|j: int| 0 <= j < pre.len() && pre[j] == x;
                        assert(post[j] == x);
                    }
                    if x == c {
                        assert(post[k as int] == c);
                    }
                }
                if new_ids.contains(c) {
                    let j = choose|j: int| 0 <= j < new_ids.len() && new_ids[j] == c;
                    assert(self.compiled@[j].0 == c);
                    assert(!self.open@.contains(c));
                    if j < old_ids.len() {
                        assert(old_ids[j] == c);
                        assert(old(self).compiled@[j].0 == c);
                        assert(!old_open.contains(c));
                    } else {
                        assert(c == f);
                    }
                }
            }
            let compiled_c = self.is_compiled(c);
            let open_c = self.is_open(c);
            if !compiled_c && !open_c {
                let ghost before = self.open@;
                self.open.push(c);
                proof {
                    assert forall|a: int, b: int|
                        0 <= a < b < self.open@.len() implies self.open@[a] != self.open@[b] by {
                        if b == self.open@.len() - 1 {
                            assert(before.contains(self.open@[a]));
                        }
                    }
                    assert forall|x: FunctionID| self.open@.contains(x) <==> before.contains(x) || x
                        == c by {
                        if self.open@.contains(x) && x != c {
                            let j = choose|j: int| 0 <= j < self.open@.len() && self.open@[j] == x;
                            assert(before[j] == x);
                        }
                        if before.contains(x) {
                            let j = choose|j: int| 0 <= j < before.len() && before[j] == x;
                            assert(self.open@[j] == x);
                        }
                        if x == c {
                            assert(self.open@[self.open@.len() - 1] == c);
                        }
                    }
                    assert forall|i: int| 0 <= i < self.compiled@.len() implies !self.open@.contains(
                        #[trigger] self.compiled@[i].0,
                    ) by {
                        assert(new_ids[i] == self.compiled@[i].0);
                    }
                }
            }
            proof {
                assert forall|x: FunctionID| #[trigger] self.open@.contains(x) <==> (old_open.contains(x)
                    || (calls@.take(k + 1).contains(x) && !new_ids.contains(x))) by {
                    assert(open_before.contains(x) <==> (old_open.contains(x) || (calls@.take(
                        k as int,
                    ).contains(x) && !new_ids.contains(x))));
                    assert(calls@.take(k + 1).contains(x) <==> (calls@.take(k as int).contains(x) || x
                        == c));
                    if !compiled_c && !open_c {
                        assert(self.open@.contains(x) <==> (open_before.contains(x) || x == c));
                    } else {
                        assert(self.open@ == open_before);
                    }
                }
            }
            k = k + 1;
        }
        proof {
            assert(calls@.take(calls@.len() as int) =~= calls@);
            let target = old(self).open_ids().union(
                calls@.to_set().filter(|c: FunctionID| !new_ids.contains(c)),
            );
            assert(self.open@.to_set() =~= target);
            assert forall|g: FunctionID, c: FunctionID|
                #![trigger self.calls@[g].contains(c)]
                self.calls@.dom().contains(g) && self.calls@[g].contains(c) implies self.open@.contains(c)
                    || self.taken@.contains(c) by {
                if g == f {
                    assert(calls@.contains(c));
                    if new_ids.contains(c) {
                        let j = choose|j: int| 0 <= j < new_ids.len() && new_ids[j] == c;
                        assert(self.compiled@[j].0 == c);
                    }
                } else {
                    assert(old(self).calls@[g] == self.calls@[g]);
                    assert(old(self).calls@[g].contains(c));
                }
            }
        }
    }

    /// Progress so far: functions handed out, and those plus the functions waiting.
    pub fn progress(&self) -> (r: (usize, usize))
        requires
            self.handed_out() + self.open_ids().len() <= usize::MAX,
            self.wf(),
        ensures
            r.0 == self.handed_out(),
            r.1 == self.handed_out() + self.open_ids().len(),
    {
        proof {
            self.open@.unique_seq_to_set();
        }
        (self.compiled_count, self.open.len() + self.compiled_count)
    }

    /// The assembly of the whole program: the header, every compiled function, then the
    /// read-only data.
    pub fn program_assembly(&self, readonly: &str) -> (a: Assembly)
        ensures
            a@ == program_header() + functions_text(self.compiled_functions()) + data_text(readonly@),
    {
        let mut text = String::new();
        text.append("    global main\n\nsection .text\n\n");
        let ghost head = text@;
        let mut i: usize = 0;
        while i < self.compiled.len()
            invariant
                i <= self.compiled@.len(),
                head == program_header(),
                text@ == head + functions_text(self.compiled_functions().take(i as int)),
            decreases self.compiled@.len() - i,
        {
            text.append(self.compiled[i].1.as_str());
            text.append("\n\n");
            proof {
                let cf = self.compiled_functions();
                assert(cf.take(i + 1).drop_last() =~= cf.take(i as int));
                assert(cf.take(i + 1).last() == cf[i as int]);
                assert(head + functions_text(cf.take(i as int)) + cf[i as int].1 + "\n\n"@ =~= head
                    + functions_text(cf.take(i + 1)));
            }
            i = i + 1;
        }
        proof {
            assert(self.compiled_functions().take(i as int) =~= self.compiled_functions());
        }
        if readonly.unicode_len() > 0 {
            text.append("section .data_readonly");
            text.append(readonly);
            proof {
                assert(text@ =~= program_header() + functions_text(self.compiled_functions())
                    + data_text(readonly@));
            }
        } else {
            proof {
                assert(text@ =~= program_header() + functions_text(self.compiled_functions())
                    + data_text(readonly@));
            }
        }
        text
    }
}

/// The index of the first of `functions` from index `i` on whose id is `f`.
pub open spec fn first_token(functions: Seq<FunctionToken>, f: FunctionID, i: nat) -> Option<nat>
    decreases functions.len() - i,
{
    if i >= functions.len() {
        None
    } else if functions[i as int].id == f {
        Some(i)
    } else {
        first_token(functions, f, i + 1)
    }
}

/// The first token found has the id looked for, at an index past where the search began.
proof fn lemma_first_token(functions: Seq<FunctionToken>, f: FunctionID, i: nat)
    ensures
        first_token(functions, f, i) matches Some(k) ==> i <= k < functions.len() && functions[k as int].id == f,
    decreases functions.len() - i,
{
    if i < functions.len() && functions[i as int].id != f {
        lemma_first_token(functions, f, i + 1);
    }
}

/// Finds the first of `functions` whose id is `f`.
fn find_token(functions: &[FunctionToken], f: FunctionID) -> (r: Option<usize>)
    ensures
        match first_token(functions@, f, 0) {
            Some(k) => r == Some(k as usize),
            None => r is None,
        },
{
    let mut i: usize = 0;
    while i < functions.len()
        invariant
            i <= functions@.len(),
            first_token(functions@, f, 0) == first_token(functions@, f, i as nat),
        decreases functions@.len() - i,
    {
        if functions[i].id == f {
            return Some(i);
        }
        i = i + 1;
    }
    None
}

/// Whether the function `functions[k]`, compiled as `main`, is one the compiler can take
/// with the tag counter at `counter`.
pub open spec fn main_ok(table: GlobalTable, functions: Seq<FunctionToken>, k: nat, counter: nat) -> bool {
    let t = functions[k as int];
    &&& signature_ok(table, t.parameters@, t.return_type)
    &&& lines_ok(table, t.lines@, 0)
    &&& counter + lines_tags(t.lines@, 0) <= usize::MAX
    &&& body_outcome(table, FunctionID(0), t.parameters@, t.return_type, t.lines@, counter).peak <= isize::MAX
}

/// What compiling a program whose functions make no calls gives: `main` compiled (the
/// first of `functions` with id `0`, if any), between the program header and the
/// read-only data.
pub open spec fn program_result(
    table: GlobalTable,
    functions: Seq<FunctionToken>,
    counter: nat,
    readonly: Seq<char>,
    r: Result<Assembly, WErr>,
) -> bool {
    match first_token(functions, FunctionID(0), 0) {
        None => r matches Ok(a) && a@ == program_header() + data_text(readonly),
        Some(k) => {
            let t = functions[k as int];
            let body = body_outcome(table, FunctionID(0), t.parameters@, t.return_type, t.lines@, counter);
            if body.error is None && body.last_return {
                r matches Ok(a) && a@ == program_header() + function_text(FunctionID(0), body.code, true)
                    + "\n\n"@ + data_text(readonly)
            } else {
                function_result(table, FunctionID(0), t.parameters@, t.return_type, t.lines@, counter, t.end_location, r)
            }
        },
    }
}

/// Compiles the program `functions`: starting with `main`, each function handed out by
/// the queue is compiled and the functions it calls are queued, until none is left; then
/// the program's assembly is put together.
pub fn compile(
    functions: &[FunctionToken],
    global_table: &GlobalTable,
    global_tracker: &mut GlobalTracker,
) -> (r: Result<Assembly, WErr>)
    requires
        global_table.has_type(int_type_id()),
        global_table.has_type(bool_type_id()),
        old(global_tracker).wf(),
        first_token(functions@, FunctionID(0), 0) matches Some(k) ==> main_ok(*global_table, functions@, k, old(global_tracker).tag_counter() as nat),
    ensures
        program_result(*global_table, functions@, old(global_tracker).tag_counter() as nat, old(global_tracker).readonly_section(), r),
{
    let ghost counter0 = global_tracker.tag_counter() as nat;
    let ghost readonly0 = global_tracker.readonly_section();
    let mut queue = CompileQueue::new();
    let ghost mut main_done = false;
    proof {
        lemma_first_token(functions@, FunctionID(0), 0);
    }
    loop
        invariant
            global_table.has_type(int_type_id()),
            global_table.has_type(bool_type_id()),
            queue.wf(),
            global_tracker.wf(),
            global_tracker.readonly_section() == readonly0,
            counter0 == old(global_tracker).tag_counter() as nat,
            readonly0 == old(global_tracker).readonly_section(),
            queue.handed_out() + queue.waiting() <= 1,
            !main_done ==> queue.open_ids() == set![FunctionID(0)] && queue.compiled_functions() == Seq::<(FunctionID, Seq<char>)>::empty()
                && global_tracker.tag_counter() == counter0,
            main_done ==> queue.waiting() == 0,
            main_done ==> match first_token(functions@, FunctionID(0), 0) {
                None => queue.compiled_functions() == Seq::<(FunctionID, Seq<char>)>::empty(),
                Some(k) => {
                    let t = functions@[k as int];
                    let body = body_outcome(*global_table, FunctionID(0), t.parameters@, t.return_type, t.lines@, counter0);
                    &&& body.error is None
                    &&& body.last_return
                    &&& queue.compiled_functions() == seq![(FunctionID(0), function_text(FunctionID(0), body.code, true))]
                },
            },
            first_token(functions@, FunctionID(0), 0) matches Some(k) ==> main_ok(*global_table, functions@, k, counter0),
        ensures
            main_done,
            queue.wf(),
            global_tracker.readonly_section() == readonly0,
            main_done ==> match first_token(functions@, FunctionID(0), 0) {
                None => queue.compiled_functions() == Seq::<(FunctionID, Seq<char>)>::empty(),
                Some(k) => {
                    let t = functions@[k as int];
                    let body = body_outcome(*global_table, FunctionID(0), t.parameters@, t.return_type, t.lines@, counter0);
                    &&& body.error is None
                    &&& body.last_return
                    &&& queue.compiled_functions() == seq![(FunctionID(0), function_text(FunctionID(0), body.code, true))]
                },
            },
        decreases queue.waiting(),
    {
        global_tracker.reset_functions();
        let f = match queue.next_function() {
            Some(f) => f,
            None => {
            proof {
                if !main_done {
                    assert(set![FunctionID(0)].contains(FunctionID(0)));
                }
            }
            break;
        },
        };
        proof {
            if main_done {
                assert(false);
            }
            assert(set![FunctionID(0)].contains(f));
            assert(f == FunctionID(0));
            lemma_first_token(functions@, FunctionID(0), 0);
        }
        let k = match find_token(functions, f) {
            Some(k) => k,
            None => {
                proof {
                    main_done = true;
                }
                continue;
            },
        };
        let t = &functions[k];
        let ghost body = body_outcome(*global_table, FunctionID(0), t.parameters@, t.return_type, t.lines@, counter0);
        let parameters = t.parameters.as_slice();
        let lines = t.lines.as_slice();
        assert(parameters@ == t.parameters@);
        assert(lines@ == t.lines@);
        let compiled = compile_function(FunctionID(0), parameters, t.return_type, lines, t.end_location, global_table, global_tracker);
        assert(functions@[k as int] == *t);
        assert(function_result(*global_table, FunctionID(0), t.parameters@, t.return_type, t.lines@, counter0, t.end_location, compiled));
        let text = match compiled {
            Ok(text) => text,
            Err(e) => {
                proof {
                    assert(first_token(functions@, FunctionID(0), 0) == Some(k as nat));
                    assert(program_result(*global_table, functions@, counter0, readonly0, Err(e)));
                }
                return Err(e);
            },
        };
        let calls = global_tracker.function_calls();
        proof {
            if calls@.len() > 0 {
                assert(calls@.to_set().contains(calls@[0]));
            }
            assert(set![FunctionID(0)].remove(FunctionID(0)) =~= Set::<FunctionID>::empty());
            main_done = true;
        }
        queue.function_compiled(f, text, calls.as_slice());
        proof {
            assert(queue.compiled_functions() =~= seq![(FunctionID(0), function_text(FunctionID(0),
                body_outcome(*global_table, FunctionID(0), t.parameters@, t.return_type, t.lines@, counter0).code, true))]);
        }
    }
    let readonly = global_tracker.readonly_data_section().as_str();
    assert(readonly@ == readonly0);
    let text = queue.program_assembly(readonly);
    proof {
        reveal_with_fuel(functions_text, 2);
        match first_token(functions@, FunctionID(0), 0) {
            None => {
                assert(text@ =~= program_header() + data_text(readonly0));
            },
            Some(k) => {
                let t = functions@[k as int];
                let body = body_outcome(*global_table, FunctionID(0), t.parameters@, t.return_type, t.lines@, counter0);
                let one = seq![(FunctionID(0), function_text(FunctionID(0), body.code, true))];
                assert(one.drop_last() =~= Seq::<(FunctionID, Seq<char>)>::empty());
                assert(main_done);
                assert(queue.compiled_functions() == one);
                assert(functions_text(one.drop_last()) =~= Seq::<char>::empty());
                assert(functions_text(one) == functions_text(one.drop_last()) + one.last().1 + "\n\n"@);
                assert(functions_text(one) =~= function_text(FunctionID(0), body.code, true) + "\n\n"@);
                assert(text@ =~= program_header() + function_text(FunctionID(0), body.code, true) + "\n\n"@
                    + data_text(readonly0));
            },
        }
    }
    Ok(text)
}

/// No function is compiled twice.
pub proof fn functions_compiled_once(q: CompileQueue)
    requires
        q.wf(),
    ensures
        q.compiled_ids().no_duplicates(),
{
}

/// Once nothing is left to compile, every function that a compiled function calls has
/// been handed out for compilation: none is forgotten.
pub proof fn called_functions_are_handed_out(q: CompileQueue, f: FunctionID, c: FunctionID)
    requires
        q.wf(),
        q.open_ids() == Set::<FunctionID>::empty(),
        q.call_graph().dom().contains(f),
        q.call_graph()[f].contains(c),
    ensures
        q.taken_ids().contains(c),
{
    assert(!q.open_ids().contains(c));
}

} // verus!
