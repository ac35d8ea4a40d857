//! Function-local table of defined variables, organised in nested scopes.

use vstd::prelude::*;
use crate::common::{AddressedTypeRef, ByteSize, LocalAddress};
use crate::text::str_equal;

verus! {

/// Function-local table of defined variables. Only used within function processing.
pub struct LocalVariableTable {
    table: Vec<Vec<(String, AddressedTypeRef)>>,
    stack_size: Vec<ByteSize>,
}

/// The variables of one scope: later entries override earlier ones with the same name.
pub open spec fn scope_map(entries: Seq<(String, AddressedTypeRef)>) -> Map<
    Seq<char>,
    AddressedTypeRef,
>
    decreases entries.len(),
{
    if entries.len() == 0 {
        Map::empty()
    } else {
        scope_map(entries.drop_last()).insert(entries.last().0@, entries.last().1)
    }
}

/// Looks a name up from the innermost scope outwards.
pub open spec fn lookup(scopes: Seq<Map<Seq<char>, AddressedTypeRef>>, name: Seq<char>) -> Option<
    AddressedTypeRef,
>
    decreases scopes.len(),
{
    if scopes.len() == 0 {
        None
    } else if scopes.last().dom().contains(name) {
        Some(scopes.last()[name])
    } else {
        lookup(scopes.drop_last(), name)
    }
}

impl Default for LocalVariableTable {
    fn default() -> (t: Self)
        ensures
            t.wf(),
            t.scopes() == seq![Map::<Seq<char>, AddressedTypeRef>::empty()],
            t.sizes() == seq![0usize],
    {
        Self::new()
    }
}

impl LocalVariableTable {
    /// The variables of each scope, outermost first.
    pub closed spec fn scopes(&self) -> Seq<Map<Seq<char>, AddressedTypeRef>> {
        Seq::new(self.table@.len(), |i: int| scope_map(self.table@[i]@))
    }

    /// The stack size reached in each scope, outermost first.
    pub closed spec fn sizes(&self) -> Seq<usize> {
        Seq::new(self.stack_size@.len(), |i: int| self.stack_size@[i].0)
    }

    /// Each scope has its own stack size.
    pub closed spec fn wf(&self) -> bool {
        self.table@.len() == self.stack_size@.len()
    }

    /// A well-formed table has one stack size per scope.
    pub proof fn lemma_scopes_match_sizes(&self)
        requires
            self.wf(),
        ensures
            self.scopes().len() == self.sizes().len(),
    {
    }

    /// The stack size of the innermost scope.
    pub open spec fn current_size(&self) -> usize {
        self.sizes().last()
    }

    /// A table with one empty scope and an empty stack.
    pub fn new() -> (t: LocalVariableTable)
        ensures
            t.wf(),
            t.scopes() == seq![Map::<Seq<char>, AddressedTypeRef>::empty()],
            t.sizes() == seq![0usize],
    {
        let mut table: Vec<Vec<(String, AddressedTypeRef)>> = Vec::new();
        table.push(Vec::new());
        let mut stack_size: Vec<ByteSize> = Vec::new();
        stack_size.push(ByteSize(0));
        let t = LocalVariableTable { table, stack_size };
        proof {
            assert(scope_map(t.table@[0]@) =~= Map::<Seq<char>, AddressedTypeRef>::empty());
            assert(t.scopes() =~= seq![Map::<Seq<char>, AddressedTypeRef>::empty()]);
            assert(t.sizes() =~= seq![0usize]);
        }
        t
    }

    /// The stack size of the innermost scope.
    pub fn stack_size(&self) -> (s: ByteSize)
        requires
            self.wf(),
            self.sizes().len() > 0,
        ensures
            s.0 == self.current_size(),
    {
        self.stack_size[self.stack_size.len() - 1]
    }

    /// Creates a new variable scope that starts at the current stack size.
    pub fn enter_scope(&mut self)
        requires
            old(self).wf(),
            old(self).sizes().len() > 0,
        ensures
            final(self).wf(),
            final(self).scopes() == old(self).scopes().push(Map::empty()),
            final(self).sizes() == old(self).sizes().push(old(self).current_size()),
    {
        let last = self.stack_size[self.stack_size.len() - 1];
        self.stack_size.push(last);
        self.table.push(Vec::new());
        proof {
            assert(scope_map(self.table@.last()@) =~= Map::<Seq<char>, AddressedTypeRef>::empty());
            assert(self.scopes() =~= old(self).scopes().push(Map::empty()));
            assert(self.sizes() =~= old(self).sizes().push(old(self).current_size()));
        }
    }

    /// Removes the topmost variable scope.
    pub fn leave_scope(&mut self)
        requires
            old(self).wf(),
        ensures
            final(self).wf(),
            old(self).sizes().len() > 0 ==> final(self).scopes() == old(self).scopes().drop_last(),
            old(self).sizes().len() > 0 ==> final(self).sizes() == old(self).sizes().drop_last(),
            old(self).sizes().len() == 0 ==> final(self).scopes() == old(self).scopes(),
            old(self).sizes().len() == 0 ==> final(self).sizes() == old(self).sizes(),
    {
        self.table.pop();
        self.stack_size.pop();
        proof {
            assert(self.scopes() =~= if old(self).sizes().len() > 0 {
                old(self).scopes().drop_last()
            } else {
                old(self).scopes()
            });
            assert(self.sizes() =~= if old(self).sizes().len() > 0 {
                old(self).sizes().drop_last()
            } else {
                old(self).sizes()
            });
        }
    }

    /// Adds an allocated, named variable to the innermost scope.
    pub fn add_existing(&mut self, name: String, addressed_type_ref: AddressedTypeRef)
        requires
            old(self).wf(),
            old(self).sizes().len() > 0,
        ensures
            final(self).wf(),
            final(self).sizes() == old(self).sizes(),
            final(self).scopes() == old(self).scopes().update(
                old(self).scopes().len() - 1,
                old(self).scopes().last().insert(name@, addressed_type_ref),
            ),
    {
        let ghost key = name@;
        let mut top = self.table.pop().unwrap();
        let ghost old_top = top@;
        top.push((name, addressed_type_ref));
        self.table.push(top);
        proof {
            assert(top@.drop_last() =~= old_top);
            assert(self.scopes() =~= old(self).scopes().update(
                old(self).scopes().len() - 1,
                old(self).scopes().last().insert(key, addressed_type_ref),
            ));
            assert(self.sizes() =~= old(self).sizes());
        }
    }

    /// Reserves stack space for a variable that can't be referenced by name,
    /// returning its address.
    pub fn add_new_unnamed(&mut self, size: ByteSize) -> (a: LocalAddress)
        requires
            old(self).wf(),
            old(self).sizes().len() > 0,
            old(self).current_size() + size.0 <= isize::MAX,
        ensures
            final(self).wf(),
            final(self).scopes() == old(self).scopes(),
            final(self).sizes() == old(self).sizes().update(
                old(self).sizes().len() - 1,
                (old(self).current_size() + size.0) as usize,
            ),
            a.0 == -(old(self).current_size() + size.0),
    {
        let i = self.stack_size.len() - 1;
        let new_size = self.stack_size[i].0 + size.0;
        self.stack_size.set(i, ByteSize(new_size));
        proof {
            assert(self.scopes() =~= old(self).scopes());
            assert(self.sizes() =~= old(self).sizes().update(
                old(self).sizes().len() - 1,
                (old(self).current_size() + size.0) as usize,
            ));
        }
        LocalAddress(-(new_size as isize))
    }

    /// Returns the innermost variable with the given name.
    pub fn get(&self, name: &str) -> (r: Option<AddressedTypeRef>)
        requires
            self.wf(),
        ensures
            r == lookup(self.scopes(), name@),
    {
        let mut i = self.table.len();
        proof {
            assert(self.scopes().take(i as int) =~= self.scopes());
        }
        while i > 0
            invariant
                self.wf(),
                i <= self.table@.len(),
                lookup(self.scopes(), name@) == lookup(self.scopes().take(i as int), name@),
            decreases i,
        {
            let scope = &self.table[i - 1];
            let ghost entries = scope@;
            let mut j = scope.len();
            proof {
                assert(entries.take(j as int) =~= entries);
            }
            while j > 0
                invariant
                    0 < i <= self.table@.len(),
                    self.wf(),
                    entries == self.table@[i - 1]@,
                    lookup(self.scopes(), name@) == lookup(self.scopes().take(i as int), name@),
                    scope@ == entries,
                    j <= entries.len(),
                    scope_map(entries).dom().contains(name@) == scope_map(entries.take(j as int)).dom().contains(name@),
                    scope_map(entries).dom().contains(name@) ==> scope_map(entries)[name@] == scope_map(entries.take(j as int))[name@],
                decreases j,
            {
                let ghost before = entries.take(j as int);
                assert(before.drop_last() =~= entries.take(j - 1));
                if str_equal(scope[j - 1].0.as_str(), name) {
                    proof {
                        assert(entries.take(entries.len() as int) =~= entries);
                        assert(self.scopes().take(i as int).last() == scope_map(entries));
                    }
                    return Some(scope[j - 1].1);
                }
                j = j - 1;
            }
            proof {
                assert(entries.take(0) =~= Seq::<(String, AddressedTypeRef)>::empty());
                assert(entries.take(entries.len() as int) =~= entries);
                assert(self.scopes().take(i as int).drop_last() =~= self.scopes().take(i - 1));
                assert(self.scopes().take(i as int).last() == scope_map(entries));
            }
            i = i - 1;
        }
        proof {
            assert(self.scopes().take(0) =~= Seq::<Map<Seq<char>, AddressedTypeRef>>::empty());
        }
        None
    }
}

/// A variable just added to the innermost scope is what a lookup of its name finds,
/// whatever outer scopes or earlier entries define under that name.
pub proof fn lookup_finds_latest_definition(
    scopes: Seq<Map<Seq<char>, AddressedTypeRef>>,
    name: Seq<char>,
    v: AddressedTypeRef,
)
    requires
        scopes.len() > 0,
    ensures
        lookup(scopes.update(scopes.len() - 1, scopes.last().insert(name, v)), name) == Some(v),
{
    let after = scopes.update(scopes.len() - 1, scopes.last().insert(name, v));
    assert(after.last() == scopes.last().insert(name, v));
}

/// Entering a new scope changes what no name looks up to.
pub proof fn entering_scope_keeps_lookups(
    scopes: Seq<Map<Seq<char>, AddressedTypeRef>>,
    name: Seq<char>,
)
    ensures
        lookup(scopes.push(Map::empty()), name) == lookup(scopes, name),
{
    assert(scopes.push(Map::empty()).drop_last() =~= scopes);
}

/// Leaving a scope undoes entering it: whatever the inner scope defined and however much
/// stack it reserved, the scopes and stack sizes are those from before it was entered.
pub proof fn leaving_scope_undoes_entering(
    scopes: Seq<Map<Seq<char>, AddressedTypeRef>>,
    sizes: Seq<usize>,
    inner: Map<Seq<char>, AddressedTypeRef>,
    inner_size: usize,
)
    ensures
        scopes.push(inner).drop_last() == scopes,
        sizes.push(inner_size).drop_last() == sizes,
{
    assert(scopes.push(inner).drop_last() =~= scopes);
    assert(sizes.push(inner_size).drop_last() =~= sizes);
}

/// Two unnamed slots reserved one after the other lie just below the stack in use and
/// below each other without overlapping: `first` is the table before the first
/// reservation of `size1` bytes, `second` the table after it, and each slot ends where
/// the one reserved before it begins.
pub proof fn unnamed_slots_stack_downwards(
    first: LocalVariableTable,
    second: LocalVariableTable,
    size1: ByteSize,
    size2: ByteSize,
)
    requires
        first.wf(),
        first.sizes().len() > 0,
        first.current_size() + size1.0 <= isize::MAX,
        second.sizes() == first.sizes().update(
            first.sizes().len() - 1,
            (first.current_size() + size1.0) as usize,
        ),
    ensures
        ({
            let a1 = -(first.current_size() + size1.0);
            let a2 = -(second.current_size() + size2.0);
            &&& a1 + size1.0 == -first.current_size()
            &&& a2 + size2.0 == a1
        }),
{
}

/// Adding a variable or reserving stack space changes only the innermost scope: the
/// outer scopes and their stack sizes stay as they were.
pub proof fn additions_touch_only_innermost_scope(
    scopes: Seq<Map<Seq<char>, AddressedTypeRef>>,
    sizes: Seq<usize>,
    name: Seq<char>,
    v: AddressedTypeRef,
    size: usize,
)
    requires
        scopes.len() > 0,
        sizes.len() > 0,
    ensures
        scopes.update(scopes.len() - 1, scopes.last().insert(name, v)).drop_last()
            == scopes.drop_last(),
        sizes.update(sizes.len() - 1, size).drop_last() == sizes.drop_last(),
{
    assert(scopes.update(scopes.len() - 1, scopes.last().insert(name, v)).drop_last()
        =~= scopes.drop_last());
    assert(sizes.update(sizes.len() - 1, size).drop_last() =~= sizes.drop_last());
}

/// Leaving a scope discards everything done in it: if, since the scope was entered, only
/// the innermost scope changed, then after leaving it the scopes, the stack size and the
/// variable every name looks up to are those from before it was entered.
pub proof fn leaving_scope_discards_inner_changes(
    before: LocalVariableTable,
    inside: LocalVariableTable,
    after: LocalVariableTable,
    name: Seq<char>,
)
    requires
        before.wf(),
        before.sizes().len() > 0,
        inside.scopes().len() == before.scopes().len() + 1,
        inside.sizes().len() == before.sizes().len() + 1,
        inside.scopes().drop_last() == before.scopes(),
        inside.sizes().drop_last() == before.sizes(),
        after.scopes() == inside.scopes().drop_last(),
        after.sizes() == inside.sizes().drop_last(),
    ensures
        after.scopes() == before.scopes(),
        after.sizes() == before.sizes(),
        after.current_size() == before.current_size(),
        lookup(after.scopes(), name) == lookup(before.scopes(), name),
{
}

} // verus!
