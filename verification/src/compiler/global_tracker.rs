//! State tracked between function compilations.

use vstd::prelude::*;
use vstd::string::StringExecFns;
use crate::assembler::Assembly;
use crate::common::{function_label, FunctionID};
use crate::errors::Location;
use crate::text::{append_nat, lemma_nat_text_injective, lemma_nat_text_shape, nat_text, str_equal};

verus! {

/// Tracks data between function compilations: functions called, read-only data,
/// messages for the user and a counter for unique tags.
pub struct GlobalTracker {
    info_messages: Vec<(String, Location)>,
    warn_messages: Vec<(String, Location)>,
    function_calls: Vec<FunctionID>,
    readonly_contents: Vec<String>,
    readonly_data_section: Assembly,
    unique_tag_counter: usize,
}

/// The text one read-only data entry adds to the data section.
pub open spec fn readonly_entry(data: Seq<char>) -> Seq<char> {
    "\n    "@ + data
}

/// The data section after adding the entry `name` holding `data`, given the names
/// already present: unchanged when the name is already there.
pub open spec fn section_after(
    names: Set<Seq<char>>,
    section: Seq<char>,
    name: Seq<char>,
    data: Seq<char>,
) -> Seq<char> {
    if names.contains(name) {
        section
    } else {
        section + readonly_entry(data)
    }
}

/// The unique tag handed out for `function` when the counter is `counter`.
pub open spec fn unique_tag(function: FunctionID, counter: nat) -> Seq<char> {
    function_label(function) + "_"@ + nat_text(counter)
}

/// Tags handed out at different counter values differ, whatever functions they were
/// asked for: since every call of `get_unique_tag` advances the counter, no tag is
/// handed out twice.
pub proof fn unique_tags_differ(f1: FunctionID, c1: nat, f2: FunctionID, c2: nat)
    requires
        c1 != c2,
    ensures
        unique_tag(f1, c1) != unique_tag(f2, c2),
{
    let t1 = nat_text(c1);
    let t2 = nat_text(c2);
    let s1 = unique_tag(f1, c1);
    let s2 = unique_tag(f2, c2);
    lemma_nat_text_shape(c1);
    lemma_nat_text_shape(c2);
    if s1 == s2 {
        let n = s1.len() as int;
        assert(s1 == (function_label(f1) + "_"@) + t1);
        assert(s2 == (function_label(f2) + "_"@) + t2);
        reveal_strlit("_");
        // the character before each number is the last `_`
        assert(s1[n - t1.len() - 1] == '_');
        assert(s2[n - t2.len() - 1] == '_');
        if t1.len() < t2.len() {
            let k = n - t1.len() - 1;
            assert(s2[k] == t2[k - (n - t2.len())]);
        } else if t2.len() < t1.len() {
            let k = n - t2.len() - 1;
            assert(s1[k] == t1[k - (n - t1.len())]);
        }
        assert(t1 =~= s1.subrange(n - t1.len(), n));
        assert(t2 =~= s2.subrange(n - t2.len(), n));
        lemma_nat_text_injective(c1, c2);
    }
}

/// The tags handed out by successive calls of `get_unique_tag`, starting at counter
/// `start` and asked for the functions `functions` in turn, are all different.
pub proof fn successive_tags_all_differ(functions: Seq<FunctionID>, start: nat)
    ensures
        forall|i: int, j: int|
            0 <= i < j < functions.len() ==> unique_tag(functions[i], (start + i) as nat)
                != unique_tag(functions[j], (start + j) as nat),
{
    assert forall|i: int, j: int| 0 <= i < j < functions.len() implies unique_tag(
        functions[i],
        (start + i) as nat,
    ) != unique_tag(functions[j], (start + j) as nat) by {
        unique_tags_differ(functions[i], (start + i) as nat, functions[j], (start + j) as nat);
    }
}

/// Adding read-only data under a name that is already present changes nothing: the
/// data of a name is stored once, whatever is added under it later.
pub proof fn readonly_data_stored_once(
    names: Set<Seq<char>>,
    section: Seq<char>,
    name: Seq<char>,
    first: Seq<char>,
    later: Seq<char>,
)
    ensures
        section_after(names.insert(name), section_after(names, section, name, first), name, later)
            == section_after(names, section, name, first),
{
}

impl GlobalTracker {
    /// Functions called since the last reset.
    pub closed spec fn calls(&self) -> Set<FunctionID> {
        self.function_calls@.to_set()
    }

    /// Names of the read-only data entries added so far.
    pub closed spec fn readonly_names(&self) -> Set<Seq<char>> {
        self.readonly_contents@.map_values(|s: String| s@).to_set()
    }

    /// The read-only data section built so far.
    pub closed spec fn readonly_section(&self) -> Seq<char> {
        self.readonly_data_section@
    }

    /// Number of unique tags handed out so far.
    pub closed spec fn tag_counter(&self) -> nat {
        self.unique_tag_counter as nat
    }

    /// Information messages gathered so far.
    pub closed spec fn infos(&self) -> Seq<(String, Location)> {
        self.info_messages@
    }

    /// Warning messages gathered so far.
    pub closed spec fn warnings(&self) -> Seq<(String, Location)> {
        self.warn_messages@
    }

    /// No function call and no read-only entry is stored twice.
    pub closed spec fn wf(&self) -> bool {
        &&& self.function_calls@.no_duplicates()
        &&& self.readonly_contents@.map_values(|s: String| s@).no_duplicates()
    }

    /// A tracker with nothing recorded.
    pub fn new() -> (g: GlobalTracker)
        ensures
            g.wf(),
            g.calls() == Set::<FunctionID>::empty(),
            g.readonly_names() == Set::<Seq<char>>::empty(),
            g.readonly_section() == Seq::<char>::empty(),
            g.tag_counter() == 0,
            g.infos() == Seq::<(String, Location)>::empty(),
            g.warnings() == Seq::<(String, Location)>::empty(),
    {
        let g = GlobalTracker {
            info_messages: Vec::new(),
            warn_messages: Vec::new(),
            function_calls: Vec::new(),
            readonly_contents: Vec::new(),
            readonly_data_section: String::new(),
            unique_tag_counter: 0,
        };
        proof {
            assert(g.function_calls@.to_set() =~= Set::<FunctionID>::empty());
            assert(g.readonly_contents@.map_values(|s: String| s@) =~= Seq::<Seq<char>>::empty());
            assert(g.readonly_names() =~= Set::<Seq<char>>::empty());
        }
        g
    }

    /// Whether `fid` was called since the last reset.
    fn is_called(&self, fid: FunctionID) -> (r: bool)
        ensures
            r == self.calls().contains(fid),
    {
        let mut i: usize = 0;
        while i < self.function_calls.len()
            invariant
                i <= self.function_calls@.len(),
                forall|j: int| 0 <= j < i ==> self.function_calls@[j] != fid,
            decreases self.function_calls@.len() - i,
        {
            if self.function_calls[i] == fid {
                proof {
                    assert(self.function_calls@.contains(fid));
                }
                return true;
            }
            i = i + 1;
        }
        false
    }

    /// Stores that a function has been called to ensure it gets compiled.
    pub fn store_function_call(&mut self, fid: FunctionID)
        requires
            old(self).wf(),
        ensures
            final(self).wf(),
            final(self).calls() == old(self).calls().insert(fid),
            final(self).readonly_names() == old(self).readonly_names(),
            final(self).readonly_section() == old(self).readonly_section(),
            final(self).tag_counter() == old(self).tag_counter(),
            final(self).infos() == old(self).infos(),
            final(self).warnings() == old(self).warnings(),
    {
        if !self.is_called(fid) {
            self.function_calls.push(fid);
            proof {
                old(self).function_calls@.lemma_push_to_set_commute(fid);
                assert forall|a: int, b: int|
                    0 <= a < b < self.function_calls@.len() implies self.function_calls@[a]
                    != self.function_calls@[b] by {
                    if b == self.function_calls@.len() - 1 {
                        assert(old(self).function_calls@.contains(self.function_calls@[a]));
                    }
                }
            }
        } else {
            proof {
                assert(old(self).calls().insert(fid) =~= old(self).calls());
            }
        }
    }

    /// Clears the function calls - needed between function compilations.
    pub fn reset_functions(&mut self)
        requires
            old(self).wf(),
        ensures
            final(self).wf(),
            final(self).calls() == Set::<FunctionID>::empty(),
            final(self).readonly_names() == old(self).readonly_names(),
            final(self).readonly_section() == old(self).readonly_section(),
            final(self).tag_counter() == old(self).tag_counter(),
            final(self).infos() == old(self).infos(),
            final(self).warnings() == old(self).warnings(),
    {
        self.function_calls = Vec::new();
        proof {
            assert(self.function_calls@.to_set() =~= Set::<FunctionID>::empty());
        }
    }

    /// Whether a read-only entry with this name exists.
    fn has_readonly(&self, name: &str) -> (r: bool)
        ensures
            r == self.readonly_names().contains(name@),
    {
        let ghost names = self.readonly_contents@.map_values(|s: String| s@);
        let mut i: usize = 0;
        while i < self.readonly_contents.len()
            invariant
                names == self.readonly_contents@.map_values(|s: String| s@),
                i <= self.readonly_contents@.len(),
                forall|j: int| 0 <= j < i ==> names[j] != name@,
            decreases self.readonly_contents@.len() - i,
        {
            if str_equal(self.readonly_contents[i].as_str(), name) {
                proof {
                    assert(names[i as int] == name@);
                    assert(names.contains(name@));
                }
                return true;
            }
            i = i + 1;
        }
        proof {
            if names.contains(name@) {
                let k = choose|k: int| 0 <= k < names.len() && names[k] == name@;
                assert(names[k] != name@);
            }
        }
        false
    }

    /// Adds read-only data to be appended to the assembly, ensuring data is not stored twice.
    pub fn add_readonly_data(&mut self, name: &str, data: &str)
        requires
            old(self).wf(),
        ensures
            final(self).wf(),
            final(self).readonly_names() == old(self).readonly_names().insert(name@),
            old(self).readonly_names().contains(name@) ==> final(self).readonly_section() == old(
                self,
            ).readonly_section(),
            !old(self).readonly_names().contains(name@) ==> final(self).readonly_section() == old(
                self,
            ).readonly_section() + readonly_entry(data@),
            final(self).calls() == old(self).calls(),
            final(self).tag_counter() == old(self).tag_counter(),
            final(self).infos() == old(self).infos(),
            final(self).warnings() == old(self).warnings(),
    {
        if !self.has_readonly(name) {
            let ghost old_names = self.readonly_contents@.map_values(|s: String| s@);
            self.readonly_contents.push(String::from_str(name));
            self.readonly_data_section.append("\n    ");
            self.readonly_data_section.append(data);
            proof {
                let names = self.readonly_contents@.map_values(|s: String| s@);
                assert(names =~= old_names.push(name@));
                old_names.lemma_push_to_set_commute(name@);
                assert forall|a: int, b: int|
                    0 <= a < b < names.len() implies names[a] != names[b] by {
                    if b == names.len() - 1 {
                        assert(old_names.contains(names[a]));
                    }
                }
                assert(self.readonly_data_section@ =~= old(self).readonly_section() + readonly_entry(
                    data@,
                ));
            }
        } else {
            proof {
                assert(old(self).readonly_names().insert(name@) =~= old(self).readonly_names());
            }
        }
    }

    /// Returns a program-wide unique tag e.g. for jump instructions.
    pub fn get_unique_tag(&mut self, function: FunctionID) -> (tag: String)
        requires
            old(self).wf(),
            old(self).tag_counter() < usize::MAX,
        ensures
            final(self).wf(),
            tag@ == unique_tag(function, old(self).tag_counter()),
            final(self).tag_counter() == old(self).tag_counter() + 1,
            final(self).calls() == old(self).calls(),
            final(self).readonly_names() == old(self).readonly_names(),
            final(self).readonly_section() == old(self).readonly_section(),
            final(self).infos() == old(self).infos(),
            final(self).warnings() == old(self).warnings(),
    {
        let mut r = function.string_id();
        r.append("_");
        append_nat(&mut r, self.unique_tag_counter as u128);
        self.unique_tag_counter = self.unique_tag_counter + 1;
        r
    }

    /// Functions called since the last reset, each once.
    pub fn function_calls(&self) -> (r: &Vec<FunctionID>)
        requires
            self.wf(),
        ensures
            r@.to_set() == self.calls(),
            r@.no_duplicates(),
    {
        &self.function_calls
    }

    /// The read-only data section built so far.
    pub fn readonly_data_section(&self) -> (r: &Assembly)
        ensures
            r@ == self.readonly_section(),
    {
        &self.readonly_data_section
    }

    /// The number of unique tags handed out so far.
    pub fn unique_tag_counter(&self) -> (r: usize)
        ensures
            r == self.tag_counter(),
    {
        self.unique_tag_counter
    }

    /// Information messages gathered so far.
    pub fn info_messages(&self) -> (r: &Vec<(String, Location)>)
        ensures
            r@ == self.infos(),
    {
        &self.info_messages
    }

    /// Warning messages gathered so far.
    pub fn warn_messages(&self) -> (r: &Vec<(String, Location)>)
        ensures
            r@ == self.warnings(),
    {
        &self.warn_messages
    }

    /// Records an information message for the user.
    pub fn push_info_message(&mut self, message: String, location: Location)
        ensures
            final(self).infos() == old(self).infos().push((message, location)),
            final(self).warnings() == old(self).warnings(),
            final(self).calls() == old(self).calls(),
            final(self).readonly_names() == old(self).readonly_names(),
            final(self).readonly_section() == old(self).readonly_section(),
            final(self).tag_counter() == old(self).tag_counter(),
            old(self).wf() ==> final(self).wf(),
    {
        self.info_messages.push((message, location));
    }

    /// Records a warning for the user.
    pub fn push_warn_message(&mut self, message: String, location: Location)
        ensures
            final(self).warnings() == old(self).warnings().push((message, location)),
            final(self).infos() == old(self).infos(),
            final(self).calls() == old(self).calls(),
            final(self).readonly_names() == old(self).readonly_names(),
            final(self).readonly_section() == old(self).readonly_section(),
            final(self).tag_counter() == old(self).tag_counter(),
            old(self).wf() ==> final(self).wf(),
    {
        self.warn_messages.push((message, location));
    }
}

} // verus!
