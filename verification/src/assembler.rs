//! Building assembly text line by line.

use vstd::prelude::*;
use vstd::string::StringExecFns;

verus! {

/// Assembly text.
pub type Assembly = String;

/// A helper for correctly formatting strings for assembly.
/// The text has no preceding newline and a trailing newline.
pub struct AssemblyBuilder {
    inner: Assembly,
}

/// The text an indented line adds: four spaces, the line, a newline.
pub open spec fn indented_line(line: Seq<char>) -> Seq<char> {
    "    "@ + line + "\n"@
}

/// The text a non-indented line adds: the line and a newline.
pub open spec fn toplevel_line(line: Seq<char>) -> Seq<char> {
    line + "\n"@
}

/// One call on an `AssemblyBuilder`, with the text it was given.
pub enum BuildStep {
    /// `line`
    Line(Seq<char>),
    /// `toplevel`
    Toplevel(Seq<char>),
    /// `other`
    Other(Seq<char>),
}

/// The text one call appends.
pub open spec fn step_text(step: BuildStep) -> Seq<char> {
    match step {
        BuildStep::Line(x) => indented_line(x),
        BuildStep::Toplevel(x) => toplevel_line(x),
        BuildStep::Other(x) => x,
    }
}

/// The text a new builder holds after the calls `steps`, in order.
pub open spec fn steps_text(steps: Seq<BuildStep>) -> Seq<char>
    decreases steps.len(),
{
    if steps.len() == 0 {
        Seq::empty()
    } else {
        steps_text(steps.drop_last()) + step_text(steps.last())
    }
}

/// A builder that holds the text of some calls holds, after one more call, the text of
/// all of them: so after any sequence of calls on a new builder, `finish` gives the texts
/// of the calls one after the other.
pub proof fn builder_holds_its_steps(steps: Seq<BuildStep>, step: BuildStep)
    ensures
        steps_text(steps) + step_text(step) == steps_text(steps.push(step)),
{
    assert(steps.push(step).drop_last() =~= steps);
}

/// Text built from `line` and `toplevel` calls alone ends with a newline, and starts
/// with the first line's text (after four spaces for an indented line): there is no
/// preceding newline unless the first line starts with one.
pub proof fn built_lines_are_newline_terminated(steps: Seq<BuildStep>)
    requires
        steps.len() > 0,
        forall|i: int| 0 <= i < steps.len() ==> !(#[trigger] steps[i] is Other),
    ensures
        steps_text(steps).last() == '\n',
        steps[0] is Line ==> steps_text(steps).len() >= 4,
        steps[0] matches BuildStep::Line(x) ==> steps_text(steps).take(4) == "    "@,
        steps[0] matches BuildStep::Toplevel(x) ==> x.len() > 0 ==> steps_text(steps)[0] == x[0],
    decreases steps.len(),
{
    reveal_strlit("    ");
    reveal_strlit("\n");
    let t = steps_text(steps);
    let last = step_text(steps.last());
    assert(!(steps[steps.len() - 1] is Other));
    assert(last.last() == '\n');
    if steps.len() > 1 {
        let rest = steps.drop_last();
        assert forall|i: int| 0 <= i < rest.len() implies !(#[trigger] rest[i] is Other) by {
            assert(rest[i] == steps[i]);
        }
        built_lines_are_newline_terminated(rest);
        assert(rest[0] == steps[0]);
        let rt = steps_text(rest);
        assert(rt.len() > 0);
        assert(t == rt + last);
        match steps[0] {
            BuildStep::Line(x) => {
                assert(rt.len() >= 4);
                assert(t.take(4) =~= rt.take(4));
            },
            BuildStep::Toplevel(x) => {
                if x.len() > 0 {
                    assert(t[0] == rt[0]);
                }
            },
            _ => {},
        }
    } else {
        assert(steps.drop_last() =~= Seq::<BuildStep>::empty());
        assert(steps_text(Seq::<BuildStep>::empty()) == Seq::<char>::empty());
        assert(t =~= last);
    }
}

impl View for AssemblyBuilder {
    type V = Seq<char>;

    closed spec fn view(&self) -> Seq<char> {
        self.inner@
    }
}

impl Default for AssemblyBuilder {
    fn default() -> (b: Self)
        ensures
            b@ == Seq::<char>::empty(),
    {
        Self::new()
    }
}

impl AssemblyBuilder {
    /// An empty builder.
    pub fn new() -> (b: AssemblyBuilder)
        ensures
            b@ == Seq::<char>::empty(),
    {
        AssemblyBuilder { inner: String::new() }
    }

    /// Adds a single, indented line with a trailing newline.
    pub fn line(&mut self, line: &str)
        ensures
            final(self)@ == old(self)@ + indented_line(line@),
    {
        self.inner.append("    ");
        self.inner.append(line);
        self.inner.append("\n");
        proof {
            assert(old(self)@ + "    "@ + line@ + "\n"@ =~= old(self)@ + indented_line(line@));
        }
    }

    /// Adds a single, non-indented line with a trailing newline.
    pub fn toplevel(&mut self, line: &str)
        ensures
            final(self)@ == old(self)@ + toplevel_line(line@),
    {
        self.inner.append(line);
        self.inner.append("\n");
        proof {
            assert(old(self)@ + line@ + "\n"@ =~= old(self)@ + toplevel_line(line@));
        }
    }

    /// Adds the output from another `AssemblyBuilder`.
    /// Adds no indentation and assumes `other` has its own trailing newline.
    pub fn other(&mut self, other: &str)
        ensures
            final(self)@ == old(self)@ + other@,
    {
        self.inner.append(other);
    }

    /// Returns the text built so far.
    pub fn finish(self) -> (a: Assembly)
        ensures
            a@ == self@,
    {
        self.inner
    }
}

} // verus!
