//! Command-line options of the compiler and the text it shows around a build.

use vstd::prelude::*;
use vstd::string::{StrSliceExecFns, StringExecFns};

verus! {

/// Options of one compiler run.
pub struct Args {
    /// Main input file.
    pub input: String,
    /// Output files name without extension.
    pub output: String,
    /// Only build - don't run.
    pub build: bool,
}

impl Default for Args {
    /// Reads `main.why`, writes `build/out.*` and runs the result.
    fn default() -> (a: Self)
        ensures
            a.input@ == "main.why"@,
            a.output@ == "build/out"@,
            !a.build,
    {
        Args { input: String::from_str("main.why"), output: String::from_str("build/out"), build: false }
    }
}

/// The word shown, centred, before the compiled program runs.
pub const EXECUTING: &'static str = "Executing";

/// `n` dashes.
pub open spec fn dashes(n: nat) -> Seq<char>
    decreases n,
{
    if n == 0 {
        Seq::empty()
    } else {
        dashes((n - 1) as nat) + "-"@
    }
}

/// The line announcing the run on a terminal `cols` columns wide: `Executing` centred
/// between dashes (the extra dash on the right), or `Executing...` on a terminal narrower
/// than the word or wider than 300 columns.
pub open spec fn banner_text(cols: nat) -> Seq<char> {
    if cols < 9 || cols > 300 {
        "Executing..."@
    } else {
        let pad = (cols - 9) as nat;
        dashes(pad / 2) + "Executing"@ + dashes(pad / 2 + pad % 2)
    }
}

/// Appends `n` dashes.
fn append_dashes(out: &mut String, n: u16)
    ensures
        final(out)@ == old(out)@ + dashes(n as nat),
{
    let ghost start = out@;
    let mut k: u16 = 0;
    while k < n
        invariant
            k <= n,
            out@ == start + dashes(k as nat),
        decreases n - k,
    {
        out.append("-");
        proof {
            assert(start + dashes(k as nat) + "-"@ =~= start + dashes((k + 1) as nat));
        }
        k = k + 1;
    }
}

/// The line announcing the run of the compiled program on a terminal `cols` columns wide.
pub fn executing_banner(cols: u16) -> (s: String)
    ensures
        s@ == banner_text(cols as nat),
{
    proof {
        assert(EXECUTING@ == "Executing"@);
        reveal_strlit("Executing");
    }
    let word_len = EXECUTING.unicode_len();
    if (cols as usize) < word_len || cols > 300 {
        return String::from_str("Executing...");
    }
    let pad: u16 = cols - 9;
    let padl: u16 = pad / 2;
    let padr: u16 = if pad % 2 == 1 {
        padl + 1
    } else {
        padl
    };
    let mut s = String::new();
    append_dashes(&mut s, padl);
    s.append(EXECUTING);
    append_dashes(&mut s, padr);
    proof {
        assert(Seq::<char>::empty() + dashes(padl as nat) =~= dashes(padl as nat));
        assert(padr as nat == pad / 2 + pad % 2);
    }
    s
}

/// The path of the assembly file written for the output name `output`.
pub fn assembly_file(output: &str) -> (s: String)
    ensures
        s@ == output@ + ".asm"@,
{
    let mut s = String::from_str(output);
    s.append(".asm");
    s
}

} // verus!
