//! Directive protocol for shell integration: the shell wrapper reads
//! NUL-terminated directives from the program's stdout and acts on them.
//!
//! This module builds the wire text; writing it out is the caller's job.

use vstd::prelude::*;
use vstd::string::StringExecFns;

verus! {

/// A directive for the shell wrapper to execute.
#[derive(Clone, Debug)]
pub enum Directive {
    /// Change directory to the given path.
    ChangeDirectory(String),
    /// Execute a command in the current directory.
    Execute(String),
    /// Print a message to the user.
    Message(String),
}

/// The wire text of one directive: its marker, its payload, and a NUL
/// terminator (NUL, so that multi-line payloads survive).
pub open spec fn directive_chars(d: Directive) -> Seq<char> {
    match d {
        Directive::ChangeDirectory(p) => "__WORKTRUNK_CD__"@ + p@ + seq!['\0'],
        Directive::Execute(c) => "__WORKTRUNK_EXEC__"@ + c@ + seq!['\0'],
        Directive::Message(m) => m@ + seq!['\0'],
    }
}

pub open spec fn directives_chars(ds: Seq<Directive>) -> Seq<char>
    decreases ds.len(),
{
    if ds.len() == 0 {
        Seq::empty()
    } else {
        directives_chars(ds.drop_last()) + directive_chars(ds.last())
    }
}

/// The full wire text: every directive in order, then a final newline for
/// readability in logs.
pub open spec fn output_chars(ds: Seq<Directive>) -> Seq<char> {
    directives_chars(ds) + seq!['\n']
}

/// Output containing multiple directives for shell integration.
pub struct DirectiveOutput {
    directives: Vec<Directive>,
}

impl View for DirectiveOutput {
    type V = Seq<Directive>;

    closed spec fn view(&self) -> Seq<Directive> {
        self.directives@
    }
}

impl DirectiveOutput {
    /// Create a new, empty directive output.
    pub fn new() -> (r: Self)
        ensures
            r@ == Seq::<Directive>::empty(),
    {
        DirectiveOutput { directives: Vec::new() }
    }

    /// Add a directive.
    pub fn add(&mut self, directive: Directive)
        ensures
            final(self)@ == old(self)@.push(directive),
    {
        self.directives.push(directive);
    }

    /// The exact text to hand to stdout: each directive's marker and
    /// payload, NUL-terminated, and a final newline.
    pub fn encode(&self) -> (r: String)
        ensures
            r@ == output_chars(self@),
    {
        let mut out = String::new();
        let n = self.directives.len();
        let mut i: usize = 0;
        while i < n
            invariant
                n == self.directives@.len(),
                out@ =~= directives_chars(self.directives@.take(i as int)),
                i <= n,
            decreases n - i,
        {
            proof {
                reveal_strlit("\u{0}");
            }
            match &self.directives[i] {
                Directive::ChangeDirectory(path) => {
                    out.append("__WORKTRUNK_CD__");
                    out.append(path.as_str());
                    out.append("\u{0}");
                },
                Directive::Execute(cmd) => {
                    out.append("__WORKTRUNK_EXEC__");
                    out.append(cmd.as_str());
                    out.append("\u{0}");
                },
                Directive::Message(msg) => {
                    out.append(msg.as_str());
                    out.append("\u{0}");
                },
            }
            proof {
                assert(self.directives@.take(i + 1).drop_last() =~= self.directives@.take(
                    i as int,
                ));
                assert(self.directives@.take(i + 1).last() == self.directives@[i as int]);
                assert(out@ =~= directives_chars(self.directives@.take(i + 1)));
            }
            i = i + 1;
        }
        proof {
            reveal_strlit("\n");
            assert(self.directives@.take(n as int) =~= self.directives@);
        }
        out.append("\n");
        proof {
            assert(out@ =~= output_chars(self@));
        }
        out
    }
}

} // verus!
