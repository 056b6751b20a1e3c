//! A command to run: a program and its arguments, kept as plain values so
//! that it can be shown and handed to whatever runs it.
use crate::text;
use vstd::prelude::*;

verus! {

pub struct CommandLine {
    pub program: String,
    pub args: Vec<String>,
}

pub open spec fn quoted(s: Seq<char>) -> Seq<char> {
    seq!['"'] + s + seq!['"']
}

/// How a command is shown: the program and each argument in double quotes,
/// separated by spaces.
pub open spec fn command_display_spec(program: Seq<char>, args: Seq<Seq<char>>) -> Seq<char> {
    text::join_spec((seq![program] + args).map_values(|a: Seq<char>| quoted(a)), seq![' '])
}

fn quote(s: &str) -> (r: String)
    ensures
        r@ == quoted(s@),
{
    proof {
        reveal_strlit("\"");
    }
    let mut out = "\"".to_owned();
    out.append(s);
    out.append("\"");
    assert(out@ =~= quoted(s@));
    out
}

impl CommandLine {
    /// The program with no argument yet.
    pub fn new(program: &str) -> (r: CommandLine)
        ensures
            r.program@ == program@,
            r.args@.len() == 0,
    {
        CommandLine { program: program.to_owned(), args: Vec::new() }
    }

    /// Adds one argument.
    pub fn arg(&mut self, a: &str)
        ensures
            final(self).program@ == old(self).program@,
            final(self).args.deep_view() == old(self).args.deep_view().push(a@),
    {
        let ghost before = self.args.deep_view();
        self.args.push(a.to_owned());
        assert(self.args.deep_view() =~= before.push(a@));
    }

    /// Adds the arguments `a`, in order.
    pub fn args(&mut self, a: &Vec<String>)
        ensures
            final(self).program@ == old(self).program@,
            final(self).args.deep_view() == old(self).args.deep_view() + a.deep_view(),
    {
        let mut i: usize = 0;
        while i < a.len()
            invariant
                i <= a.len(),
                self.program@ == old(self).program@,
                self.args.deep_view() == old(self).args.deep_view() + a.deep_view().subrange(
                    0,
                    i as int,
                ),
            decreases a.len() - i,
        {
            self.arg(a[i].as_str());
            assert(a.deep_view().subrange(0, i + 1) =~= a.deep_view().subrange(0, i as int).push(
                a[i as int]@,
            ));
            i = i + 1;
        }
        assert(a.deep_view().subrange(0, a.len() as int) =~= a.deep_view());
    }

    /// The command as it is shown in messages.
    pub fn display(&self) -> (r: String)
        ensures
            r@ == command_display_spec(self.program@, self.args.deep_view()),
    {
        let mut parts: Vec<String> = Vec::new();
        parts.push(quote(self.program.as_str()));
        let ghost all = seq![self.program@] + self.args.deep_view();
        let mut i: usize = 0;
        while i < self.args.len()
            invariant
                i <= self.args.len(),
                all == seq![self.program@] + self.args.deep_view(),
                parts.deep_view() == all.subrange(0, i + 1).map_values(|a: Seq<char>| quoted(a)),
            decreases self.args.len() - i,
        {
            let ghost before = parts.deep_view();
            parts.push(quote(self.args[i].as_str()));
            assert(parts.deep_view() =~= before.push(quoted(self.args[i as int]@)));
            assert(all.subrange(0, i + 2).map_values(|a: Seq<char>| quoted(a)) =~= all.subrange(
                0,
                i + 1,
            ).map_values(|a: Seq<char>| quoted(a)).push(quoted(all[i + 1])));
            i = i + 1;
        }
        assert(all.subrange(0, self.args.len() + 1) =~= all);
        proof {
            reveal_strlit(" ");
        }
        let r = text::join(&parts, " ");
        assert(" "@ =~= seq![' ']);
        r
    }
}

} // verus!
