//! The history of commands typed at the interactive shell.
use vstd::prelude::*;

use crate::text::{chars_of, string_of};

verus! {

/// The commands entered so far and a cursor into them: `offset` counts the
/// commands up to and including the current one.
#[derive(Debug, Default)]
pub struct CommandManager {
    pub command_buffer: Vec<String>,
    pub offset: usize,
}

impl CommandManager {
    pub fn new() -> (r: CommandManager)
        ensures
            r.command_buffer@.len() == 0,
            r.offset == 0,
    {
        CommandManager { command_buffer: Vec::new(), offset: 0 }
    }

    /// Records a command and moves the cursor one on.
    pub fn push(&mut self, command: String)
        requires
            old(self).offset < usize::MAX,
        ensures
            final(self).command_buffer@ == old(self).command_buffer@.push(command),
            final(self).offset == old(self).offset + 1,
    {
        self.command_buffer.push(command);
        self.offset = self.offset + 1;
    }

    /// Moves the cursor one back, where it is not at the start, and gives
    /// the command there.
    pub fn last_command(&mut self) -> (r: String)
        requires
            2 <= old(self).offset <= old(self).command_buffer@.len() + 1,
        ensures
            final(self).offset == old(self).offset - 1,
            final(self).command_buffer == old(self).command_buffer,
            r@ == final(self).command_buffer@[final(self).offset - 1]@,
    {
        if self.offset == 0 {
            self.currnet_command()
        } else {
            self.offset = self.offset - 1;
            self.currnet_command()
        }
    }

    /// The command at the cursor.
    pub fn currnet_command(&self) -> (r: String)
        requires
            1 <= self.offset <= self.command_buffer@.len(),
        ensures
            r == self.command_buffer@[self.offset - 1],
    {
        self.command_buffer[self.offset - 1].clone()
    }

    /// Moves the cursor one on and gives the command there.
    pub fn next_command(&mut self) -> (r: String)
        requires
            old(self).offset < old(self).command_buffer@.len(),
        ensures
            final(self).offset == old(self).offset + 1,
            final(self).command_buffer == old(self).command_buffer,
            r == final(self).command_buffer@[final(self).offset - 1],
    {
        assert(self.command_buffer@.len() == self.command_buffer.len());
        self.offset = self.offset + 1;
        self.currnet_command()
    }

    /// Forgets every command.
    pub fn clear_all(&mut self)
        ensures
            final(self).command_buffer@.len() == 0,
            final(self).offset == 0,
    {
        self.command_buffer = Vec::new();
        self.offset = 0;
    }
}

/// How far the joining of path arguments has come: the quote that is open,
/// the pieces so far, and whether a fully quoted argument ended it.
pub struct PathScan {
    pub single: bool,
    pub double: bool,
    pub parts: Seq<Seq<char>>,
    pub done: bool,
}

pub open spec fn starts_with(a: Seq<char>, q: char) -> bool {
    a.len() > 0 && a[0] == q
}

pub open spec fn ends_with(a: Seq<char>, q: char) -> bool {
    a.len() > 0 && a[a.len() - 1] == q
}

/// The number of `q` characters at the start of `a[from..to]`.
pub open spec fn leading(a: Seq<char>, from: int, to: int, q: char) -> int
    decreases to - from,
{
    if from < to && a[from] == q {
        1 + leading(a, from + 1, to, q)
    } else {
        0
    }
}

/// The number of `q` characters at the end of `a[from..to]`.
pub open spec fn trailing(a: Seq<char>, from: int, to: int, q: char) -> int
    decreases to - from,
{
    if from < to && a[to - 1] == q {
        1 + trailing(a, from, to - 1, q)
    } else {
        0
    }
}

/// `a` without the `q` characters at either end.
pub open spec fn trim_quote(a: Seq<char>, q: char) -> Seq<char> {
    let i = leading(a, 0, a.len() as int, q);
    let j = a.len() - trailing(a, i, a.len() as int, q);
    a.subrange(i, j)
}

/// One argument of a path: an argument in quotes at both ends is the whole
/// path; an opening quote starts a path that goes on until an argument that
/// ends with the quote.
pub open spec fn path_step(st: PathScan, a: Seq<char>) -> PathScan {
    if st.done {
        st
    } else {
        let st1 = if !st.double && !st.single {
            if starts_with(a, '"') && ends_with(a, '"') {
                PathScan { parts: st.parts.push(trim_quote(a, '"')), done: true, ..st }
            } else if starts_with(a, '\'') && ends_with(a, '\'') {
                PathScan { parts: st.parts.push(trim_quote(a, '\'')), done: true, ..st }
            } else if starts_with(a, '"') {
                PathScan { double: true, parts: st.parts.push(a.subrange(1, a.len() as int)), ..st }
            } else if starts_with(a, '\'') {
                PathScan { single: true, parts: st.parts.push(a.subrange(1, a.len() as int)), ..st }
            } else {
                st
            }
        } else {
            st
        };
        if st1.done {
            st1
        } else if st1.double {
            if ends_with(a, '"') {
                PathScan {
                    double: false,
                    parts: st1.parts.push(a.subrange(0, a.len() - 1)),
                    ..st1
                }
            } else {
                PathScan { parts: st1.parts.push(a), ..st1 }
            }
        } else if st1.single {
            if ends_with(a, '\'') {
                PathScan {
                    double: true,
                    parts: st1.parts.push(a.subrange(0, a.len() - 1)),
                    ..st1
                }
            } else {
                PathScan { parts: st1.parts.push(a), ..st1 }
            }
        } else {
            st1
        }
    }
}

pub open spec fn path_scan(args: Seq<Seq<char>>) -> PathScan
    decreases args.len(),
{
    if args.len() == 0 {
        PathScan { single: false, double: false, parts: Seq::empty(), done: false }
    } else {
        path_step(path_scan(args.drop_last()), args.last())
    }
}

/// The pieces that the arguments of a command join into a path: `None`
/// where there are no arguments or a quote is left open.
pub open spec fn path_parts_of(args: Seq<Seq<char>>) -> Option<Seq<Seq<char>>> {
    let st = path_scan(args);
    if args.len() == 0 || st.double || st.single {
        None
    } else {
        Some(st.parts)
    }
}

pub open spec fn texts(v: Seq<String>) -> Seq<Seq<char>> {
    v.map_values(|s: String| s@)
}

pub open spec fn arg_texts(v: Seq<&str>) -> Seq<Seq<char>> {
    v.map_values(|s: &str| s@)
}

/// `a` without the `q` characters at either end.
fn trim_quote_of(a: &Vec<char>, q: char) -> (r: String)
    ensures
        r@ == trim_quote(a@, q),
{
    let mut i: usize = 0;
    while i < a.len() && a[i] == q
        invariant
            i <= a@.len(),
            leading(a@, 0, a@.len() as int, q) == i + leading(a@, i as int, a@.len() as int, q),
        decreases a@.len() - i,
    {
        i = i + 1;
    }
    let mut j: usize = a.len();
    while j > i && a[j - 1] == q
        invariant
            i <= j <= a@.len(),
            trailing(a@, i as int, a@.len() as int, q) == (a@.len() - j) + trailing(
                a@,
                i as int,
                j as int,
                q,
            ),
        decreases j,
    {
        j = j - 1;
    }
    string_of(a.as_slice(), i, j)
}

fn push_part(parts: &mut Vec<String>, s: String)
    ensures
        texts(final(parts)@) == texts(old(parts)@).push(s@),
{
    parts.push(s);
    assert(texts(final(parts)@) =~= texts(old(parts)@).push(s@));
}

/// Joins the arguments of a command into the pieces of a path, as
/// `path_parts_of` says.
pub fn path_parts(args: &[&str]) -> (r: Option<Vec<String>>)
    ensures
        match r {
            Some(v) => path_parts_of(arg_texts(args@)) == Some(texts(v@)),
            None => path_parts_of(arg_texts(args@)) is None,
        },
{
    let ghost all = arg_texts(args@);
    let mut single = false;
    let mut double = false;
    let mut done = false;
    let mut parts: Vec<String> = Vec::new();
    let mut k: usize = 0;
    assert(texts(parts@) =~= Seq::<Seq<char>>::empty());
    assert(all.subrange(0, 0) =~= Seq::<Seq<char>>::empty());
    while k < args.len()
        invariant
            k <= args@.len(),
            all == arg_texts(args@),
            path_scan(all.subrange(0, k as int)) == (PathScan {
                single,
                double,
                parts: texts(parts@),
                done,
            }),
        decreases args@.len() - k,
    {
        let a = chars_of(args[k]);
        let n = a.len();
        let ghost before = PathScan { single, double, parts: texts(parts@), done };
        assert(a@ == all[k as int]);
        if !done {
            let sd = n > 0 && a[0] == '"';
            let ed = n > 0 && a[n - 1] == '"';
            let ss = n > 0 && a[0] == '\'';
            let es = n > 0 && a[n - 1] == '\'';
            if !double && !single {
                if sd && ed {
                    push_part(&mut parts, trim_quote_of(&a, '"'));
                    done = true;
                } else if ss && es {
                    push_part(&mut parts, trim_quote_of(&a, '\''));
                    done = true;
                } else if sd {
                    double = true;
                    push_part(&mut parts, string_of(a.as_slice(), 1, n));
                } else if ss {
                    single = true;
                    push_part(&mut parts, string_of(a.as_slice(), 1, n));
                }
            }
            if !done {
                if double {
                    if ed {
                        push_part(&mut parts, string_of(a.as_slice(), 0, n - 1));
                        double = false;
                    } else {
                        push_part(&mut parts, string_of(a.as_slice(), 0, n));
                    }
                } else if single {
                    if es {
                        push_part(&mut parts, string_of(a.as_slice(), 0, n - 1));
                        double = true;
                    } else {
                        push_part(&mut parts, string_of(a.as_slice(), 0, n));
                    }
                }
            }
        }
        assert(a@.subrange(0, n as int) =~= a@);
        assert(PathScan { single, double, parts: texts(parts@), done } == path_step(before, a@));
        assert(all.subrange(0, k + 1).drop_last() =~= all.subrange(0, k as int));
        k = k + 1;
    }
    assert(all.subrange(0, args@.len() as int) =~= all);
    if args.len() == 0 || double || single {
        None
    } else {
        Some(parts)
    }
}

} // verus!
