//! Argument escaping and invocation assembly: quoting of arguments that
//! contain spaces, and joining the program name with the prepared arguments
//! into the one command string handed to the shell.

use vstd::prelude::*;

use crate::text::str_to_chars;
use crate::translate::to_unix_spec;
use crate::translate::translate_path_to_unix;

verus! {

/// `s` contains at least one space character.
pub open spec fn has_space(s: Seq<char>) -> bool {
    exists|i: int| 0 <= i < s.len() && s[i] == ' '
}

/// What escaping one argument returns: the argument wrapped in double
/// quotes when it contains a space, and unchanged otherwise. Deliberately
/// partial: embedded quotes and other shell metacharacters are not handled,
/// only spaces are.
pub open spec fn escape_spec(s: Seq<char>) -> Seq<char> {
    if has_space(s) {
        seq!['"'] + s + seq!['"']
    } else {
        s
    }
}

/// The program name and the arguments joined by single spaces, in order.
pub open spec fn joined(prog: Seq<char>, args: Seq<Seq<char>>) -> Seq<char>
    decreases args.len(),
{
    if args.len() == 0 {
        prog
    } else {
        joined(prog, args.drop_last()) + seq![' '] + args.last()
    }
}

/// The whole argument pipeline: each argument translated to the POSIX
/// convention, escaped, and joined after the program name. The program name
/// itself is neither translated nor escaped. `exists_flags[i]` answers the
/// filesystem probe for `args[i]`.
pub open spec fn invocation_spec(
    prog: Seq<char>,
    args: Seq<Seq<char>>,
    exists_flags: Seq<bool>,
) -> Seq<char> {
    joined(prog, Seq::new(args.len(), |i: int| escape_spec(to_unix_spec(args[i], exists_flags[i]))))
}

/// Whether `v` contains a space character.
fn contains_space(v: &Vec<char>) -> (r: bool)
    ensures
        r == has_space(v@),
{
    let mut i: usize = 0;
    while i < v.len()
        invariant
            i <= v.len(),
            forall|j: int| 0 <= j < i ==> v@[j] != ' ',
        decreases v.len() - i,
    {
        if v[i] == ' ' {
            return true;
        }
        i = i + 1;
    }
    false
}

/// Wrap one argument in double quotes when it contains a space; return it
/// unchanged otherwise. Escaping is deliberately limited to spaces.
pub fn shell_escape(arg: String) -> (r: String)
    ensures
        r@ == escape_spec(arg@),
{
    let v = str_to_chars(arg.as_str());
    if contains_space(&v) {
        let mut out: String = String::from_str("\"");
        out.append(arg.as_str());
        out.append("\"");
        proof {
            reveal_strlit("\"");
            assert(out@ =~= escape_spec(arg@));
        }
        out
    } else {
        arg
    }
}

/// Join the program name and the already-prepared arguments with single
/// spaces, in order; with no arguments the command is the program name
/// alone.
pub fn build_command(program: &str, args: &Vec<String>) -> (r: String)
    ensures
        r@ == joined(program@, args.deep_view()),
{
    let mut out: String = String::from_str(program);
    let mut k: usize = 0;
    while k < args.len()
        invariant
            k <= args.len(),
            out@ == joined(program@, args.deep_view().take(k as int)),
        decreases args.len() - k,
    {
        out.append(" ");
        out.append(args[k].as_str());
        k = k + 1;
        proof {
            reveal_strlit(" ");
            let dv = args.deep_view();
            assert(dv.take(k as int).drop_last() =~= dv.take(k as int - 1));
            assert(out@ =~= joined(program@, dv.take(k as int)));
        }
    }
    proof {
        assert(args.deep_view().take(args@.len() as int) =~= args.deep_view());
    }
    out
}

/// Assemble the full invocation: translate each argument to the POSIX
/// convention, escape it, and join everything after the program name, which
/// passes through verbatim. `exists_flags[i]` answers the filesystem probe
/// for `args[i]`.
pub fn build_invocation(program: &str, args: &Vec<String>, exists_flags: &Vec<bool>) -> (r: String)
    requires
        args@.len() == exists_flags@.len(),
    ensures
        r@ == invocation_spec(program@, args.deep_view(), exists_flags@),
{
    let mut prepared: Vec<String> = Vec::new();
    let mut k: usize = 0;
    while k < args.len()
        invariant
            k <= args.len(),
            args@.len() == exists_flags@.len(),
            prepared@.len() == k,
            forall|j: int| 0 <= j < k ==> prepared@[j]@ == escape_spec(
                to_unix_spec(args@[j]@, exists_flags@[j]),
            ),
        decreases args.len() - k,
    {
        let translated = translate_path_to_unix(args[k].clone(), exists_flags[k]);
        let escaped = shell_escape(translated);
        prepared.push(escaped);
        k = k + 1;
    }
    let r = build_command(program, &prepared);
    proof {
        let dv = args.deep_view();
        assert(prepared.deep_view() =~= Seq::new(
            dv.len(),
            |i: int| escape_spec(to_unix_spec(dv[i], exists_flags@[i])),
        ));
    }
    r
}

} // verus!
