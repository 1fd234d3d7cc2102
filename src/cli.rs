use vstd::prelude::*;

verus! {

/// Whether a command-line argument is an option, i.e. starts with `-`.
pub open spec fn is_option(arg: Seq<char>) -> bool {
    arg.len() > 0 && arg[0] == '-'
}

/// The name of an option: the argument with every `-` taken out; empty for an
/// argument that is not an option.
pub open spec fn option_name(arg: Seq<char>) -> Seq<char> {
    if is_option(arg) {
        arg.filter(|c: char| c != '-')
    } else {
        Seq::empty()
    }
}

/// Relies on str::replace: every occurrence of `-` is replaced by nothing.
#[verifier::external_body]
fn remove_dashes(s: &str) -> (r: String)
    ensures
        r@ == s@.filter(|c: char| c != '-'),
{
    s.replace("-", "")
}

/// The option name that `arg` carries (`-m` and `--m` both give `m`), or the
/// empty string when `arg` does not start with `-`.
pub fn parse_arg(arg: String) -> (r: String)
    ensures
        r@ == option_name(arg@),
{
    let mut chars = arg.as_str().chars();
    let starts_with_dash = match chars.next() {
        Some(c) => c == '-',
        None => false,
    };
    if starts_with_dash {
        remove_dashes(arg.as_str())
    } else {
        String::new()
    }
}

/// Whether the arguments (the program name left out) ask for the in-memory
/// backend: some argument is the option `m`.
pub fn wants_memory_backend(args: &Vec<String>) -> (r: bool)
    ensures
        r == exists|i: int| 0 <= i < args@.len() && #[trigger] option_name(args@[i]@) == seq!['m'],
{
    let m = "m".to_owned();
    proof {
        reveal_strlit("m");
        assert(m@ =~= seq!['m']);
    }
    let mut i: usize = 0;
    while i < args.len()
        invariant
            i <= args@.len(),
            m@ == seq!['m'],
            forall|k: int| 0 <= k < i ==> #[trigger] option_name(args@[k]@) != seq!['m'],
        decreases args@.len() - i,
    {
        let name = parse_arg(args[i].clone());
        if name == m {
            return true;
        }
        i = i + 1;
    }
    false
}

} // verus!
