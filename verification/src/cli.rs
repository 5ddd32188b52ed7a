//! The command line of the standalone init: `crostini -- <command> [args...]`.

use vstd::prelude::*;
use vstd::string::*;

verus! {

/// The argument that separates the init's own arguments from the workload's.
pub open spec fn separator() -> Seq<char> {
    seq!['-', '-']
}

/// `k` is the position of the first separator in `args`.
pub open spec fn is_first_separator(args: Seq<String>, k: int) -> bool {
    &&& 0 <= k < args.len()
    &&& args[k]@ == separator()
    &&& forall|j: int| 0 <= j < k ==> args[j]@ != separator()
}

/// The workload's command line: what follows the first `--`. There is none
/// (and the init prints its usage) when no argument is `--` or nothing
/// follows the first one.
pub fn child_argv(args: &Vec<String>) -> (argv: Option<Vec<String>>)
    ensures
        argv matches Some(v) ==> exists|k: int|
            is_first_separator(args@, k) && v@ == args@.skip(k + 1) && v@.len() > 0,
        argv is None ==> forall|k: int| is_first_separator(args@, k) ==> k + 1 == args@.len(),
{
    proof {
        reveal_strlit("--");
    }
    let sep = String::from_str("--");
    let mut k: usize = 0;
    while k < args.len()
        invariant
            sep@ == separator(),
            k <= args@.len(),
            forall|j: int| 0 <= j < k ==> args@[j]@ != separator(),
        decreases args@.len() - k,
    {
        if args[k] == sep {
            if k + 1 == args.len() {
                return None;
            }
            let mut argv: Vec<String> = Vec::new();
            for i in k + 1..args.len()
                invariant
                    k + 1 <= i <= args@.len(),
                    argv@ =~= args@.subrange(k + 1, i as int),
            {
                argv.push(args[i].clone());
            }
            assert(argv@ =~= args@.skip(k + 1));
            assert(is_first_separator(args@, k as int));
            return Some(argv);
        }
        k = k + 1;
    }
    None
}

} // verus!
