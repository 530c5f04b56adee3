//! The command line: the install flag, and the arguments forwarded to the
//! formatter.

use vstd::prelude::*;

verus! {

/// The first argument that installs the shim instead of relaying.
pub open spec fn install_request_flag() -> Seq<char> {
    "--install-the-shim"@
}

/// Whether the command line (program name first) asks for installation:
/// its first argument is exactly `--install-the-shim`.
pub fn is_install_request(args: &Vec<String>) -> (r: bool)
    ensures
        r == (args.len() > 1 && args@[1]@ == install_request_flag()),
{
    if args.len() > 1 {
        let flag = String::from_str("--install-the-shim");
        args[1] == flag
    } else {
        false
    }
}

/// The arguments forwarded to the formatter: all but the program name.
pub fn forwarded_args(args: &Vec<String>) -> (r: Vec<String>)
    ensures
        r.deep_view() == args.deep_view().skip(if args.len() > 0 { 1int } else { 0int }),
{
    let mut r: Vec<String> = Vec::new();
    if args.len() == 0 {
        assert(r.deep_view() =~= args.deep_view());
        return r;
    }
    let mut k: usize = 1;
    while k < args.len()
        invariant
            1 <= k <= args.len(),
            r.len() == k - 1,
            forall|i: int| 0 <= i < k - 1 ==> (#[trigger] r@[i])@ == args@[i + 1]@,
        decreases args.len() - k,
    {
        r.push(args[k].clone());
        k = k + 1;
    }
    let ghost tail = args.deep_view().skip(1);
    assert forall|i: int| 0 <= i < r.len() implies r.deep_view()[i] == tail[i] by {
        assert(r@[i]@ == args@[i + 1]@);
    }
    assert(r.deep_view() =~= tail);
    r
}

} // verus!
