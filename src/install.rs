//! The file names that installing the shim writes: the shim takes the place of
//! `rustfmt` in the toolchain manager's binary directory, and the `rustfmt` it
//! replaces is kept once under a backup name.

use vstd::prelude::*;
use vstd::string::StringExecFns;

verus! {

/// The name that the shim is installed under, with the running executable's
/// extension, if it has one.
pub open spec fn shim_name(extension: Option<Seq<char>>) -> Seq<char> {
    match extension {
        Some(e) => "rustfmt"@ + "."@ + e,
        None => "rustfmt"@,
    }
}

/// Builds `rustfmt`, or `rustfmt.<extension>`.
pub fn shim_file_name(extension: Option<&str>) -> (r: String)
    ensures
        r@ == shim_name(
            match extension {
                Some(e) => Some(e@),
                None => None,
            },
        ),
{
    let mut r = String::from_str("rustfmt");
    if let Some(e) = extension {
        r.append(".");
        r.append(e);
    }
    r
}

/// The name under which the replaced file is kept: `<name>.bk`.
pub fn backup_file_name(name: &str) -> (r: String)
    ensures
        r@ == name@ + ".bk"@,
{
    let mut r = name.to_owned();
    r.append(".bk");
    r
}

/// Whether the file being replaced is to be copied to its backup: only where
/// no backup exists yet, so that the first one is kept.
pub fn needs_backup(backup_exists: bool) -> (r: bool)
    ensures
        r == !backup_exists,
{
    !backup_exists
}

} // verus!
