//! The version string that the program reports about itself.

use vstd::prelude::*;
use vstd::string::*;

verus! {

/// The version stamp: the four build facts in a fixed order, with a `+`
/// between neighbours.
pub open spec fn version_stamp(
    semver: Seq<char>,
    branch: Seq<char>,
    sha_short: Seq<char>,
    host_triple: Seq<char>,
) -> Seq<char> {
    semver + seq!['+'] + branch + seq!['+'] + sha_short + seq!['+'] + host_triple
}

/// Joins the package version, the git branch, the short commit hash and the
/// compiler's host triple into the version stamp.
///
/// The four facts are known only when the program is built, so the program
/// passes them in.
pub fn get_version(semver: &str, branch: &str, sha_short: &str, host_triple: &str) -> (stamp:
    String)
    ensures
        stamp@ == version_stamp(semver@, branch@, sha_short@, host_triple@),
{
    proof {
        reveal_strlit("+");
    }
    let mut stamp = String::from_str(semver);
    stamp.append("+");
    stamp.append(branch);
    stamp.append("+");
    stamp.append(sha_short);
    stamp.append("+");
    stamp.append(host_triple);
    assert("+"@ =~= seq!['+']);
    stamp
}

} // verus!
