//! Where the working directories of the tests are kept.
//!
//! A path is given here by the names of its components below the root, in
//! their order.

use vstd::prelude::*;

verus! {

/// The directory of the test binaries, for the executable at `exe`: the
/// directory that holds the executable, or the one above it where that is
/// named `deps`.
pub open spec fn parent_dir(exe: Seq<Seq<char>>) -> Seq<Seq<char>> {
    if exe.len() == 0 {
        exe
    } else if exe.len() >= 2 && exe[exe.len() - 2] == "deps"@ {
        exe.take(exe.len() - 2)
    } else {
        exe.take(exe.len() - 1)
    }
}

/// The ledger directory of the test `test_name` below `parent`.
pub open spec fn ledger_dir(parent: Seq<Seq<char>>, test_name: Seq<char>) -> Seq<Seq<char>> {
    parent.push("ledger"@).push(test_name)
}

/// The directory of the test binaries, given the path of the running
/// executable.
pub fn parent_exe_dir(exe: Vec<String>) -> (dir: Vec<String>)
    ensures
        dir.deep_view() == parent_dir(exe.deep_view()),
{
    let ghost whole = exe.deep_view();
    let mut dir = exe;
    if dir.len() == 0 {
        return dir;
    }
    dir.pop();
    assert(dir.deep_view() =~= whole.take(whole.len() - 1));
    let n = dir.len();
    if n > 0 {
        let deps = "deps".to_owned();
        if dir[n - 1] == deps {
            assert(whole[whole.len() - 2] == dir.deep_view()[n - 1]);
            dir.pop();
            assert(dir.deep_view() =~= whole.take(whole.len() - 2));
            return dir;
        }
        assert(whole[whole.len() - 2] == dir.deep_view()[n - 1]);
    }
    dir
}

/// The ledger directory of a test: `ledger`, then the test's name, below the
/// directory of the test binaries.
pub fn test_ledger_dir(parent: Vec<String>, test_name: &str) -> (dir: Vec<String>)
    ensures
        dir.deep_view() == ledger_dir(parent.deep_view(), test_name@),
{
    let ghost base = parent.deep_view();
    let mut dir = parent;
    dir.push("ledger".to_owned());
    dir.push(test_name.to_owned());
    assert(dir.deep_view() =~= ledger_dir(base, test_name@));
    dir
}

} // verus!
