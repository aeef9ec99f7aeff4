//! Checking that the programs a command relies on are installed.
use vstd::prelude::*;

verus! {

/// Relies on which::which: it looks `name` up on the search path. What it
/// finds depends on the machine, so nothing is stated of the answer.
#[verifier::external_body]
fn is_installed(name: &str) -> (found: bool) {
    which::which(name).is_ok()
}

/// A program that is needed and could not be found.
#[derive(Debug)]
pub struct MissingBinary {
    pub name: String,
}

/// The programs a command needs on the search path.
pub struct BinaryDependencies;

impl BinaryDependencies {
    /// Looks up each of `dependencies` and reports the first one that is not
    /// installed.
    pub fn check(dependencies: &[&str]) -> (r: Result<(), MissingBinary>)
        ensures
            r is Err ==> exists|i: int|
                0 <= i < dependencies@.len() && r->Err_0.name@ == dependencies@[i]@,
    {
        let mut installed: Vec<bool> = Vec::new();
        let mut i: usize = 0;
        while i < dependencies.len()
            invariant
                i <= dependencies@.len(),
                installed@.len() == i,
            decreases dependencies@.len() - i,
        {
            installed.push(is_installed(dependencies[i]));
            i = i + 1;
        }
        BinaryDependencies::report(dependencies, installed.as_slice())
    }

    /// The outcome of a check in which `installed[i]` tells whether
    /// `dependencies[i]` was found: the first dependency that was not, or
    /// `Ok` when all were.
    pub fn report(dependencies: &[&str], installed: &[bool]) -> (r: Result<(), MissingBinary>)
        requires
            installed@.len() == dependencies@.len(),
        ensures
            r is Ok <==> forall|i: int| 0 <= i < installed@.len() ==> installed@[i],
            r is Err ==> exists|i: int|
                {
                    &&& 0 <= i < installed@.len()
                    &&& !installed@[i]
                    &&& forall|j: int| 0 <= j < i ==> installed@[j]
                    &&& r->Err_0.name@ == dependencies@[i]@
                },
    {
        let mut i: usize = 0;
        while i < installed.len()
            invariant
                i <= installed@.len(),
                installed@.len() == dependencies@.len(),
                forall|j: int| 0 <= j < i ==> installed@[j],
            decreases installed@.len() - i,
        {
            if !installed[i] {
                return Err(MissingBinary { name: dependencies[i].to_owned() });
            }
            i = i + 1;
        }
        Ok(())
    }
}

} // verus!
