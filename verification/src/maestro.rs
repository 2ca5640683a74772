//! The configuration aggregate: the ordered collection of workspaces read
//! from the user configuration file, validated as a whole.

use vstd::prelude::*;
use crate::error::MaestroError;
use crate::workspace::Workspace;

verus! {

/// The validated, in-memory collection of all workspace entries.  Order is
/// the declaration order in the source file; validation does not depend on
/// it, but it is preserved for deterministic output.
#[derive(Debug)]
pub struct Maestro {
    pub workspaces: Vec<Workspace>,
}

impl Maestro {
    /// The aggregate is valid exactly when every contained workspace is;
    /// an empty collection is vacuously valid.  Nothing relates distinct
    /// workspaces: in particular, duplicate names are allowed.
    pub open spec fn valid(&self) -> bool {
        forall|i: int| 0 <= i < self.workspaces@.len() ==> self.workspaces@[i].valid()
    }

    /// The law behind aggregate validation: an aggregate is valid exactly
    /// when every one of its workspaces is, so validation succeeds iff each
    /// member's own validation would, and an empty aggregate is vacuously
    /// valid.
    pub proof fn lemma_valid_iff_members_valid(&self)
        ensures
            self.valid() <==> (forall|i: int|
                0 <= i < self.workspaces@.len() ==> (#[trigger] self.workspaces@[i]).valid()),
            self.workspaces@.len() == 0 ==> self.valid(),
    {
    }

    /// Validates every member in order and propagates the first member's
    /// failure unchanged (fail-fast, not error-accumulating): the error, if
    /// any, is the validation error of the first invalid workspace.
    pub fn validate(&self) -> (r: Result<(), MaestroError>)
        ensures
            r is Ok <==> self.valid(),
            !self.valid() ==> exists|i: int|
                {
                    &&& 0 <= i < self.workspaces@.len()
                    &&& !(#[trigger] self.workspaces@[i]).valid()
                    &&& forall|j: int| 0 <= j < i ==> (#[trigger] self.workspaces@[j]).valid()
                    &&& (r matches Err(MaestroError::ValidationError(m))
                        && m@ == self.workspaces@[i].first_broken_rule())
                },
    {
        let n: usize = self.workspaces.len();
        let mut k: usize = 0;
        while k < n
            invariant
                n == self.workspaces@.len(),
                0 <= k <= n,
                forall|j: int| 0 <= j < k ==> (#[trigger] self.workspaces@[j]).valid(),
            decreases n - k,
        {
            match self.workspaces[k].validate() {
                Ok(()) => {
                    k = k + 1;
                },
                Err(e) => {
                    return Err(e);
                },
            }
        }
        Ok(())
    }
}

} // verus!
