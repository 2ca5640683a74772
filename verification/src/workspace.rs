//! The workspace entity: the atomic configuration record, and the rules
//! that decide whether one is usable.

use vstd::prelude::*;
use vstd::string::StringExecFns;
use crate::error::MaestroError;

verus! {

/// Whether the pattern class `\w` accepts a character.  This is the Unicode
/// notion of a word character (letters, digits, underscore and their Unicode
/// relatives), whose full definition lives in the regex engine; nothing here
/// restates it.
pub uninterp spec fn is_word_char(c: char) -> bool;

/// A string is a single word when it is non-empty and every character is a
/// word character: exactly the strings the pattern `^\w+$` accepts.
pub open spec fn is_single_word(s: Seq<char>) -> bool {
    s.len() > 0 && forall|i: int| 0 <= i < s.len() ==> is_word_char(s[i])
}

/// Relies on `regex::Regex::new(r"^\w+$")` and `regex::Regex::is_match`:
/// the anchors pin the whole haystack and `\w+` asks for one or more word
/// characters, so the match succeeds exactly when the string is non-empty
/// and made of word characters alone.  The pattern is a constant, so
/// construction cannot fail.
#[verifier::external_body]
fn matches_word_pattern(s: &str) -> (r: bool)
    ensures
        r == (s@.len() > 0 && forall|i: int| 0 <= i < s@.len() ==> is_word_char(s@[i])),
{
    let re = regex::Regex::new(r"^\w+$").unwrap();
    re.is_match(s)
}

/// One named unit of configuration.  A workspace is a plain data holder:
/// construction always succeeds, and a separate validation pass decides
/// whether the record may be trusted downstream.
#[derive(Debug)]
pub struct Workspace {
    /// Identifier-like name; validation demands a single word.
    pub name: String,
    /// Free text; unconstrained.
    pub description: String,
    /// Where the workspace lives on disk; validation demands it non-empty.
    pub workspace_path: String,
    /// Working directory inside a container, if any; unconstrained.
    pub container_working_dir: Option<String>,
    /// When the workspace was last touched, as seconds since the epoch, if
    /// recorded; unconstrained.
    pub last_updated: Option<i64>,
}

impl Workspace {
    /// A workspace is valid when its name is a single word and its path is
    /// non-empty; the description and the optional fields never matter.
    pub open spec fn valid(&self) -> bool {
        is_single_word(self.name@) && self.workspace_path@.len() > 0
    }

    /// The message of the first validation rule this workspace breaks.
    pub open spec fn first_broken_rule(&self) -> Seq<char>
        recommends
            !self.valid(),
    {
        if !is_single_word(self.name@) {
            "Name must be a single word (underscores are allowed)"@
        } else {
            "Workspace path cannot be empty"@
        }
    }

    /// The law behind workspace validation: validity depends on the name
    /// and the workspace path alone.  Two workspaces that agree on those
    /// two fields are equally valid, whatever their descriptions and
    /// optional fields hold.
    pub proof fn lemma_valid_ignores_unconstrained_fields(&self, other: &Workspace)
        requires
            self.name@ == other.name@,
            self.workspace_path@ == other.workspace_path@,
        ensures
            self.valid() == other.valid(),
    {
    }

    /// Checks the rules in order — name is a single word, name is non-empty,
    /// path is non-empty — and reports the first failure; a valid workspace
    /// passes.  (An empty name already fails the single-word rule, which is
    /// checked first, so the explicit emptiness check can never be the one
    /// that fires.)
    pub fn validate(&self) -> (r: Result<(), MaestroError>)
        ensures
            r is Ok <==> self.valid(),
            !self.valid() ==> (r matches Err(MaestroError::ValidationError(m))
                && m@ == self.first_broken_rule()),
    {
        if !matches_word_pattern(self.name.as_str()) {
            return Err(MaestroError::ValidationError(
                String::from_str("Name must be a single word (underscores are allowed)"),
            ));
        }
        if self.name.as_str().is_empty() {
            return Err(MaestroError::ValidationError(String::from_str("Name cannot be empty")));
        }
        if self.workspace_path.as_str().is_empty() {
            return Err(MaestroError::ValidationError(
                String::from_str("Workspace path cannot be empty"),
            ));
        }
        Ok(())
    }
}

} // verus!
