//! Loading and saving the two-level configuration.
//!
//! The load path dereferences the pointer file, parses the user file it
//! names, and validates every workspace before anything is returned.  The
//! save path turns an already-canonicalized path into a fresh pointer
//! record and its rendered document.  Reading and writing the files
//! themselves is the caller's job: each function here takes the outcome of
//! that outside step as a plain value, so every decision made on it is
//! verified for every outcome.
//!
//! What each document means is stated over the parsed value's named
//! contents (see `crate::json`): `pointer_path_of` gives the path a pointer
//! document holds, and `user_doc_entries` gives a user document's workspace
//! entries, so the contracts below owe success and fix the result wherever
//! the document is well-formed.

use vstd::prelude::*;
use vstd::string::StringExecFns;
use crate::config::Config;
use crate::error::MaestroError;
use crate::json::arr_elems;
use crate::json::is_null_value;
use crate::json::json_as_array;
use crate::json::json_as_str;
use crate::json::json_doc;
use crate::json::json_error_text;
use crate::json::json_get;
use crate::json::json_is_null;
use crate::json::json_parses;
use crate::json::json_string_of;
use crate::json::obj_entries;
use crate::json::parse_json;
use crate::json::str_content;
use crate::maestro::Maestro;
use crate::workspace::is_single_word;
use crate::workspace::Workspace;

verus! {

/// The message reported when the pointer file cannot be read.
pub open spec fn config_not_found_msg(detail: Seq<char>) -> Seq<char> {
    "Failed to load Maestro configuration: "@ + detail + "\nEnsure Maestro is configured"@
}

/// The message reported when the user configuration file cannot be read.
pub open spec fn user_config_not_found_msg(detail: Seq<char>) -> Seq<char> {
    "Failed to load user configuration: "@ + detail + "\nEnsure Maestro is configured"@
}

/// The message reported when the user-supplied path cannot be resolved.
pub open spec fn path_resolution_msg(path: Seq<char>, detail: Seq<char>) -> Seq<char> {
    "Failed to canonicalize path '"@ + path + "': "@ + detail + "\nEnsure the file exists"@
}

/// The message reported when the pointer file cannot be written.
pub open spec fn write_failure_msg(detail: Seq<char>) -> Seq<char> {
    "Failed to configure Maestro: "@ + detail
        + "\nEnsure Maestro has write permissions and reconfigure"@
}

/// The pointer document assembled around an already-rendered string
/// literal: one object with the single field `config_file_path`.
pub open spec fn pointer_doc_around(lit: Seq<char>) -> Seq<char> {
    "{\n  \"config_file_path\": "@ + lit + "\n}"@
}

/// The document persisted for a pointer record holding `path`.
pub open spec fn pointer_doc_of(path: Seq<char>) -> Seq<char> {
    pointer_doc_around(json_string_of(path))
}

/// The text under `key` in a parsed value, when the value is an object
/// holding that key as a JSON string; `None` otherwise.
pub open spec fn required_string(v: serde_json::Value, key: Seq<char>) -> Option<Seq<char>> {
    match obj_entries(v) {
        Some(m) => if m.dom().contains(key) {
            str_content(m[key])
        } else {
            None
        },
        None => None,
    }
}

/// Whether `key` is acceptable as an optional string field of a parsed
/// value: absent, `null`, or a JSON string; any other shape is refused.
pub open spec fn optional_string_wf(v: serde_json::Value, key: Seq<char>) -> bool {
    match obj_entries(v) {
        Some(m) => m.dom().contains(key) ==> (is_null_value(m[key]) || str_content(m[key]) is Some),
        None => true,
    }
}

/// The text an acceptable optional field holds: `None` when the field is
/// absent or `null`.
pub open spec fn optional_string_val(v: serde_json::Value, key: Seq<char>) -> Option<Seq<char>> {
    match obj_entries(v) {
        Some(m) => if m.dom().contains(key) && !is_null_value(m[key]) {
            str_content(m[key])
        } else {
            None
        },
        None => None,
    }
}

/// The path a pointer document holds: the `config_file_path` string field
/// of the parsed text, when the text parses to an object carrying one.
pub open spec fn pointer_path_of(s: Seq<char>) -> Option<Seq<char>> {
    if json_parses(s) {
        required_string(json_doc(s), "config_file_path"@)
    } else {
        None
    }
}

/// The workspace entries of a parsed user configuration value: the
/// elements of its `workspaces` array field, when the value is an object
/// carrying one.
pub open spec fn doc_entries(v: serde_json::Value) -> Option<Seq<serde_json::Value>> {
    match obj_entries(v) {
        Some(m) => if m.dom().contains("workspaces"@) {
            arr_elems(m["workspaces"@])
        } else {
            None
        },
        None => None,
    }
}

/// The workspace entries of a user configuration text, when it parses to a
/// document carrying them.
pub open spec fn user_doc_entries(s: Seq<char>) -> Option<Seq<serde_json::Value>> {
    if json_parses(s) {
        doc_entries(json_doc(s))
    } else {
        None
    }
}

/// Whether one workspace entry is well-formed: `name`, `description` and
/// `workspace_path` present as strings, `container_working_dir` absent,
/// `null` or a string.
pub open spec fn entry_wf(v: serde_json::Value) -> bool {
    &&& required_string(v, "name"@) is Some
    &&& required_string(v, "description"@) is Some
    &&& required_string(v, "workspace_path"@) is Some
    &&& optional_string_wf(v, "container_working_dir"@)
}

/// Whether a workspace holds exactly the fields of an entry.  The
/// timestamp of the last update is not part of the persisted format, so a
/// bound workspace never carries one.
pub open spec fn entry_matches(v: serde_json::Value, w: Workspace) -> bool {
    &&& required_string(v, "name"@) == Some(w.name@)
    &&& required_string(v, "description"@) == Some(w.description@)
    &&& required_string(v, "workspace_path"@) == Some(w.workspace_path@)
    &&& (match w.container_working_dir {
        Some(s) => optional_string_val(v, "container_working_dir"@) == Some(s@),
        None => optional_string_val(v, "container_working_dir"@) is None,
    })
    &&& w.last_updated is None
}

/// Whether the workspace an entry binds to passes validation.
pub open spec fn entry_valid(v: serde_json::Value) -> bool {
    &&& (required_string(v, "name"@) matches Some(n) && is_single_word(n))
    &&& (required_string(v, "workspace_path"@) matches Some(p) && p.len() > 0)
}

/// The message of the first validation rule an entry's workspace breaks.
pub open spec fn entry_broken_rule(v: serde_json::Value) -> Seq<char>
    recommends
        !entry_valid(v),
{
    if !(required_string(v, "name"@) matches Some(n) && is_single_word(n)) {
        "Name must be a single word (underscores are allowed)"@
    } else {
        "Workspace path cannot be empty"@
    }
}

/// Every entry of the sequence is well-formed.
pub open spec fn entries_wf(es: Seq<serde_json::Value>) -> bool {
    forall|i: int| 0 <= i < es.len() ==> entry_wf(#[trigger] es[i])
}

/// Every entry of the sequence binds to a valid workspace.
pub open spec fn entries_valid(es: Seq<serde_json::Value>) -> bool {
    forall|i: int| 0 <= i < es.len() ==> entry_valid(#[trigger] es[i])
}

/// The aggregate holds exactly the entries' workspaces, in declaration
/// order.
pub open spec fn binds_to(es: Seq<serde_json::Value>, m: Maestro) -> bool {
    &&& m.workspaces@.len() == es.len()
    &&& forall|i: int| 0 <= i < es.len() ==> entry_matches(es[i], #[trigger] m.workspaces@[i])
}

/// The result carries the validation error of the first entry whose
/// workspace is invalid, with that entry's own message.
pub open spec fn first_invalid_error(
    es: Seq<serde_json::Value>,
    r: Result<Maestro, MaestroError>,
) -> bool {
    exists|i: int|
        {
            &&& 0 <= i < es.len()
            &&& !entry_valid(#[trigger] es[i])
            &&& forall|j: int| 0 <= j < i ==> entry_valid(#[trigger] es[j])
            &&& (r matches Err(MaestroError::ValidationError(m)) && m@ == entry_broken_rule(es[i]))
        }
}

/// Relies on `serde_json::to_string::<str>` for the rendered literal —
/// serializing a string cannot fail and is a function of its characters
/// alone — and on `serde_json::from_str`, `serde_json::Value::get` and
/// `serde_json::Value::as_str` for what the parser makes of it: the
/// pointer document assembled around the literal parses back to an object
/// whose `config_file_path` field holds the original text.
#[verifier::external_body]
fn json_string_literal(s: &str) -> (r: String)
    ensures
        r@ == json_string_of(s@),
        pointer_path_of(pointer_doc_around(r@)) == Some(s@),
{
    serde_json::to_string(s).unwrap()
}

/// A workspace that holds exactly an entry's fields is valid exactly when
/// the entry is, and breaks the same first rule.
proof fn lemma_entry_matches_validity(v: serde_json::Value, w: Workspace)
    requires
        entry_matches(v, w),
    ensures
        w.valid() == entry_valid(v),
        !w.valid() ==> w.first_broken_rule() == entry_broken_rule(v),
{
}

fn concat2(a: &str, b: &str) -> (r: String)
    ensures
        r@ == a@ + b@,
{
    let mut out = String::from_str(a);
    out.append(b);
    out
}

fn concat3(a: &str, b: &str, c: &str) -> (r: String)
    ensures
        r@ == a@ + b@ + c@,
{
    let mut out = String::from_str(a);
    out.append(b);
    out.append(c);
    out
}

fn concat5(a: &str, b: &str, c: &str, d: &str, e: &str) -> (r: String)
    ensures
        r@ == a@ + b@ + c@ + d@ + e@,
{
    let mut out = String::from_str(a);
    out.append(b);
    out.append(c);
    out.append(d);
    out.append(e);
    out
}

/// Reads the field under `key`, which must be present as a JSON string.
fn required_string_field(v: &serde_json::Value, key: &str) -> (r: Option<String>)
    ensures
        r matches Some(s) ==> required_string(*v, key@) == Some(s@),
        r is None ==> required_string(*v, key@) is None,
{
    match json_get(v, key) {
        Some(f) => match json_as_str(f) {
            Some(s) => Some(s.to_owned()),
            None => None,
        },
        None => None,
    }
}

/// Reads the field under `key`, which may be absent or `null` (no value)
/// or a JSON string; any other shape is an error.
fn optional_string_field(v: &serde_json::Value, key: &str) -> (r: Result<Option<String>, ()>)
    ensures
        r is Ok <==> optional_string_wf(*v, key@),
        r matches Ok(Some(s)) ==> optional_string_val(*v, key@) == Some(s@),
        r matches Ok(o) && o is None ==> optional_string_val(*v, key@) is None,
{
    match json_get(v, key) {
        Some(f) => {
            if json_is_null(f) {
                Ok(None)
            } else {
                match json_as_str(f) {
                    Some(s) => Ok(Some(s.to_owned())),
                    None => Err(()),
                }
            }
        },
        None => Ok(None),
    }
}

/// Binds one workspace entry: it succeeds exactly on a well-formed entry,
/// and the workspace it returns holds exactly the entry's fields.
fn workspace_from_value(v: &serde_json::Value) -> (r: Result<Workspace, String>)
    ensures
        r is Ok <==> entry_wf(*v),
        r matches Ok(w) ==> entry_matches(*v, w),
{
    let name = match required_string_field(v, "name") {
        Some(s) => s,
        None => {
            return Err(String::from_str("a workspace entry misses the string field 'name'"));
        },
    };
    let description = match required_string_field(v, "description") {
        Some(s) => s,
        None => {
            return Err(
                String::from_str("a workspace entry misses the string field 'description'"),
            );
        },
    };
    let workspace_path = match required_string_field(v, "workspace_path") {
        Some(s) => s,
        None => {
            return Err(
                String::from_str("a workspace entry misses the string field 'workspace_path'"),
            );
        },
    };
    let container_working_dir = match optional_string_field(v, "container_working_dir") {
        Ok(o) => o,
        Err(()) => {
            return Err(
                String::from_str("the field 'container_working_dir' is neither a string nor null"),
            );
        },
    };
    Ok(
        Workspace {
            name,
            description,
            workspace_path,
            container_working_dir,
            last_updated: None,
        },
    )
}

/// Binds the whole user configuration document: it succeeds exactly when
/// the document carries a `workspaces` array of well-formed entries, and
/// the aggregate it returns holds exactly those entries' workspaces in
/// declaration order.
fn maestro_from_value(v: &serde_json::Value) -> (r: Result<Maestro, String>)
    ensures
        r is Ok <==> (doc_entries(*v) matches Some(es) && entries_wf(es)),
        r matches Ok(m) ==> (doc_entries(*v) matches Some(es) && binds_to(es, m)),
{
    let arr = match json_get(v, "workspaces") {
        Some(f) => match json_as_array(f) {
            Some(a) => a,
            None => {
                return Err(String::from_str("the field 'workspaces' is not an array"));
            },
        },
        None => {
            return Err(String::from_str("the document misses the field 'workspaces'"));
        },
    };
    let n: usize = arr.len();
    let mut workspaces: Vec<Workspace> = Vec::new();
    let mut k: usize = 0;
    while k < n
        invariant
            n == arr@.len(),
            doc_entries(*v) == Some(arr@),
            0 <= k <= n,
            workspaces@.len() == k,
            forall|j: int| 0 <= j < k ==> entry_wf(#[trigger] arr@[j]),
            forall|j: int| 0 <= j < k ==> entry_matches(arr@[j], #[trigger] workspaces@[j]),
        decreases n - k,
    {
        match workspace_from_value(&arr[k]) {
            Ok(w) => {
                workspaces.push(w);
            },
            Err(detail) => {
                return Err(detail);
            },
        }
        k = k + 1;
    }
    Ok(Maestro { workspaces })
}

/// Turns the outcome of reading the pointer file into a pointer record.
///
/// `read` is what the caller found at the well-known location: the file's
/// text, or the reason it could not be read.  An unreadable file is the
/// expected state before first setup and reports `ConfigNotFound`; a text
/// that is not a well-formed pointer document reports `PointerParseError`;
/// a well-formed pointer document yields a record holding exactly the path
/// it names; no other kind can come out.
pub fn load_pointer(read: Result<String, String>) -> (r: Result<Config, MaestroError>)
    ensures
        read matches Err(d) ==> (r matches Err(MaestroError::ConfigNotFound(m)) && m@
            == config_not_found_msg(d@)),
        read matches Ok(t) ==> (!json_parses(t@) ==> r matches Err(
            MaestroError::PointerParseError(_),
        )),
        read matches Ok(t) ==> (json_parses(t@) && pointer_path_of(t@) is None ==> r matches Err(
            MaestroError::PointerParseError(_),
        )),
        read matches Ok(t) ==> (pointer_path_of(t@) matches Some(p) ==> (r matches Ok(c) && c@
            == p)),
        read is Ok ==> (r is Ok || r matches Err(MaestroError::PointerParseError(_))),
        r is Ok ==> (read matches Ok(t) && json_parses(t@) && pointer_path_of(t@) is Some),
{
    match read {
        Err(d) => Err(
            MaestroError::ConfigNotFound(
                concat3(
                    "Failed to load Maestro configuration: ",
                    d.as_str(),
                    "\nEnsure Maestro is configured",
                ),
            ),
        ),
        Ok(text) => match parse_json(text.as_str()) {
            Err(e) => {
                let detail = json_error_text(&e);
                Err(
                    MaestroError::PointerParseError(
                        concat2("Failed to parse Maestro configuration: ", detail.as_str()),
                    ),
                )
            },
            Ok(v) => match required_string_field(&v, "config_file_path") {
                Some(p) => Ok(Config::new(p)),
                None => Err(
                    MaestroError::PointerParseError(
                        concat2(
                            "Failed to parse Maestro configuration: ",
                            "the document misses the string field 'config_file_path'",
                        ),
                    ),
                ),
            },
        },
    }
}

/// Turns the outcome of reading the user configuration file into a
/// validated aggregate.
///
/// `read` is what the caller found at the path the pointer names: the
/// file's text, or the reason it could not be read.  An unreadable file
/// means the pointer is stale and reports `UserConfigNotFound`; a text
/// that is not a well-formed collection of workspaces reports
/// `UserConfigParseError`; a well-formed collection with an invalid
/// workspace reports the first offender's `ValidationError`; a well-formed
/// collection of valid workspaces is returned as an aggregate holding
/// exactly its entries in declaration order.
pub fn load_user_config(read: Result<String, String>) -> (r: Result<Maestro, MaestroError>)
    ensures
        read matches Err(d) ==> (r matches Err(MaestroError::UserConfigNotFound(m)) && m@
            == user_config_not_found_msg(d@)),
        read matches Ok(t) ==> (!json_parses(t@) ==> r matches Err(
            MaestroError::UserConfigParseError(_),
        )),
        read matches Ok(t) ==> (json_parses(t@) && user_doc_entries(t@) is None ==> r matches Err(
            MaestroError::UserConfigParseError(_),
        )),
        read matches Ok(t) ==> (user_doc_entries(t@) matches Some(es) ==> ((!entries_wf(es)
            ==> r matches Err(MaestroError::UserConfigParseError(_))) && (entries_wf(es)
            && entries_valid(es) ==> r is Ok) && (entries_wf(es) && !entries_valid(es)
            ==> first_invalid_error(es, r)))),
        r matches Ok(m) ==> (read matches Ok(t) && (user_doc_entries(t@) matches Some(es)
            && binds_to(es, m)) && m.valid()),
        read is Ok ==> (r is Ok || r matches Err(MaestroError::UserConfigParseError(_)) || r
            matches Err(MaestroError::ValidationError(_))),
{
    match read {
        Err(d) => Err(
            MaestroError::UserConfigNotFound(
                concat3(
                    "Failed to load user configuration: ",
                    d.as_str(),
                    "\nEnsure Maestro is configured",
                ),
            ),
        ),
        Ok(text) => match parse_json(text.as_str()) {
            Err(e) => {
                let detail = json_error_text(&e);
                Err(
                    MaestroError::UserConfigParseError(
                        concat2("Failed to parse user configuration: ", detail.as_str()),
                    ),
                )
            },
            Ok(v) => match maestro_from_value(&v) {
                Err(detail) => Err(
                    MaestroError::UserConfigParseError(
                        concat2("Failed to parse user configuration: ", detail.as_str()),
                    ),
                ),
                Ok(maestro) => {
                    let vres = maestro.validate();
                    match vres {
                        Ok(()) => {
                            proof {
                                let es = choose|es: Seq<serde_json::Value>|
                                    doc_entries(v) == Some(es) && binds_to(es, maestro);
                                assert forall|i: int| 0 <= i < es.len() implies entry_valid(
                                    #[trigger] es[i],
                                ) by {
                                    lemma_entry_matches_validity(es[i], maestro.workspaces@[i]);
                                }
                            }
                            Ok(maestro)
                        },
                        Err(e2) => {
                            proof {
                                let es = choose|es: Seq<serde_json::Value>|
                                    doc_entries(v) == Some(es) && binds_to(es, maestro);
                                let ws = maestro.workspaces@;
                                let i = choose|i: int|
                                    {
                                        &&& 0 <= i < ws.len()
                                        &&& !(#[trigger] ws[i]).valid()
                                        &&& forall|j: int|
                                            0 <= j < i ==> (#[trigger] ws[j]).valid()
                                        &&& (vres matches Err(MaestroError::ValidationError(m))
                                            && m@ == ws[i].first_broken_rule())
                                    };
                                lemma_entry_matches_validity(es[i], ws[i]);
                                assert forall|j: int| 0 <= j < i implies entry_valid(
                                    #[trigger] es[j],
                                ) by {
                                    lemma_entry_matches_validity(es[j], ws[j]);
                                }
                                assert(!entry_valid(es[i]));
                                assert(first_invalid_error(es, Err(e2)));
                            }
                            Err(e2)
                        },
                    }
                },
            },
        },
    }
}

/// Renders the document that persists a pointer record: loading it back
/// dereferences to exactly the stored path.
pub fn render_pointer(c: &Config) -> (r: String)
    ensures
        r@ == pointer_doc_of(c@),
        pointer_path_of(r@) == Some(c@),
{
    let lit = json_string_literal(c.config_file_path());
    let out = concat3("{\n  \"config_file_path\": ", lit.as_str(), "\n}");
    proof {
        assert(out@ == pointer_doc_around(lit@));
    }
    out
}

/// Prepares a save from the outcome of canonicalizing the user-supplied
/// path.
///
/// `canon` is what the caller's path resolution produced for
/// `user_config_path`: the absolute, symlink-free form, or the reason the
/// path could not be resolved.  On success the new pointer record holds
/// exactly the canonical path, and the rendered document to persist comes
/// with it — a document a later load dereferences back to that path; on
/// failure nothing is produced but `PathResolutionError`, so a failed save
/// never touches the pointer file.
pub fn plan_save(user_config_path: &str, canon: Result<String, String>) -> (r: Result<
    (Config, String),
    MaestroError,
>)
    ensures
        canon matches Ok(p) ==> (r matches Ok(cs) && cs.0@ == p@ && cs.1@ == pointer_doc_of(p@)
            && pointer_path_of(cs.1@) == Some(p@)),
        canon matches Err(d) ==> (r matches Err(MaestroError::PathResolutionError(m)) && m@
            == path_resolution_msg(user_config_path@, d@)),
{
    match canon {
        Ok(p) => {
            let config = Config::new(p);
            let text = render_pointer(&config);
            Ok((config, text))
        },
        Err(d) => Err(
            MaestroError::PathResolutionError(
                concat5(
                    "Failed to canonicalize path '",
                    user_config_path,
                    "': ",
                    d.as_str(),
                    "\nEnsure the file exists",
                ),
            ),
        ),
    }
}

/// The error reported when the caller could not create or write the
/// pointer file that a save had prepared.
pub fn write_failure(detail: &str) -> (e: MaestroError)
    ensures
        e matches MaestroError::WriteError(m) && m@ == write_failure_msg(detail@),
{
    MaestroError::WriteError(
        concat3(
            "Failed to configure Maestro: ",
            detail,
            "\nEnsure Maestro has write permissions and reconfigure",
        ),
    )
}

} // verus!
