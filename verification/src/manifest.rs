//! Rewriting a fixture's package manifest for the local tooling.

use crate::json::{
    as_flag, as_text, duplicate, empty_object, insert_member, is_object, json_model, lists_name,
    member, member_names, parse_value, parsed_json, pretty_json, render_pretty, text_value,
    JsonModel,
};
use crate::text::strip_prefix;
use serde_json::Value;
use vstd::prelude::*;

verus! {

/// How a test script of the fixture's own tooling starts.
pub open spec fn legacy_runner() -> Seq<char> {
    "node --test"@
}

/// What replaces it.
pub open spec fn local_runner() -> Seq<char> {
    "bun test"@
}

/// The `engines` member of a patched manifest: the minimum runtime version.
pub open spec fn engines_model() -> JsonModel {
    JsonModel::Object(Map::empty().insert("bun"@, JsonModel::Text(">=1.3.9"@)))
}

/// One script, rewritten: a text that starts with the legacy runner has that
/// one occurrence replaced; anything else stays.
pub open spec fn patched_script(script: JsonModel) -> JsonModel {
    match script {
        JsonModel::Text(text) => if legacy_runner().is_prefix_of(text) {
            JsonModel::Text(local_runner() + text.skip(legacy_runner().len() as int))
        } else {
            script
        },
        _ => script,
    }
}

/// The members of `scripts`, each rewritten.
pub open spec fn patched_scripts(scripts: Map<Seq<char>, JsonModel>) -> Map<
    Seq<char>,
    JsonModel,
> {
    Map::new(
        |name: Seq<char>| scripts.contains_key(name),
        |name: Seq<char>| patched_script(scripts[name]),
    )
}

/// The members of a patched manifest: `type` and `engines` set, the scripts
/// rewritten where `scripts` is an object, every other member as it was.
pub open spec fn patched_members(members: Map<Seq<char>, JsonModel>) -> Map<
    Seq<char>,
    JsonModel,
> {
    let marked = members.insert("type"@, JsonModel::Text("module"@)).insert(
        "engines"@,
        engines_model(),
    );
    if members.contains_key("scripts"@) && members["scripts"@] is Object {
        marked.insert(
            "scripts"@,
            JsonModel::Object(patched_scripts(members["scripts"@].members())),
        )
    } else {
        marked
    }
}

/// The manifest transform. Only an object is a manifest: any other document
/// is returned as it is.
pub open spec fn patched_manifest(document: JsonModel) -> JsonModel {
    match document {
        JsonModel::Object(members) => JsonModel::Object(patched_members(members)),
        _ => document,
    }
}

/// Whether a manifest declares its package private: an object whose member
/// `private` is the boolean `true`.
pub open spec fn is_private(document: JsonModel) -> bool {
    document.has_member("private"@) && document.members()["private"@] == JsonModel::Boolean(true)
}

/// Why a manifest is left as it is.
#[derive(Clone, Copy, Debug, PartialEq, Eq, Structural)]
pub enum ManifestError {
    /// The text is not JSON.
    NotJson,
    /// The text is JSON, but not an object.
    NotAnObject,
    /// Only private packages were asked for, and this one is not.
    NotPrivate,
    /// The patched manifest could not be printed.
    Unprintable,
}

/// The text of a manifest file after patching: the patched document, pretty
/// printed, and a line break. With `private_only`, packages that do not
/// declare themselves private are refused.
pub open spec fn patched_text(text: Seq<char>, private_only: bool) -> Result<
    Seq<char>,
    ManifestError,
> {
    match parsed_json(text) {
        None => Err(ManifestError::NotJson),
        Some(document) => if !(document is Object) {
            Err(ManifestError::NotAnObject)
        } else if private_only && !is_private(document) {
            Err(ManifestError::NotPrivate)
        } else {
            match pretty_json(patched_manifest(document)) {
                Some(printed) => Ok(printed + "\n"@),
                None => Err(ManifestError::Unprintable),
            }
        },
    }
}

/// The names that the transform writes to.
pub open spec fn is_patched_name(name: Seq<char>) -> bool {
    name == "type"@ || name == "engines"@ || name == "scripts"@
}

/// The three names that the transform writes to differ from each other.
proof fn lemma_patched_names_differ()
    ensures
        "type"@ != "engines"@,
        "type"@ != "scripts"@,
        "engines"@ != "scripts"@,
{
    reveal_strlit("type");
    reveal_strlit("engines");
    reveal_strlit("scripts");
    assert("engines"@[0] == 'e');
    assert("scripts"@[0] == 's');
}

/// A text that starts with the local runner does not start with the legacy
/// one.
proof fn lemma_local_runner_is_not_legacy(rest: Seq<char>)
    ensures
        !legacy_runner().is_prefix_of(local_runner() + rest),
{
    reveal_strlit("node --test");
    reveal_strlit("bun test");
    let text = local_runner() + rest;
    if legacy_runner().is_prefix_of(text) {
        assert(text.subrange(0, legacy_runner().len() as int)[0] == legacy_runner()[0]);
    }
}

/// Rewriting a script twice is rewriting it once.
pub proof fn law_script_rewrite_is_idempotent(script: JsonModel)
    ensures
        patched_script(patched_script(script)) == patched_script(script),
{
    match script {
        JsonModel::Text(text) => {
            if legacy_runner().is_prefix_of(text) {
                lemma_local_runner_is_not_legacy(text.skip(legacy_runner().len() as int));
            }
        },
        _ => {},
    }
}

/// A member that the transform does not write to passes through: it is there
/// afterwards exactly if it was there before, with the value it had.
pub proof fn law_other_members_pass_through(members: Map<Seq<char>, JsonModel>, name: Seq<char>)
    requires
        !is_patched_name(name),
    ensures
        patched_members(members).contains_key(name) == members.contains_key(name),
        members.contains_key(name) ==> patched_members(members)[name] == members[name],
{
}

/// What the transform writes: `type` is `"module"`, `engines` the minimum
/// runtime version, and `scripts`, where it was an object, the object of its
/// rewritten members; a `scripts` member of another kind stays, and none is
/// added.
pub proof fn law_patched_members_are_set(members: Map<Seq<char>, JsonModel>)
    ensures
        patched_members(members).contains_key("type"@),
        patched_members(members)["type"@] == JsonModel::Text("module"@),
        patched_members(members).contains_key("engines"@),
        patched_members(members)["engines"@] == engines_model(),
        patched_members(members).contains_key("scripts"@) == members.contains_key("scripts"@),
        members.contains_key("scripts"@) ==> patched_members(members)["scripts"@] == (
        if members["scripts"@] is Object {
            JsonModel::Object(patched_scripts(members["scripts"@].members()))
        } else {
            members["scripts"@]
        }),
{
    lemma_patched_names_differ();
}

/// The manifest transform is idempotent: applying it to its own result
/// changes nothing.
pub proof fn law_patch_is_idempotent(document: JsonModel)
    ensures
        patched_manifest(patched_manifest(document)) == patched_manifest(document),
{
    match document {
        JsonModel::Object(members) => {
            lemma_patched_names_differ();
            let once = patched_members(members);
            if members.contains_key("scripts"@) && members["scripts"@] is Object {
                let scripts = members["scripts"@].members();
                assert forall|name: Seq<char>| #[trigger]
                    patched_scripts(scripts).contains_key(name) implies patched_script(
                    patched_scripts(scripts)[name],
                ) == patched_scripts(scripts)[name] by {
                    law_script_rewrite_is_idempotent(scripts[name]);
                }
                assert(patched_scripts(patched_scripts(scripts)) =~= patched_scripts(scripts));
            }
            assert(patched_members(once) =~= once);
        },
        _ => {},
    }
}

/// A document that is not an object is its own transform.
pub proof fn law_non_object_is_unchanged(document: JsonModel)
    requires
        !(document is Object),
    ensures
        patched_manifest(document) == document,
{
}

/// The `engines` member of a patched manifest.
fn engines_value() -> (v: Value)
    ensures
        json_model(v) == engines_model(),
{
    let mut engines = empty_object();
    insert_member(&mut engines, "bun", text_value(">=1.3.9"));
    engines
}

/// The rewritten form of one script, where rewriting changes it.
fn rewritten_script(script: &Value) -> (r: Option<Value>)
    ensures
        match r {
            Some(v) => json_model(v) == patched_script(json_model(*script)),
            None => patched_script(json_model(*script)) == json_model(*script),
        },
{
    match as_text(script) {
        Some(text) => match strip_prefix(text, "node --test") {
            Some(rest) => {
                let mut rewritten = String::from_str("bun test");
                rewritten.append(rest);
                proof {
                    let legacy = legacy_runner();
                    assert(text@.skip(legacy.len() as int) =~= rest@);
                }
                Some(text_value(rewritten.as_str()))
            },
            None => None,
        },
        None => None,
    }
}

/// A copy of the `scripts` object with every script rewritten.
fn rewritten_scripts(scripts: &Value) -> (out: Value)
    requires
        json_model(*scripts) is Object,
    ensures
        json_model(out) == JsonModel::Object(patched_scripts(json_model(*scripts).members())),
{
    let ghost source = json_model(*scripts).members();
    let mut out = duplicate(scripts);
    let names = member_names(scripts);
    let mut i: usize = 0;
    while i < names.len()
        invariant
            i <= names.len(),
            json_model(*scripts) == JsonModel::Object(source),
            json_model(out) is Object,
            forall|name: Seq<char>| #[trigger]
                source.contains_key(name) <==> lists_name(names@, name),
            forall|name: Seq<char>| #[trigger]
                json_model(out).members().contains_key(name) <==> source.contains_key(name),
            forall|name: Seq<char>| #[trigger]
                source.contains_key(name) ==> json_model(out).members()[name] == if lists_name(
                    names@.take(i as int),
                    name,
                ) {
                    patched_script(source[name])
                } else {
                    source[name]
                },
        decreases names.len() - i,
    {
        let name = names[i].as_str();
        match member(scripts, name) {
            Some(script) => {
                match rewritten_script(script) {
                    Some(rewritten) => {
                        insert_member(&mut out, name, rewritten);
                    },
                    None => {},
                }
            },
            None => {},
        }
        proof {
            let after = json_model(out).members();
            let done = names@.take(i as int);
            let done_next = names@.take(i + 1);
            assert(done_next[i as int]@ == name@);
            assert forall|other: Seq<char>| #[trigger]
                source.contains_key(other) implies after[other] == if lists_name(
                done_next,
                other,
            ) {
                patched_script(source[other])
            } else {
                source[other]
            } by {
                // A name listed among the first `i` is listed among the first
                // `i + 1`; one listed there is `name` or listed before.
                if other != name@ && lists_name(done, other) {
                    let j = choose|j: int| 0 <= j < done.len() && (#[trigger] done[j])@ == other;
                    assert(done_next[j]@ == other);
                }
                if other != name@ && lists_name(done_next, other) {
                    let j = choose|j: int|
                        0 <= j < done_next.len() && (#[trigger] done_next[j])@ == other;
                    assert(done[j]@ == other);
                }
            }
        }
        i = i + 1;
    }
    proof {
        assert(names@.take(i as int) =~= names@);
        assert(json_model(out).members() =~= patched_scripts(source));
    }
    out
}

/// Applies the manifest transform in place.
///
/// On an object: `type` becomes `"module"`, `engines` the minimum runtime
/// version, and where `scripts` is an object, each of its text members that
/// starts with the legacy test runner has that first occurrence replaced by
/// the local one. Every other member is left as it is. Any other document is
/// left untouched.
pub fn patch_package_json_value(pkg: &mut Value)
    ensures
        json_model(*final(pkg)) == patched_manifest(json_model(*old(pkg))),
{
    if !is_object(pkg) {
        return;
    }
    insert_member(pkg, "type", text_value("module"));
    insert_member(pkg, "engines", engines_value());
    proof {
        lemma_patched_names_differ();
    }
    let scripts = match member(pkg, "scripts") {
        Some(scripts) => if is_object(scripts) {
            Some(rewritten_scripts(scripts))
        } else {
            None
        },
        None => None,
    };
    match scripts {
        Some(scripts) => {
            insert_member(pkg, "scripts", scripts);
        },
        None => {},
    }
}

/// Whether a manifest declares its package private.
fn declares_private(pkg: &Value) -> (b: bool)
    ensures
        b == is_private(json_model(*pkg)),
{
    match member(pkg, "private") {
        Some(flag) => match as_flag(flag) {
            Some(private) => private,
            None => false,
        },
        None => false,
    }
}

/// Parses, patches and prints a manifest.
fn patch_text(content: &str, private_only: bool) -> (r: Result<String, ManifestError>)
    ensures
        match r {
            Ok(text) => patched_text(content@, private_only) == Ok::<Seq<char>, ManifestError>(
                text@,
            ),
            Err(e) => patched_text(content@, private_only) == Err::<Seq<char>, ManifestError>(e),
        },
{
    let mut pkg = match parse_value(content) {
        Ok(pkg) => pkg,
        Err(_) => {
            return Err(ManifestError::NotJson);
        },
    };
    if !is_object(&pkg) {
        return Err(ManifestError::NotAnObject);
    }
    if private_only && !declares_private(&pkg) {
        return Err(ManifestError::NotPrivate);
    }
    patch_package_json_value(&mut pkg);
    match render_pretty(&pkg) {
        Ok(mut printed) => {
            printed.append("\n");
            Ok(printed)
        },
        Err(_) => Err(ManifestError::Unprintable),
    }
}

/// The new text of a fixture's root manifest.
///
/// A text that is not a JSON object is refused, and the caller leaves the file
/// alone.
pub fn patch_manifest_text(content: &str) -> (r: Result<String, ManifestError>)
    ensures
        match r {
            Ok(text) => patched_text(content@, false) == Ok::<Seq<char>, ManifestError>(text@),
            Err(e) => patched_text(content@, false) == Err::<Seq<char>, ManifestError>(e),
        },
{
    patch_text(content, false)
}

/// The new text of the manifest of a package bundled inside a fixture. Only a
/// manifest with `"private": true` is patched.
pub fn patch_subpackage_text(content: &str) -> (r: Result<String, ManifestError>)
    ensures
        match r {
            Ok(text) => patched_text(content@, true) == Ok::<Seq<char>, ManifestError>(text@),
            Err(e) => patched_text(content@, true) == Err::<Seq<char>, ManifestError>(e),
        },
{
    patch_text(content, true)
}

} // verus!
