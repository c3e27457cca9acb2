//! The TOML helper bound into scripts: rewrite every path dependency of
//! a manifest to a git dependency, preserving the document's formatting.
//!
//! The document lives in a format-preserving TOML editor of an outside
//! crate, taken on trust through the contracts below. Its contents are
//! abstracted twice: `doc_str`, the serialized text, and `doc_deps`, a
//! map from (dependency table, dependency name) to the entry's kind —
//! 0 for a non-table entry, 1 for a table-like entry without a `path`
//! key, 2 for a table-like entry with one.

use vstd::prelude::*;
use vstd::string::*;
use vstd::utf8::{valid_utf8, decode_utf8, encode_utf8};

verus! {

/// Why a manifest was rejected.
#[derive(Debug)]
pub enum TomlError {
    /// The bytes are not UTF-8.
    InvalidUtf8,
    /// The text is not a TOML document.
    InvalidToml,
}

impl TomlError {
    /// The diagnostic text a script sees for this error.
    pub fn message(&self) -> (r: String)
        ensures
            self is InvalidUtf8 ==> r@ == "toml is invalid UTF8"@,
            self is InvalidToml ==> r@ == "Not a valid toml document"@,
    {
        match self {
            TomlError::InvalidUtf8 => "toml is invalid UTF8".to_owned(),
            TomlError::InvalidToml => "Not a valid toml document".to_owned(),
        }
    }
}

#[verifier::external_type_specification]
#[verifier::external_body]
pub struct ExDocumentMut(toml_edit::DocumentMut);

/// What parsing a text as TOML yields: the document's canonical
/// re-serialization and its dependency-kind map, or None when the text
/// is no TOML document. Parsing is a pure function of the text.
pub uninterp spec fn toml_model(s: Seq<char>) -> Option<
    (Seq<char>, Map<(Seq<char>, Seq<char>), int>),
>;

/// The serialization of a document.
pub uninterp spec fn doc_str(d: toml_edit::DocumentMut) -> Seq<char>;

/// The dependency entries of a document: for each of the dependency
/// tables and each entry in it, the entry's kind.
pub uninterp spec fn doc_deps(d: toml_edit::DocumentMut) -> Map<(Seq<char>, Seq<char>), int>;

/// Whether the document's serialization parses back to a document with
/// that same serialization and the same dependency entries. Parsed
/// documents have this, and the key-checked edits keep it; a document
/// whose raw decor was hand-fed arbitrary text need not.
pub uninterp spec fn doc_round_trips(d: toml_edit::DocumentMut) -> bool;

/// Whether one table holds no entry that is a table with a `path` key.
pub open spec fn no_table_path_deps(
    deps: Map<(Seq<char>, Seq<char>), int>,
    table: Seq<char>,
) -> bool {
    forall|k: (Seq<char>, Seq<char>)| deps.contains_key(k) && k.0 == table ==> deps[k] != 2
}

/// Whether none of the three dependency tables holds a path dependency:
/// exactly the inputs on which the rewrite has nothing to do.
pub open spec fn no_rewrite_targets(deps: Map<(Seq<char>, Seq<char>), int>) -> bool {
    no_table_path_deps(deps, "dependencies"@) && no_table_path_deps(deps, "build-dependencies"@)
        && no_table_path_deps(deps, "dev-dependencies"@)
}

/// The dependency map after rewriting one table: every table-like entry
/// of that table holding a `path` key (kind 2) becomes a git dependency
/// (kind 1); every other entry keeps its kind.
pub open spec fn spec_rewrite(
    deps: Map<(Seq<char>, Seq<char>), int>,
    table: Seq<char>,
) -> Map<(Seq<char>, Seq<char>), int> {
    Map::new(
        |k: (Seq<char>, Seq<char>)| deps.contains_key(k),
        |k: (Seq<char>, Seq<char>)|
            if k.0 == table && deps[k] == 2 {
                1int
            } else {
                deps[k]
            },
    )
}

/// The dependency map after the whole rewrite: the three dependency
/// tables rewritten in turn.
pub open spec fn spec_rewrite_all(deps: Map<(Seq<char>, Seq<char>), int>) -> Map<
    (Seq<char>, Seq<char>),
    int,
> {
    spec_rewrite(
        spec_rewrite(spec_rewrite(deps, "dependencies"@), "build-dependencies"@),
        "dev-dependencies"@,
    )
}

/// The rewrite never makes a path dependency: a rewritten table holds
/// none, and later rewrites keep it that way.
proof fn lemma_rewrite_clears(deps: Map<(Seq<char>, Seq<char>), int>, table: Seq<char>)
    ensures
        no_table_path_deps(spec_rewrite(deps, table), table),
        forall|t: Seq<char>|
            #[trigger] no_table_path_deps(deps, t) ==> no_table_path_deps(
                spec_rewrite(deps, table),
                t,
            ),
{
}

/// Law: a full rewrite leaves no path dependency in any of the three
/// dependency tables. Its output therefore satisfies the rewrite's own
/// no-op condition, and with the output reparsing to its own text, the
/// rewrite's contract makes a second application return its input
/// unchanged — the rewrite is idempotent.
pub proof fn lemma_rewrite_all_clears(deps: Map<(Seq<char>, Seq<char>), int>)
    ensures
        no_rewrite_targets(spec_rewrite_all(deps)),
{
    let d1 = spec_rewrite(deps, "dependencies"@);
    let d2 = spec_rewrite(d1, "build-dependencies"@);
    lemma_rewrite_clears(deps, "dependencies"@);
    lemma_rewrite_clears(d1, "build-dependencies"@);
    lemma_rewrite_clears(d2, "dev-dependencies"@);
}

/// Relies on String::from_utf8: accepts exactly valid UTF-8 and decodes
/// it.
#[verifier::external_body]
fn utf8_to_string(b: Vec<u8>) -> (r: Result<String, TomlError>)
    ensures
        r is Ok <==> valid_utf8(b@),
        r matches Ok(s) ==> s@ == decode_utf8(b@),
        r matches Err(e) ==> e is InvalidUtf8,
{
    String::from_utf8(b).map_err(|_| TomlError::InvalidUtf8)
}

/// Relies on toml_edit's parser: a text parses if and only if it is a
/// TOML document, deterministically; the resulting document carries the
/// model's dependency entries and — the editor is format-preserving —
/// serializes back to the parsed text itself.
#[verifier::external_body]
fn toml_parse(s: &str) -> (r: Result<toml_edit::DocumentMut, TomlError>)
    ensures
        r is Ok <==> toml_model(s@) is Some,
        r matches Ok(d) ==> doc_str(d) == toml_model(s@).unwrap().0,
        r matches Ok(d) ==> doc_deps(d) == toml_model(s@).unwrap().1,
        r is Ok ==> toml_model(s@).unwrap().0 == s@,
        r matches Ok(d) ==> doc_round_trips(d),
        r matches Err(e) ==> e is InvalidToml,
{
    s.parse::<toml_edit::DocumentMut>().map_err(|_| TomlError::InvalidToml)
}

/// Relies on toml_edit's Display and its lossless round trip: the
/// serialization preserves the document's formatting, and for a
/// round-tripping document it is a valid TOML text that parses back to
/// that same serialization and the same dependency entries.
#[verifier::external_body]
fn toml_to_string(d: &toml_edit::DocumentMut) -> (r: String)
    ensures
        r@ == doc_str(*d),
        doc_round_trips(*d) ==> toml_model(r@) == Some((r@, doc_deps(*d))),
{
    d.to_string()
}

/// Relies on toml_edit's Table and InlineTable: the names and kinds of
/// the entries of one dependency table — each returned pair is in the
/// document's dependency map, and every entry of that table is
/// returned.
#[verifier::external_body]
fn toml_dep_kinds(d: &toml_edit::DocumentMut, table: &str) -> (r: Vec<(String, u8)>)
    ensures
        forall|i: int|
            0 <= i < r@.len() ==> #[trigger] doc_deps(*d).contains_key((table@, r@[i].0@))
                && doc_deps(*d)[(table@, r@[i].0@)] == r@[i].1 as int,
        forall|name: Seq<char>|
            #[trigger] doc_deps(*d).contains_key((table@, name)) ==> exists|i: int|
                0 <= i < r@.len() && r@[i].0@ == name,
{
    let deps = match d.get(table) {
        Some(toml_edit::Item::Table(deps)) => deps,
        _ => return Vec::new(),
    };
    deps.iter().map(|(name, value)| {
        let kind = match value {
            toml_edit::Item::Table(dep) => 1 + (dep.contains_key("path") as u8),
            toml_edit::Item::Value(toml_edit::Value::InlineTable(dep)) => {
                1 + (dep.contains_key("path") as u8)
            },
            _ => 0,
        };
        (String::from(name), kind)
    }).collect()
}

/// Relies on toml_edit's Table and InlineTable: on a dependency entry
/// that is table-like (kind 1 or 2), removes any `path` key and inserts
/// `git` and `branch` keys with the given values, leaving it a table
/// without a `path` key, the other entries keeping their kinds; any
/// other entry, and any other shape of table, is left untouched. The
/// keys and values go through the editor's checked constructors, so a
/// round-tripping document stays round-tripping.
#[verifier::external_body]
fn toml_replace_dep(
    d: &mut toml_edit::DocumentMut,
    table: &str,
    name: &str,
    url: &str,
    branch: &str,
)
    ensures
        doc_deps(*old(d)).contains_key((table@, name@)) && doc_deps(*old(d))[(table@, name@)]
            != 0 ==> doc_deps(*final(d)) == doc_deps(*old(d)).insert((table@, name@), 1int),
        !(doc_deps(*old(d)).contains_key((table@, name@)) && doc_deps(*old(d))[(
            table@,
            name@,
        )] != 0) ==> *final(d) == *old(d),
        doc_round_trips(*old(d)) ==> doc_round_trips(*final(d)),
{
    let dep = d.get_mut(table).and_then(|t| t.as_table_mut()).and_then(|t| t.get_mut(name));
    match dep {
        Some(toml_edit::Item::Table(dep)) => {
            dep.remove("path");
            dep.insert("git", toml_edit::Item::Value(toml_edit::Value::from(url)));
            dep.insert("branch", toml_edit::Item::Value(toml_edit::Value::from(branch)));
        },
        Some(toml_edit::Item::Value(toml_edit::Value::InlineTable(dep))) => {
            dep.remove("path");
            dep.insert("git", toml_edit::Value::from(url));
            dep.insert("branch", toml_edit::Value::from(branch));
        },
        _ => {},
    }
}

/// Rewrite every path dependency of one dependency table: the
/// document's dependency map becomes `spec_rewrite` of the old one, and
/// a table that held no path dependency leaves the document untouched.
fn rewrite_table(d: &mut toml_edit::DocumentMut, table: &str, url: &str, branch: &str)
    ensures
        no_table_path_deps(doc_deps(*old(d)), table@) ==> *final(d) == *old(d),
        doc_deps(*final(d)) == spec_rewrite(doc_deps(*old(d)), table@),
        doc_round_trips(*old(d)) ==> doc_round_trips(*final(d)),
{
    let entries = toml_dep_kinds(d, table);
    let ghost d0 = *d;
    let mut i: usize = 0;
    while i < entries.len()
        invariant
            i <= entries@.len(),
            no_table_path_deps(doc_deps(d0), table@) ==> *d == d0,
            doc_round_trips(d0) ==> doc_round_trips(*d),
            forall|j: int|
                0 <= j < entries@.len() ==> #[trigger] doc_deps(d0).contains_key((
                    table@,
                    entries@[j].0@,
                )) && doc_deps(d0)[(table@, entries@[j].0@)] == entries@[j].1 as int,
            forall|name: Seq<char>|
                #[trigger] doc_deps(d0).contains_key((table@, name)) ==> exists|j: int|
                    0 <= j < entries@.len() && entries@[j].0@ == name,
            doc_deps(*d).dom() == doc_deps(d0).dom(),
            forall|k: (Seq<char>, Seq<char>)|
                #[trigger] doc_deps(d0).contains_key(k) ==> doc_deps(*d)[k] == (
                if k.0 == table@ && doc_deps(d0)[k] == 2 && (exists|j: int|
                    0 <= j < i && entries@[j].0@ == k.1) {
                    1int
                } else {
                    doc_deps(d0)[k]
                }),
        decreases entries@.len() - i,
    {
        let ghost before = doc_deps(*d);
        if entries[i].1 == 2 {
            proof {
                assert(doc_deps(d0).contains_key((table@, entries@[i as int].0@)));
                if no_table_path_deps(doc_deps(d0), table@) {
                    assert(doc_deps(d0)[(table@, entries@[i as int].0@)] != 2);
                }
                assert(before[(table@, entries@[i as int].0@)] != 0);
            }
            toml_replace_dep(d, table, entries[i].0.as_str(), url, branch);
            proof {
                let key = (table@, entries@[i as int].0@);
                assert(doc_deps(*d) == before.insert(key, 1int));
                assert(doc_deps(*d).dom() =~= doc_deps(d0).dom());
                assert forall|k: (Seq<char>, Seq<char>)|
                    #[trigger] doc_deps(d0).contains_key(k) implies doc_deps(*d)[k] == (
                if k.0 == table@ && doc_deps(d0)[k] == 2 && (exists|j: int|
                    0 <= j < i + 1 && entries@[j].0@ == k.1) {
                    1int
                } else {
                    doc_deps(d0)[k]
                }) by {
                    if k == key {
                        assert(entries@[i as int].0@ == k.1);
                    } else {
                        assert(doc_deps(*d)[k] == before[k]);
                        if k.0 == table@ && doc_deps(d0)[k] == 2 {
                            assert forall|j: int|
                                0 <= j < i + 1 && entries@[j].0@ == k.1 implies 0 <= j < i by {
                                if j == i {
                                    assert(k == key);
                                }
                            }
                        }
                    }
                }
            }
        } else {
            proof {
                assert forall|k: (Seq<char>, Seq<char>)|
                    #[trigger] doc_deps(d0).contains_key(k) && k.0 == table@ && doc_deps(d0)[k]
                        == 2 && (exists|j: int| 0 <= j < i + 1 && entries@[j].0@ == k.1) implies (
                exists|j: int| 0 <= j < i && entries@[j].0@ == k.1) by {
                    let j = choose|j: int| 0 <= j < i + 1 && entries@[j].0@ == k.1;
                    if j == i {
                        assert(doc_deps(d0)[(table@, entries@[i as int].0@)] == entries@[
                            i as int
                        ].1 as int);
                    }
                }
            }
        }
        i = i + 1;
    }
    proof {
        assert(doc_deps(*d) =~= spec_rewrite(doc_deps(d0), table@)) by {
            assert(doc_deps(*d).dom() =~= spec_rewrite(doc_deps(d0), table@).dom());
            assert forall|k: (Seq<char>, Seq<char>)|
                #[trigger] doc_deps(d0).contains_key(k) implies doc_deps(*d)[k] == spec_rewrite(
                doc_deps(d0),
                table@,
            )[k] by {
                if k.0 == table@ && doc_deps(d0)[k] == 2 {
                    assert(exists|j: int|
                        0 <= j < entries@.len() && entries@[j].0@ == k.1);
                }
            }
        }
    }
}

/// Rewrite the path dependencies of a manifest to git dependencies.
///
/// The bytes are decoded and parsed as a format-preserving TOML
/// document; in each of the `dependencies`, `build-dependencies` and
/// `dev-dependencies` tables, every table-like entry holding a `path`
/// key has it replaced with `git` and `branch` keys. Invalid UTF-8 and
/// invalid TOML are rejected; a manifest whose dependency tables hold
/// no path dependency comes back unchanged, and otherwise the output is
/// a TOML text that reparses to itself and whose dependency map is the
/// input's with exactly those entries turned into git dependencies.
pub fn replace_path_dependencies_with_git(toml: Vec<u8>, url: String, branch: String) -> (r:
    Result<Vec<u8>, TomlError>)
    ensures
        !valid_utf8(toml@) ==> (r matches Err(e) && e is InvalidUtf8),
        valid_utf8(toml@) && toml_model(decode_utf8(toml@)) is None ==> (r matches Err(e)
            && e is InvalidToml),
        valid_utf8(toml@) && toml_model(decode_utf8(toml@)) is Some && no_rewrite_targets(
            toml_model(decode_utf8(toml@)).unwrap().1,
        ) ==> (r matches Ok(b) && b@ == toml@),
        valid_utf8(toml@) && toml_model(decode_utf8(toml@)) is Some ==> (r matches Ok(b)
            && valid_utf8(b@) && toml_model(decode_utf8(b@)) is Some && toml_model(
            decode_utf8(b@),
        ).unwrap().0 == decode_utf8(b@) && toml_model(decode_utf8(b@)).unwrap().1
            == spec_rewrite_all(toml_model(decode_utf8(toml@)).unwrap().1)),
{
    let ghost input = toml@;
    let text = match utf8_to_string(toml) {
        Ok(text) => text,
        Err(e) => {
            return Err(e);
        },
    };
    let mut doc = match toml_parse(text.as_str()) {
        Ok(doc) => doc,
        Err(e) => {
            return Err(e);
        },
    };
    let ghost parsed = doc;
    rewrite_table(&mut doc, "dependencies", url.as_str(), branch.as_str());
    rewrite_table(&mut doc, "build-dependencies", url.as_str(), branch.as_str());
    rewrite_table(&mut doc, "dev-dependencies", url.as_str(), branch.as_str());
    let out = toml_to_string(&doc);
    let bytes = out.as_str().as_bytes_vec();
    proof {
        assert(doc_deps(doc) == spec_rewrite_all(doc_deps(parsed)));
        vstd::utf8::encode_utf8_valid_utf8(out@);
        vstd::utf8::encode_utf8_decode_utf8(out@);
        if no_rewrite_targets(doc_deps(parsed)) {
            assert(doc == parsed);
            assert(out@ == decode_utf8(input));
            vstd::utf8::decode_utf8_encode_utf8(input);
            assert(bytes@ == input);
        }
    }
    Ok(bytes)
}

} // verus!
