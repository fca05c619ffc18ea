//! The CMake File API reply model and the rules for reading it.

use vstd::prelude::*;
use vstd::string::StringExecFns;

use crate::error::{Error, ErrorView, IoErrorKind, IoFailure};
use crate::text::{
    chars_of, compare_text, decimal, decimal_text, join_path, join_spec, lemma_text_lt_asymmetric,
    lemma_text_lt_irreflexive, lemma_text_lt_total, lemma_text_lt_transitive, text_lt, Order,
};

verus! {

/// A File API object version.
#[derive(Debug, Clone, Copy)]
pub struct Version {
    pub major: u64,
    pub minor: u64,
}

/// A reply index entry that refers to a reply object file.
#[derive(Debug)]
pub struct ReplyReference {
    pub kind: String,
    pub version: Version,
    pub json_file: String,
}

/// A reply index entry that reports why CMake rejected a query.
#[derive(Debug)]
pub struct QueryError {
    pub error: String,
}

/// CMake's answer to one query: a reference to a reply object, or an error.
#[derive(Debug)]
pub enum QueryResponse {
    Reference(ReplyReference),
    Error(QueryError),
}

/// CMake's answers to the queries of this client.
#[derive(Debug)]
pub struct ClientQueries {
    /// The answer to `codemodel-v2`.
    pub codemodel: Option<QueryResponse>,
    /// The answer to `cmakeFiles-v1`.
    pub cmake_files: Option<QueryResponse>,
}

/// The `reply` member of a reply index.
#[derive(Debug)]
pub struct ReplyQueries {
    /// The answers to the queries of the `client-cmake-ls` client.
    pub client: Option<ClientQueries>,
}

/// A File API reply index.
#[derive(Debug)]
pub struct ReplyIndex {
    pub reply: ReplyQueries,
}

/// A target of a build configuration.
#[derive(Debug)]
pub struct Target {
    pub name: String,
}

/// A build configuration of the codemodel.
#[derive(Debug)]
pub struct Configuration {
    pub targets: Vec<Target>,
}

/// The `codemodel` reply object.
#[derive(Debug)]
pub struct Codemodel {
    pub kind: String,
    pub version: Version,
    pub configurations: Vec<Configuration>,
}

/// A file that CMake read while configuring and generating.
#[derive(Debug)]
pub struct CmakeInput {
    pub path: String,
}

/// The `cmakeFiles` reply object.
#[derive(Debug)]
pub struct CmakeFiles {
    pub kind: String,
    pub version: Version,
    /// The top-level source directory; relative input paths are relative to it.
    pub source_dir: String,
    pub inputs: Vec<CmakeInput>,
    /// The number of `CONFIGURE_DEPENDS` globs that the generated build system checks.
    pub globs_dependent: usize,
}

/// The reply objects that this client queries.
#[derive(Debug, Clone, Copy, PartialEq, Eq, Structural)]
pub enum ReplyObject {
    Codemodel,
    CmakeFiles,
}

/// The name of the client whose queries this library installs.
pub open spec fn client_name() -> Seq<char> {
    "client-cmake-ls"@
}

impl ReplyObject {
    /// The query file name of the object.
    pub open spec fn spec_query_name(self) -> Seq<char> {
        match self {
            ReplyObject::Codemodel => "codemodel-v2"@,
            ReplyObject::CmakeFiles => "cmakeFiles-v1"@,
        }
    }

    /// The object kind that the reply must carry.
    pub open spec fn spec_kind(self) -> Seq<char> {
        match self {
            ReplyObject::Codemodel => "codemodel"@,
            ReplyObject::CmakeFiles => "cmakeFiles"@,
        }
    }

    /// The major version that this library understands.
    pub open spec fn spec_major(self) -> u64 {
        match self {
            ReplyObject::Codemodel => 2,
            ReplyObject::CmakeFiles => 1,
        }
    }

    pub fn query_name(self) -> (result: &'static str)
        ensures
            result@ == self.spec_query_name(),
    {
        match self {
            ReplyObject::Codemodel => "codemodel-v2",
            ReplyObject::CmakeFiles => "cmakeFiles-v1",
        }
    }

    pub fn kind(self) -> (result: &'static str)
        ensures
            result@ == self.spec_kind(),
    {
        match self {
            ReplyObject::Codemodel => "codemodel",
            ReplyObject::CmakeFiles => "cmakeFiles",
        }
    }

    pub fn major(self) -> (result: u64)
        ensures
            result == self.spec_major(),
    {
        match self {
            ReplyObject::Codemodel => 2,
            ReplyObject::CmakeFiles => 1,
        }
    }
}

/// Why an object of kind `kind` and version `version` is not the expected one, if it is not.
pub open spec fn version_problem(
    kind: Seq<char>,
    version: Version,
    expected_kind: Seq<char>,
    expected_major: u64,
) -> Option<Seq<char>> {
    if kind != expected_kind {
        Some("expected object kind `"@ + expected_kind + "`, found `"@ + kind + "`"@)
    } else if version.major != expected_major {
        Some(
            "expected "@ + expected_kind + " major version "@ + decimal(expected_major as nat)
                + ", found "@ + decimal(version.major as nat) + "."@ + decimal(
                version.minor as nat,
            ),
        )
    } else {
        None
    }
}

/// Check that a reply object has the expected kind and major version.
pub fn validate_version(
    path: &str,
    kind: &str,
    version: &Version,
    expected_kind: &str,
    expected_major: u64,
) -> (result: Result<(), Error>)
    ensures
        match version_problem(kind@, *version, expected_kind@, expected_major) {
            None => result is Ok,
            Some(reason) => result matches Err(e) && e@ == (ErrorView::FileApi {
                path: path@,
                reason,
            }),
        },
{
    if compare_text(kind, expected_kind) != Order::Equal {
        let mut reason = String::from_str("expected object kind `");
        reason.append(expected_kind);
        reason.append("`, found `");
        reason.append(kind);
        reason.append("`");
        return Err(Error::FileApi { path: String::from_str(path), reason });
    }
    if version.major != expected_major {
        let mut reason = String::from_str("expected ");
        reason.append(expected_kind);
        reason.append(" major version ");
        reason.append(decimal_text(expected_major).as_str());
        reason.append(", found ");
        reason.append(decimal_text(version.major).as_str());
        reason.append(".");
        reason.append(decimal_text(version.minor).as_str());
        return Err(Error::FileApi { path: String::from_str(path), reason });
    }
    Ok(())
}

/// Whether `s` has a `..` component starting at position `i`.
pub open spec fn parent_component_at(s: Seq<char>, i: int) -> bool {
    &&& 0 <= i
    &&& i + 2 <= s.len()
    &&& s[i] == '.'
    &&& s[i + 1] == '.'
    &&& (i == 0 || s[i - 1] == '/')
    &&& (i + 2 == s.len() || s[i + 2] == '/')
}

/// Whether the Unix path `s` is non-empty, relative, and made of normal components only:
/// it does not start with `/` or with a `.` component, and no component is `..`.
pub open spec fn is_safe_reference(s: Seq<char>) -> bool {
    &&& s.len() > 0
    &&& s[0] != '/'
    &&& !(s[0] == '.' && (s.len() == 1 || s[1] == '/'))
    &&& forall|i: int| !parent_component_at(s, i)
}

/// The reason given for refusing the reference `s`.
pub open spec fn unsafe_reference_reason(s: Seq<char>) -> Seq<char> {
    "reply contains an unsafe JSON file reference `"@ + s + "`"@
}

/// The reply file that a reference names, or the error for a reference that leaves the reply
/// directory.
pub open spec fn resolve_spec(reply_dir: Seq<char>, reference: Seq<char>) -> Result<
    Seq<char>,
    ErrorView,
> {
    if is_safe_reference(reference) {
        Ok(join_spec(reply_dir, reference))
    } else {
        Err(ErrorView::FileApi { path: reply_dir, reason: unsafe_reference_reason(reference) })
    }
}

fn safe_reference(s: &str) -> (result: bool)
    ensures
        result == is_safe_reference(s@),
{
    let c = chars_of(s);
    let n = c.len();
    if n == 0 || c[0] == '/' {
        return false;
    }
    if c[0] == '.' && (n == 1 || c[1] == '/') {
        return false;
    }
    let mut i: usize = 0;
    while i + 1 < n
        invariant
            c@ == s@,
            n == c@.len(),
            i < n,
            forall|k: int| 0 <= k < i ==> !parent_component_at(s@, k),
        decreases n - i,
    {
        if c[i] == '.' && c[i + 1] == '.' && (i == 0 || c[i - 1] == '/') && (i + 2 == n || c[i
            + 2] == '/') {
            assert(parent_component_at(s@, i as int));
            return false;
        }
        i = i + 1;
    }
    assert forall|k: int| !parent_component_at(s@, k) by {
        if 0 <= k < i {
        }
    }
    true
}

/// Resolve a reply reference inside the reply directory.
pub fn resolve_reference(reply_dir: &str, reference: &str) -> (result: Result<String, Error>)
    ensures
        match resolve_spec(reply_dir@, reference@) {
            Ok(p) => result matches Ok(r) && r@ == p,
            Err(e) => result matches Err(x) && x@ == e,
        },
{
    if !safe_reference(reference) {
        let mut reason = String::from_str("reply contains an unsafe JSON file reference `");
        reason.append(reference);
        reason.append("`");
        return Err(Error::FileApi { path: String::from_str(reply_dir), reason });
    }
    Ok(join_path(reply_dir, reference))
}

/// Target names that are strictly sorted hold no duplicates.
pub proof fn lemma_sorted_names_are_distinct(names: Seq<Seq<char>>)
    requires
        strictly_sorted(names),
    ensures
        forall|i: int, j: int| 0 <= i < names.len() && 0 <= j < names.len() && i != j ==> names[i] != names[j],
{
    assert forall|i: int, j: int| 0 <= i < names.len() && 0 <= j < names.len() && i != j implies names[i] != names[j] by {
        if i < j {
            lemma_text_lt_irreflexive(names[i]);
        } else {
            lemma_text_lt_irreflexive(names[j]);
        }
    }
}

/// A reference is resolved only below the reply directory: the result is the directory, a
/// separator where needed, and a relative reference without `.` or `..` leading components.
pub proof fn lemma_references_stay_in_reply_directory(reply_dir: Seq<char>, reference: Seq<char>)
    ensures
        resolve_spec(reply_dir, reference) matches Ok(path) ==> {
            &&& path.subrange(0, reply_dir.len() as int) == reply_dir
            &&& path == reply_dir + reference || path == reply_dir + seq!['/'] + reference
            &&& is_safe_reference(reference)
        },
{
    if is_safe_reference(reference) {
        let path = join_spec(reply_dir, reference);
        if reply_dir.len() == 0 || reply_dir.last() == '/' {
            assert(path.subrange(0, reply_dir.len() as int) =~= reply_dir);
        } else {
            assert(path.subrange(0, reply_dir.len() as int) =~= reply_dir);
        }
    }
}

/// Whether a reply directory entry name is a reply index: `index-*.json`.
pub open spec fn is_index_name(s: Seq<char>) -> bool {
    &&& s.len() >= 11
    &&& s.subrange(0, 6) == seq!['i', 'n', 'd', 'e', 'x', '-']
    &&& s.subrange(s.len() - 5, s.len() as int) == seq!['.', 'j', 's', 'o', 'n']
}

fn index_name(s: &str) -> (result: bool)
    ensures
        result == is_index_name(s@),
{
    let c = chars_of(s);
    let n = c.len();
    if n < 11 {
        return false;
    }
    let prefix = c[0] == 'i' && c[1] == 'n' && c[2] == 'd' && c[3] == 'e' && c[4] == 'x' && c[5]
        == '-';
    let suffix = c[n - 5] == '.' && c[n - 4] == 'j' && c[n - 3] == 's' && c[n - 2] == 'o' && c[n
        - 1] == 'n';
    assert(prefix == (s@.subrange(0, 6) =~= seq!['i', 'n', 'd', 'e', 'x', '-']));
    assert(suffix == (s@.subrange(n - 5, n as int) =~= seq!['.', 'j', 's', 'o', 'n']));
    prefix && suffix
}

/// Whether entry `i` of a directory listing is a reply index; `None` stands for a name that is
/// not valid UTF-8.
pub open spec fn is_index_entry(names: Seq<Option<String>>, i: int) -> bool {
    0 <= i < names.len() && names[i] is Some && is_index_name(names[i]->0@)
}

/// The newest reply index of a directory listing: the first entry whose name is greatest among
/// the index names.
pub fn select_latest_index(names: &Vec<Option<String>>) -> (result: Option<usize>)
    ensures
        result is None <==> forall|i: int| !is_index_entry(names@, i),
        result matches Some(k) ==> {
            &&& is_index_entry(names@, k as int)
            &&& forall|j: int|
                is_index_entry(names@, j) ==> !text_lt(names@[k as int]->0@, names@[j]->0@)
            &&& forall|j: int|
                0 <= j < k && is_index_entry(names@, j) ==> text_lt(
                    names@[j]->0@,
                    names@[k as int]->0@,
                )
        },
{
    let mut latest: Option<usize> = None;
    for i in 0..names.len()
        invariant
            latest is None <==> forall|j: int| 0 <= j < i ==> !is_index_entry(names@, j),
            latest matches Some(k) ==> {
                &&& k < i
                &&& is_index_entry(names@, k as int)
                &&& forall|j: int|
                    0 <= j < i && is_index_entry(names@, j) ==> !text_lt(
                        names@[k as int]->0@,
                        names@[j]->0@,
                    )
                &&& forall|j: int|
                    0 <= j < k && is_index_entry(names@, j) ==> text_lt(
                        names@[j]->0@,
                        names@[k as int]->0@,
                    )
            },
    {
        let entry_is_index = match &names[i] {
            Some(name) => index_name(name.as_str()),
            None => false,
        };
        assert(entry_is_index == is_index_entry(names@, i as int));
        if entry_is_index {
            let ghost name = names@[i as int]->0@;
            let replace = match latest {
                None => true,
                Some(k) => compare_text(
                    names[i].as_ref().unwrap().as_str(),
                    names[k].as_ref().unwrap().as_str(),
                ) == Order::Greater,
            };
            proof {
                lemma_text_lt_irreflexive(name);
                if let Some(k) = latest {
                    let cur = names@[k as int]->0@;
                    assert(replace == text_lt(cur, name));
                    if replace {
                        assert forall|j: int|
                            0 <= j <= i && is_index_entry(names@, j) implies !text_lt(
                            name,
                            names@[j]->0@,
                        ) by {
                            let other = names@[j]->0@;
                            if j == i {
                                lemma_text_lt_irreflexive(name);
                            } else {
                                lemma_text_lt_total(cur, other);
                                if text_lt(name, other) {
                                    if cur == other {
                                        lemma_text_lt_asymmetric(cur, name);
                                    } else if text_lt(other, cur) {
                                        lemma_text_lt_transitive(name, other, cur);
                                        lemma_text_lt_asymmetric(cur, name);
                                    }
                                }
                            }
                        }
                        assert forall|j: int|
                            0 <= j < i && is_index_entry(names@, j) implies text_lt(
                            names@[j]->0@,
                            name,
                        ) by {
                            let other = names@[j]->0@;
                            lemma_text_lt_total(cur, other);
                            if other != cur && text_lt(other, cur) {
                                lemma_text_lt_transitive(other, cur, name);
                            }
                        }
                    } else {
                        lemma_text_lt_total(cur, name);
                        assert(!text_lt(cur, name));
                    }
                }
            }
            if replace {
                latest = Some(i);
            }
        }
    }
    latest
}

/// The path of the newest reply index in `reply_dir`, given the directory's entry names.
pub open spec fn latest_index_spec(reply_dir: Seq<char>, names: Seq<Option<String>>) -> Result<
    Seq<char>,
    ErrorView,
> {
    if forall|i: int| !is_index_entry(names, i) {
        Err(
            ErrorView::FileApi {
                path: reply_dir,
                reason: "no reply index was produced; CMake 3.14 or newer is required"@,
            },
        )
    } else {
        let k = choose|k: int|
            is_index_entry(names, k) && (forall|j: int|
                is_index_entry(names, j) ==> !text_lt(names[k]->0@, names[j]->0@)) && (forall|
                j: int,
            |
                0 <= j < k && is_index_entry(names, j) ==> text_lt(names[j]->0@, names[k]->0@));
        Ok(join_spec(reply_dir, names[k]->0@))
    }
}

/// The first greatest index name is unique.
proof fn lemma_latest_unique(names: Seq<Option<String>>, k1: int, k2: int)
    requires
        is_index_entry(names, k1),
        is_index_entry(names, k2),
        forall|j: int| is_index_entry(names, j) ==> !text_lt(names[k1]->0@, names[j]->0@),
        forall|j: int|
            0 <= j < k1 && is_index_entry(names, j) ==> text_lt(names[j]->0@, names[k1]->0@),
        forall|j: int| is_index_entry(names, j) ==> !text_lt(names[k2]->0@, names[j]->0@),
        forall|j: int|
            0 <= j < k2 && is_index_entry(names, j) ==> text_lt(names[j]->0@, names[k2]->0@),
    ensures
        k1 == k2,
{
    if k1 < k2 {
        assert(text_lt(names[k1]->0@, names[k2]->0@));
    } else if k2 < k1 {
        assert(text_lt(names[k2]->0@, names[k1]->0@));
    }
}

/// Locate the newest reply index among the entries of the reply directory.
pub fn latest_index(reply_dir: &str, names: &Vec<Option<String>>) -> (result: Result<
    String,
    Error,
>)
    ensures
        match latest_index_spec(reply_dir@, names@) {
            Ok(p) => result matches Ok(r) && r@ == p,
            Err(e) => result matches Err(x) && x@ == e,
        },
{
    match select_latest_index(names) {
        None => Err(
            Error::FileApi {
                path: String::from_str(reply_dir),
                reason: String::from_str(
                    "no reply index was produced; CMake 3.14 or newer is required",
                ),
            },
        ),
        Some(k) => {
            let ghost chosen = choose|k: int|
                is_index_entry(names@, k) && (forall|j: int|
                    is_index_entry(names@, j) ==> !text_lt(names@[k]->0@, names@[j]->0@))
                    && (forall|j: int|
                    0 <= j < k && is_index_entry(names@, j) ==> text_lt(
                        names@[j]->0@,
                        names@[k]->0@,
                    ));
            proof {
                lemma_latest_unique(names@, chosen, k as int);
            }
            match &names[k] {
                Some(name) => Ok(join_path(reply_dir, name.as_str())),
                None => Err(
                    Error::FileApi {
                        path: String::from_str(reply_dir),
                        reason: String::from_str(
                            "no reply index was produced; CMake 3.14 or newer is required",
                        ),
                    },
                ),
            }
        },
    }
}

/// CMake's answer to the query for `object`, among the answers to this client's queries.
pub open spec fn object_response(client: ClientQueries, object: ReplyObject) -> Option<
    QueryResponse,
> {
    match object {
        ReplyObject::Codemodel => client.codemodel,
        ReplyObject::CmakeFiles => client.cmake_files,
    }
}

/// The reply file of `object` named by a reply index, or why the index does not name a usable
/// one.
pub open spec fn locate_spec(
    index: ReplyIndex,
    index_path: Seq<char>,
    reply_dir: Seq<char>,
    object: ReplyObject,
) -> Result<Seq<char>, ErrorView> {
    match index.reply.client {
        None => Err(
            ErrorView::FileApi {
                path: index_path,
                reason: "reply does not contain `"@ + client_name() + "`"@,
            },
        ),
        Some(client) => match object_response(client, object) {
            None => Err(
                ErrorView::FileApi {
                    path: index_path,
                    reason: "reply does not contain `"@ + object.spec_query_name() + "`"@,
                },
            ),
            Some(QueryResponse::Error(error)) => Err(
                ErrorView::FileApi {
                    path: index_path,
                    reason: "CMake rejected the "@ + object.spec_kind() + " query: "@
                        + error.error@,
                },
            ),
            Some(QueryResponse::Reference(reference)) => match version_problem(
                reference.kind@,
                reference.version,
                object.spec_kind(),
                object.spec_major(),
            ) {
                Some(reason) => Err(ErrorView::FileApi { path: reply_dir, reason }),
                None => resolve_spec(reply_dir, reference.json_file@),
            },
        },
    }
}

/// Follow a reply index to the reply file of `object`.
pub fn locate_object(
    index: &ReplyIndex,
    index_path: &str,
    reply_dir: &str,
    object: ReplyObject,
) -> (result: Result<String, Error>)
    ensures
        match locate_spec(*index, index_path@, reply_dir@, object) {
            Ok(p) => result matches Ok(r) && r@ == p,
            Err(e) => result matches Err(x) && x@ == e,
        },
{
    let client = match &index.reply.client {
        Some(client) => client,
        None => {
            let mut reason = String::from_str("reply does not contain `");
            reason.append("client-cmake-ls");
            reason.append("`");
            return Err(Error::FileApi { path: String::from_str(index_path), reason });
        },
    };
    let response = match object {
        ReplyObject::Codemodel => &client.codemodel,
        ReplyObject::CmakeFiles => &client.cmake_files,
    };
    let reference = match response {
        None => {
            let mut reason = String::from_str("reply does not contain `");
            reason.append(object.query_name());
            reason.append("`");
            return Err(Error::FileApi { path: String::from_str(index_path), reason });
        },
        Some(QueryResponse::Error(error)) => {
            let mut reason = String::from_str("CMake rejected the ");
            reason.append(object.kind());
            reason.append(" query: ");
            reason.append(error.error.as_str());
            return Err(Error::FileApi { path: String::from_str(index_path), reason });
        },
        Some(QueryResponse::Reference(reference)) => reference,
    };
    match validate_version(
        reply_dir,
        reference.kind.as_str(),
        &reference.version,
        object.kind(),
        object.major(),
    ) {
        Ok(()) => {},
        Err(error) => return Err(error),
    }
    resolve_reference(reply_dir, reference.json_file.as_str())
}

/// The characters of each string.
pub open spec fn texts(v: Seq<String>) -> Seq<Seq<char>> {
    v.map_values(|s: String| s@)
}

/// Strictly increasing in string order, hence free of duplicates.
pub open spec fn strictly_sorted(s: Seq<Seq<char>>) -> bool {
    forall|i: int, j: int| 0 <= i < j < s.len() ==> text_lt(s[i], s[j])
}

/// Insert a name into a strictly sorted list of names, unless it is already there.
pub fn insert_sorted(names: &mut Vec<String>, name: String)
    requires
        strictly_sorted(texts(old(names)@)),
    ensures
        strictly_sorted(texts(final(names)@)),
        forall|n: Seq<char>|
            texts(final(names)@).contains(n) <==> (texts(old(names)@).contains(n) || n
                == name@),
{
    let ghost old_names = texts(names@);
    let mut i: usize = 0;
    while i < names.len()
        invariant
            i <= names@.len(),
            texts(names@) == old_names,
            strictly_sorted(old_names),
            forall|k: int| 0 <= k < i ==> text_lt(old_names[k], name@),
        ensures
            i <= names@.len(),
            texts(names@) == old_names,
            forall|k: int| 0 <= k < i ==> text_lt(old_names[k], name@),
            i < names@.len() ==> text_lt(name@, old_names[i as int]),
        decreases names@.len() - i,
    {
        let order = compare_text(names[i].as_str(), name.as_str());
        assert(old_names[i as int] == names@[i as int]@);
        if order == Order::Equal {
            assert(old_names.contains(name@));
            return;
        }
        if order == Order::Greater {
            break;
        }
        i = i + 1;
    }
    let ghost before = names@;
    names.insert(i, name);
    proof {
        let new_names = texts(names@);
        assert(new_names =~= old_names.insert(i as int, name@));
        assert forall|a: int, b: int| 0 <= a < b < new_names.len() implies text_lt(
            new_names[a],
            new_names[b],
        ) by {
            if b < i {
            } else if a < i && b == i {
            } else if a < i && b > i {
                assert(new_names[b] == old_names[b - 1]);
            } else if a == i {
                assert(new_names[b] == old_names[b - 1]);
                if b - 1 > i {
                    lemma_text_lt_transitive(name@, old_names[i as int], old_names[b - 1]);
                }
            } else {
                assert(new_names[a] == old_names[a - 1]);
                assert(new_names[b] == old_names[b - 1]);
            }
        }
        assert forall|n: Seq<char>| new_names.contains(n) <==> (old_names.contains(n) || n
            == name@) by {
            if new_names.contains(n) {
                let k = choose|k: int| 0 <= k < new_names.len() && new_names[k] == n;
                if k < i {
                    assert(old_names[k] == n);
                } else if k > i {
                    assert(old_names[k - 1] == n);
                }
            }
            if old_names.contains(n) {
                let k = choose|k: int| 0 <= k < old_names.len() && old_names[k] == n;
                if k < i {
                    assert(new_names[k] == n);
                } else {
                    assert(new_names[k + 1] == n);
                }
            }
            if n == name@ {
                assert(new_names[i as int] == n);
            }
        }
    }
}

/// Whether `n` names a target of some configuration.
pub open spec fn names_a_target(configurations: Seq<Configuration>, n: Seq<char>) -> bool {
    exists|c: int, t: int|
        0 <= c < configurations.len() && 0 <= t < configurations[c].targets@.len()
            && #[trigger] configurations[c].targets@[t].name@ == n
}

/// The target names of a codemodel: sorted in string order, each once.
pub fn collect_target_names(configurations: &Vec<Configuration>) -> (result: Vec<String>)
    ensures
        strictly_sorted(texts(result@)),
        forall|n: Seq<char>| texts(result@).contains(n) <==> names_a_target(configurations@, n),
{
    let mut names: Vec<String> = Vec::new();
    assert(texts(names@) =~= Seq::<Seq<char>>::empty());
    for c in 0..configurations.len()
        invariant
            strictly_sorted(texts(names@)),
            forall|n: Seq<char>|
                texts(names@).contains(n) <==> exists|cc: int, t: int|
                    0 <= cc < c && 0 <= t < configurations@[cc].targets@.len()
                        && #[trigger] configurations@[cc].targets@[t].name@ == n,
    {
        let targets = &configurations[c].targets;
        for t in 0..targets.len()
            invariant
                targets == configurations@[c as int].targets,
                strictly_sorted(texts(names@)),
                forall|n: Seq<char>|
                    texts(names@).contains(n) <==> (exists|cc: int, tt: int|
                        0 <= cc < c && 0 <= tt < configurations@[cc].targets@.len()
                            && #[trigger] configurations@[cc].targets@[tt].name@ == n) || (exists|
                        tt: int,
                    |
                        0 <= tt < t && #[trigger] targets@[tt].name@ == n),
        {
            let ghost before = texts(names@);
            insert_sorted(&mut names, targets[t].name.clone());
            proof {
                assert forall|n: Seq<char>| texts(names@).contains(n) <==> (exists|
                    cc: int,
                    tt: int,
                |
                    0 <= cc < c && 0 <= tt < configurations@[cc].targets@.len()
                        && #[trigger] configurations@[cc].targets@[tt].name@ == n) || (exists|
                    tt: int,
                |
                    0 <= tt < t + 1 && #[trigger] targets@[tt].name@ == n) by {
                    if n == targets@[t as int].name@ {
                        assert(targets@[t as int].name@ == n);
                    }
                    if exists|tt: int| 0 <= tt < t + 1 && #[trigger] targets@[tt].name@ == n {
                        let tt = choose|tt: int| 0 <= tt < t + 1 && #[trigger] targets@[tt].name@ == n;
                        if tt < t {
                        }
                    }
                }
            }
        }
        proof {
            assert forall|n: Seq<char>| texts(names@).contains(n) <==> exists|cc: int, t: int|
                0 <= cc < c + 1 && 0 <= t < configurations@[cc].targets@.len()
                    && #[trigger] configurations@[cc].targets@[t].name@ == n by {
                if exists|cc: int, t: int|
                    0 <= cc < c + 1 && 0 <= t < configurations@[cc].targets@.len()
                        && #[trigger] configurations@[cc].targets@[t].name@ == n {
                    let (cc, tt) = choose|cc: int, t: int|
                        0 <= cc < c + 1 && 0 <= t < configurations@[cc].targets@.len()
                            && #[trigger] configurations@[cc].targets@[t].name@ == n;
                    if cc == c {
                        assert(targets@[tt].name@ == n);
                    }
                }
                if texts(names@).contains(n) {
                    if exists|tt: int| 0 <= tt < targets@.len() && #[trigger] targets@[tt].name@ == n {
                        let tt = choose|tt: int| 0 <= tt < targets@.len() && #[trigger] targets@[tt].name@ == n;
                        assert(configurations@[c as int].targets@[tt].name@ == n);
                    }
                }
            }
        }
    }
    names
}

/// The target names of a codemodel reply, sorted and deduplicated across configurations, once
/// the reply has been checked to be a codemodel of a supported version.
pub fn codemodel_targets(codemodel: &Codemodel, path: &str) -> (result: Result<
    Vec<String>,
    Error,
>)
    ensures
        match version_problem(
            codemodel.kind@,
            codemodel.version,
            ReplyObject::Codemodel.spec_kind(),
            ReplyObject::Codemodel.spec_major(),
        ) {
            Some(reason) => result matches Err(e) && e@ == (ErrorView::FileApi {
                path: path@,
                reason,
            }),
            None => result matches Ok(names) && strictly_sorted(texts(names@)) && forall|
                n: Seq<char>,
            | texts(names@).contains(n) <==> names_a_target(codemodel.configurations@, n),
        },
{
    match validate_version(
        path,
        codemodel.kind.as_str(),
        &codemodel.version,
        ReplyObject::Codemodel.kind(),
        ReplyObject::Codemodel.major(),
    ) {
        Ok(()) => Ok(collect_target_names(&codemodel.configurations)),
        Err(error) => Err(error),
    }
}

/// The path of a CMake input file: relative paths are relative to the top-level source
/// directory.
pub open spec fn input_path_spec(source_dir: Seq<char>, path: Seq<char>) -> Seq<char> {
    if path.len() > 0 && path[0] == '/' {
        path
    } else {
        join_spec(source_dir, path)
    }
}

/// The paths of the input files that a `cmakeFiles` reply lists.
pub fn input_paths(cmake_files: &CmakeFiles) -> (result: Vec<String>)
    ensures
        result@.len() == cmake_files.inputs@.len(),
        forall|i: int|
            0 <= i < result@.len() ==> #[trigger] result@[i]@ == input_path_spec(
                cmake_files.source_dir@,
                cmake_files.inputs@[i].path@,
            ),
{
    let mut paths: Vec<String> = Vec::new();
    for i in 0..cmake_files.inputs.len()
        invariant
            paths@.len() == i,
            forall|k: int|
                0 <= k < i ==> #[trigger] paths@[k]@ == input_path_spec(
                    cmake_files.source_dir@,
                    cmake_files.inputs@[k].path@,
                ),
    {
        let path = &cmake_files.inputs[i].path;
        let chars = chars_of(path.as_str());
        if chars.len() > 0 && chars[0] == '/' {
            paths.push(path.clone());
        } else {
            paths.push(join_path(cmake_files.source_dir.as_str(), path.as_str()));
        }
    }
    paths
}

/// Whether a reply is current: CMake checks no `CONFIGURE_DEPENDS` globs, and every input file
/// exists and is no newer than the reply index. Times are modification times in nanoseconds
/// since the Unix epoch.
pub open spec fn is_current(
    globs_dependent: usize,
    index_time: Result<i128, IoFailure>,
    input_times: Seq<Result<i128, IoFailure>>,
) -> bool {
    &&& globs_dependent == 0
    &&& index_time is Ok
    &&& forall|i: int|
        0 <= i < input_times.len() ==> (#[trigger] input_times[i] matches Ok(t) && t
            <= index_time->Ok_0)
}

/// Decide whether a reply is current.
pub fn reply_is_current(
    globs_dependent: usize,
    index_time: &Result<i128, IoFailure>,
    input_times: &Vec<Result<i128, IoFailure>>,
) -> (result: bool)
    ensures
        result == is_current(globs_dependent, *index_time, input_times@),
        result ==> globs_dependent == 0 && (*index_time matches Ok(reply) && forall|i: int|
            0 <= i < input_times@.len() ==> (#[trigger] input_times@[i] matches Ok(t) && t
                <= reply)),
        (globs_dependent == 0 && (*index_time matches Ok(reply) && forall|i: int|
            0 <= i < input_times@.len() ==> (#[trigger] input_times@[i] matches Ok(t) && t
                <= reply))) ==> result,
{
    if globs_dependent != 0 {
        return false;
    }
    let reply_time = match index_time {
        Ok(t) => *t,
        Err(_) => return false,
    };
    for i in 0..input_times.len()
        invariant
            *index_time == Ok::<i128, IoFailure>(reply_time),
            forall|k: int|
                0 <= k < i ==> (#[trigger] input_times@[k] matches Ok(t) && t <= reply_time),
    {
        match &input_times[i] {
            Ok(t) => {
                if *t > reply_time {
                    return false;
                }
            },
            Err(_) => return false,
        }
    }
    true
}

/// When a reply is current, over all inputs: it is current exactly when CMake checks no
/// `CONFIGURE_DEPENDS` globs, the time of the reply index was read, and every input file was
/// found and is no newer than the index. So one missing input, or one input newer than the index,
/// wherever it stands in the list, makes the reply stale, and so do further inputs added to a
/// list that already makes it stale.
pub proof fn lemma_current_reply_law(
    globs_dependent: usize,
    index_time: Result<i128, IoFailure>,
    input_times: Seq<Result<i128, IoFailure>>,
    more_times: Seq<Result<i128, IoFailure>>,
)
    ensures
        is_current(globs_dependent, index_time, input_times) <==> (globs_dependent == 0 && (
        index_time matches Ok(reply) && forall|i: int|
            0 <= i < input_times.len() ==> (#[trigger] input_times[i] matches Ok(t) && t <= reply))),
        forall|i: int|
            0 <= i < input_times.len() && #[trigger] input_times[i] is Err ==> !is_current(
                globs_dependent,
                index_time,
                input_times,
            ),
        forall|i: int|
            0 <= i < input_times.len() && (index_time matches Ok(reply) && #[trigger] input_times[i]
                matches Ok(t) && t > reply) ==> !is_current(globs_dependent, index_time, input_times),
        globs_dependent > 0 ==> !is_current(globs_dependent, index_time, input_times),
        is_current(globs_dependent, index_time, input_times + more_times) ==> is_current(
            globs_dependent,
            index_time,
            input_times,
        ),
{
    if is_current(globs_dependent, index_time, input_times + more_times) {
        assert forall|i: int| 0 <= i < input_times.len() implies (#[trigger] input_times[i] matches Ok(
            t,
        ) && t <= index_time->Ok_0) by {
            assert((input_times + more_times)[i] == input_times[i]);
        }
    }
}

} // verus!
