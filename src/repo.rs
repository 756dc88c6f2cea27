//! Repository identity: the kind of repository and its full name.
use vstd::prelude::*;

use crate::error::{joined, owned, XetError};
use crate::text::{
    char_vec, eq_folded, find_char, folds_to, index_of, lemma_find_is_index_of,
    lemma_index_of_bounds, range_eq_folded, string_of_range,
};

verus! {

/// The kinds of repository that the hub hosts.
#[derive(Clone, Copy, PartialEq, Eq, Structural, Debug)]
pub enum RepoType {
    Model,
    Dataset,
    Space,
}

impl RepoType {
    /// The singular name of the kind (`"model"`).
    pub open spec fn name(self) -> Seq<char> {
        match self {
            RepoType::Model => "model"@,
            RepoType::Dataset => "dataset"@,
            RepoType::Space => "space"@,
        }
    }

    /// The plural name of the kind, as URLs of the hub's API write it (`"models"`).
    pub open spec fn plural(self) -> Seq<char> {
        match self {
            RepoType::Model => "models"@,
            RepoType::Dataset => "datasets"@,
            RepoType::Space => "spaces"@,
        }
    }

    pub fn as_str(&self) -> (r: &'static str)
        ensures
            r@ == self.name(),
    {
        match self {
            RepoType::Model => "model",
            RepoType::Dataset => "dataset",
            RepoType::Space => "space",
        }
    }

    pub fn plural_str(&self) -> (r: &'static str)
        ensures
            r@ == self.plural(),
    {
        match self {
            RepoType::Model => "models",
            RepoType::Dataset => "datasets",
            RepoType::Space => "spaces",
        }
    }
}

/// The kind that a leading path segment names, in either number and in any ASCII case.
pub open spec fn type_keyword(seg: Seq<char>) -> Option<RepoType> {
    if eq_folded(seg, "models"@) || eq_folded(seg, "model"@) {
        Some(RepoType::Model)
    } else if eq_folded(seg, "datasets"@) || eq_folded(seg, "dataset"@) {
        Some(RepoType::Dataset)
    } else if eq_folded(seg, "spaces"@) || eq_folded(seg, "space"@) {
        Some(RepoType::Space)
    } else {
        None
    }
}

/// What a repository identifier denotes: `owner/repo` is a model; `type/owner/repo`, where
/// the first segment names a kind, is a repository of that kind named by the rest; any other
/// text with a `/` is a model named by the whole text; text without `/` denotes nothing.
pub open spec fn repo_parse(s: Seq<char>) -> Option<(RepoType, Seq<char>)> {
    let i = index_of(s, '/');
    if i < 0 {
        None
    } else {
        let rest = s.skip(i + 1);
        if index_of(rest, '/') >= 0 && type_keyword(s.take(i)) is Some {
            Some((type_keyword(s.take(i))->0, rest))
        } else {
            Some((RepoType::Model, s))
        }
    }
}

/// The kind that `v[0..i]` names, if any.
fn keyword_at_start(v: &Vec<char>, i: usize) -> (r: Option<RepoType>)
    requires
        i <= v@.len(),
    ensures
        r == type_keyword(v@.subrange(0, i as int)),
{
    if range_eq_folded(v, 0, i, &char_vec("models")) || range_eq_folded(v, 0, i, &char_vec("model")) {
        Some(RepoType::Model)
    } else if range_eq_folded(v, 0, i, &char_vec("datasets")) || range_eq_folded(
        v,
        0,
        i,
        &char_vec("dataset"),
    ) {
        Some(RepoType::Dataset)
    } else if range_eq_folded(v, 0, i, &char_vec("spaces")) || range_eq_folded(
        v,
        0,
        i,
        &char_vec("space"),
    ) {
        Some(RepoType::Space)
    } else {
        None
    }
}

/// A repository's kind and full name (`owner/repo`).
#[derive(Clone, Debug)]
pub struct RepoInfo {
    pub repo_type: RepoType,
    pub full_name: String,
}

impl RepoInfo {
    /// Parses a repository identifier: `owner/repo` (a model), or `type/owner/repo` where
    /// `type` is `models`, `datasets` or `spaces`, in either number and any case.
    pub fn parse(repo: &str) -> (r: Result<RepoInfo, XetError>)
        ensures
            r is Err <==> !repo@.contains('/'),
            r matches Err(e) ==> e@ == (
                crate::error::ErrorKind::InvalidInput,
                "Repository identifier must be in format 'owner/repo' or 'type/owner/repo', got: "@
                    + repo@,
            ),
            r matches Ok(info) ==> repo_parse(repo@) == Some((info.repo_type, info.full_name@)),
    {
        let v = char_vec(repo);
        let n = v.len();
        let first = find_char(&v, '/', 0, n);
        proof {
            lemma_find_is_index_of(v@, '/', 0, n as int, first);
            assert(v@.subrange(0, n as int) == v@);
            lemma_index_of_bounds(v@, '/');
        }
        match first {
            None => Err(
                XetError::InvalidInput {
                    message: joined(
                        "Repository identifier must be in format 'owner/repo' or 'type/owner/repo', got: ",
                        repo,
                    ),
                },
            ),
            Some(i) => {
                let second = find_char(&v, '/', i + 1, n);
                proof {
                    lemma_find_is_index_of(v@, '/', i + 1, n as int, second);
                    assert(v@.subrange(i + 1, n as int) == v@.skip(i + 1));
                }
                let ghost head = v@.take(i as int);
                assert(v@.subrange(0, i as int) == head);
                let keyword = if second.is_some() {
                    keyword_at_start(&v, i)
                } else {
                    None
                };
                match keyword {
                    Some(t) => {
                        assert(v@.subrange(i + 1, n as int) == v@.skip(i + 1));
                        Ok(RepoInfo { repo_type: t, full_name: string_of_range(&v, i + 1, n) })
                    },
                    None => Ok(RepoInfo { repo_type: RepoType::Model, full_name: owned(repo) }),
                }
            },
        }
    }

    /// The kind of repository (`"model"`, `"dataset"` or `"space"`).
    pub fn repo_type(&self) -> (r: String)
        ensures
            r@ == self.repo_type.name(),
    {
        owned(self.repo_type.as_str())
    }

    /// The full name (`owner/repo`).
    pub fn full_name(&self) -> (r: String)
        ensures
            r@ == self.full_name@,
    {
        self.full_name.clone()
    }
}

/// Where `a` holds no `c`, the first `c` of `a + [c] + b` is right after `a`.
pub proof fn lemma_index_of_join(a: Seq<char>, c: char, b: Seq<char>)
    requires
        !a.contains(c),
    ensures
        index_of(a + seq![c] + b, c) == a.len(),
        (a + seq![c] + b).take(a.len() as int) == a,
        (a + seq![c] + b).skip(a.len() as int + 1) == b,
    decreases a.len(),
{
    if a.len() > 0 {
        assert(!a.drop_first().contains(c)) by {
            if a.drop_first().contains(c) {
                let k = choose|k: int| 0 <= k < a.drop_first().len() && a.drop_first()[k] == c;
                assert(a[k + 1] == c);
            }
        }
        lemma_index_of_join(a.drop_first(), c, b);
        assert((a + seq![c] + b).drop_first() == a.drop_first() + seq![c] + b);
        assert(a[0] != c);
    }
    assert((a + seq![c] + b).take(a.len() as int) == a);
    assert((a + seq![c] + b).skip(a.len() as int + 1) == b);
}

/// Well-formed identifiers parse as their shape says. For an owner and a repository name
/// without `/`: `owner/repo` is the model `owner/repo`, and `kind/owner/repo`, where `kind`
/// names a kind of repository in any ASCII case and either number, is the repository
/// `owner/repo` of that kind.
pub proof fn law_well_formed_identifiers(owner: Seq<char>, name: Seq<char>, kind: Seq<char>)
    requires
        !owner.contains('/'),
        !name.contains('/'),
        type_keyword(kind) is Some,
    ensures
        repo_parse(owner + "/"@ + name) == Some((RepoType::Model, owner + "/"@ + name)),
        repo_parse(kind + "/"@ + owner + "/"@ + name) == Some(
            (type_keyword(kind)->0, owner + "/"@ + name),
        ),
{
    reveal_strlit("/");
    assert("/"@ == seq!['/']);
    lemma_index_of_join(owner, '/', name);
        assert(index_of(name, '/') < 0) by {
        lemma_index_of_bounds(name, '/');
    }
    assert(!kind.contains('/')) by {
        lemma_keyword_letters(kind);
    }
    let full = owner + "/"@ + name;
    assert(kind + "/"@ + owner + "/"@ + name == kind + seq!['/'] + full);
    lemma_index_of_join(kind, '/', full);
    lemma_index_of_join(owner, '/', name);
}

/// A word that names a kind holds only ASCII letters.
proof fn lemma_keyword_letters(kind: Seq<char>)
    requires
        type_keyword(kind) is Some,
    ensures
        !kind.contains('/'),
{
    reveal_strlit("models");
    reveal_strlit("model");
    reveal_strlit("datasets");
    reveal_strlit("dataset");
    reveal_strlit("spaces");
    reveal_strlit("space");
    if kind.contains('/') {
        let k = choose|k: int| 0 <= k < kind.len() && kind[k] == '/';
        if eq_folded(kind, "models"@) {
            assert(folds_to(kind[k], "models"@[k]));
        } else if eq_folded(kind, "model"@) {
            assert(folds_to(kind[k], "model"@[k]));
        } else if eq_folded(kind, "datasets"@) {
            assert(folds_to(kind[k], "datasets"@[k]));
        } else if eq_folded(kind, "dataset"@) {
            assert(folds_to(kind[k], "dataset"@[k]));
        } else if eq_folded(kind, "spaces"@) {
            assert(folds_to(kind[k], "spaces"@[k]));
        } else {
            assert(folds_to(kind[k], "space"@[k]));
        }
    }
}

/// Identifiers without a `/` (fewer than two segments) are rejected.
pub proof fn law_malformed_identifiers(s: Seq<char>)
    requires
        !s.contains('/'),
    ensures
        repo_parse(s) is None,
{
    lemma_index_of_bounds(s, '/');
}

} // verus!
