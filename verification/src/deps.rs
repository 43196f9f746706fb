//! Dependency entries, package-name normalization, package-name sets, and
//! superset validation of a resolved lock against a requested spec.

use vstd::prelude::*;
use vstd::string::StrSliceExecFns;

verus! {

/// One entry of a dependency document's `dependencies` sequence: a plain
/// package token of the primary ecosystem, an embedded sub-ecosystem list of
/// tokens, or a shape this tool does not recognize (tolerated and skipped).
#[derive(Debug, Clone, PartialEq, Eq)]
pub enum DepEntry {
    Direct(String),
    Nested(Vec<String>),
    Unrecognized,
}

/// A parsed dependency specification: environment name and dependency
/// entries.
#[derive(Debug, Clone, PartialEq, Eq)]
pub struct DependencySpec {
    pub name: String,
    pub entries: Vec<DepEntry>,
}

/// The package-name sets extracted from a dependency document: names of
/// direct-ecosystem packages and names of nested sub-ecosystem packages,
/// version qualifiers stripped, without duplicates.
#[derive(Debug, Clone, PartialEq, Eq)]
pub struct PackageNameSet {
    pub direct: Vec<String>,
    pub nested: Vec<String>,
}

/// The name part of a package token: the prefix before the first `=`, or
/// the whole token if it has none.
pub open spec fn pkg_name_spec(token: Seq<char>) -> Seq<char> {
    token.take(crate::strutil::first_ix(token, '=') as int)
}

/// Strips version qualifiers from a package token: `name=version=build`
/// becomes `name`; a token with no `=` passes through unchanged.
pub fn pkg_name(token: &str) -> (r: String)
    ensures
        r@ == pkg_name_spec(token@),
{
    proof {
        crate::strutil::lemma_first_ix_bounds(token@, '=');
    }
    let i = crate::strutil::find_char(token, '=');
    token.substring_char(0, i).to_owned()
}

/// Normalization is idempotent: the name part of a name is the name itself.
pub proof fn lemma_pkg_name_idempotent(token: Seq<char>)
    ensures
        pkg_name_spec(pkg_name_spec(token)) == pkg_name_spec(token),
{
    crate::strutil::lemma_first_ix_bounds(token, '=');
    let i = crate::strutil::first_ix(token, '=') as int;
    let p = token.take(i);
    assert forall|j: int| 0 <= j < p.len() implies p[j] != '=' by {
        assert(p[j] == token[j]);
    }
    crate::strutil::lemma_first_ix_is(p, '=', p.len() as int);
    assert(p.take(p.len() as int) =~= p);
}

/// The set of normalized names of a token sequence.
pub open spec fn name_set(tokens: Seq<Seq<char>>) -> Set<Seq<char>> {
    tokens.map_values(|t: Seq<char>| pkg_name_spec(t)).to_set()
}

/// Appending a token adds exactly its normalized name to the name set.
pub proof fn lemma_name_set_push(tokens: Seq<Seq<char>>, t: Seq<char>)
    ensures
        name_set(tokens + seq![t]) == name_set(tokens).insert(pkg_name_spec(t)),
{
    let f = |x: Seq<char>| pkg_name_spec(x);
    assert((tokens + seq![t]).map_values(f) =~= tokens.map_values(f) + seq![pkg_name_spec(t)]);
    lemma_push_to_set(tokens.map_values(f), pkg_name_spec(t));
}

/// Appending an element to a sequence inserts it into the sequence's set.
pub proof fn lemma_push_to_set<A>(s: Seq<A>, x: A)
    ensures
        (s + seq![x]).to_set() == s.to_set().insert(x),
{
    assert forall|y: A| #[trigger] (s + seq![x]).to_set().contains(y) implies s.to_set().insert(
        x,
    ).contains(y) by {
        let k = choose|k: int| 0 <= k < (s + seq![x]).len() && (s + seq![x])[k] == y;
        if k < s.len() {
            assert(s[k] == y);
        }
    }
    assert forall|y: A| #[trigger] s.to_set().insert(x).contains(y) implies (s
        + seq![x]).to_set().contains(y) by {
        if s.to_set().contains(y) {
            let k = choose|k: int| 0 <= k < s.len() && s[k] == y;
            assert((s + seq![x])[k] == y);
        } else {
            assert((s + seq![x])[s.len() as int] == y);
        }
    }
    assert((s + seq![x]).to_set() =~= s.to_set().insert(x));
}

/// Appending an element a sequence does not hold keeps it duplicate-free.
pub proof fn lemma_push_no_dup<A>(s: Seq<A>, x: A)
    requires
        s.no_duplicates(),
        !s.contains(x),
    ensures
        (s + seq![x]).no_duplicates(),
{
    let t = s + seq![x];
    assert forall|i: int, j: int| 0 <= i < t.len() && 0 <= j < t.len() && i != j implies t[i]
        != t[j] by {
        if i < s.len() && j < s.len() {
        } else if i < s.len() {
            assert(s[i] == t[i]);
        } else {
            assert(s[j] == t[j]);
        }
    }
}

/// Whether some element of `v` views as `s`.
pub fn vec_contains_str(v: &Vec<String>, s: &str) -> (r: bool)
    ensures
        r == v@.map_values(|x: String| x@).contains(s@),
{
    let ghost views = v@.map_values(|x: String| x@);
    let mut i: usize = 0;
    while i < v.len()
        invariant
            views == v@.map_values(|x: String| x@),
            0 <= i <= v@.len(),
            forall|j: int| 0 <= j < i ==> views[j] != s@,
        decreases v@.len() - i,
    {
        if crate::strutil::str_eq(v[i].as_str(), s) {
            assert(views[i as int] == s@);
            return true;
        }
        i += 1;
    }
    false
}

/// Appends the token's normalized name unless the collection already holds
/// it, keeping the collection duplicate-free.
fn insert_name(out: &mut Vec<String>, token: &str)
    requires
        old(out)@.map_values(|x: String| x@).no_duplicates(),
    ensures
        final(out)@.map_values(|x: String| x@).to_set() == old(out)@.map_values(
            |x: String| x@,
        ).to_set().insert(pkg_name_spec(token@)),
        final(out)@.map_values(|x: String| x@).no_duplicates(),
{
    let ghost views = old(out)@.map_values(|x: String| x@);
    let name = pkg_name(token);
    if vec_contains_str(out, name.as_str()) {
        proof {
            assert(views.to_set().contains(name@));
            assert(views.to_set() =~= views.to_set().insert(name@));
        }
    } else {
        out.push(name);
        proof {
            assert(out@.map_values(|x: String| x@) =~= views + seq![pkg_name_spec(token@)]);
            lemma_push_to_set(views, pkg_name_spec(token@));
            lemma_push_no_dup(views, pkg_name_spec(token@));
        }
    }
}

/// Reduces package tokens to their normalized names, without duplicates.
pub fn only_pkg_names(deps: &Vec<String>) -> (r: Vec<String>)
    ensures
        r@.map_values(|x: String| x@).to_set() == name_set(deps@.map_values(|x: String| x@)),
        r@.map_values(|x: String| x@).no_duplicates(),
{
    let ghost toks = deps@.map_values(|x: String| x@);
    let mut out: Vec<String> = Vec::new();
    proof {
        assert(out@.map_values(|x: String| x@).to_set() =~= name_set(toks.take(0)));
    }
    let mut i: usize = 0;
    while i < deps.len()
        invariant
            toks == deps@.map_values(|x: String| x@),
            0 <= i <= deps@.len(),
            out@.map_values(|x: String| x@).to_set() == name_set(toks.take(i as int)),
            out@.map_values(|x: String| x@).no_duplicates(),
        decreases deps@.len() - i,
    {
        insert_name(&mut out, deps[i].as_str());
        proof {
            assert(toks.take(i + 1) =~= toks.take(i as int) + seq![toks[i as int]]);
            lemma_name_set_push(toks.take(i as int), toks[i as int]);
        }
        i += 1;
    }
    proof {
        assert(toks.take(toks.len() as int) =~= toks);
    }
    out
}

/// The direct-ecosystem package tokens of a dependency-entry sequence, in
/// order.
pub open spec fn direct_tokens(entries: Seq<DepEntry>) -> Seq<Seq<char>>
    decreases entries.len(),
{
    if entries.len() == 0 {
        Seq::empty()
    } else {
        direct_tokens(entries.drop_last()) + (match entries.last() {
            DepEntry::Direct(t) => seq![t@],
            _ => Seq::empty(),
        })
    }
}

/// The nested sub-ecosystem package tokens of a dependency-entry sequence,
/// in order.
pub open spec fn nested_tokens(entries: Seq<DepEntry>) -> Seq<Seq<char>>
    decreases entries.len(),
{
    if entries.len() == 0 {
        Seq::empty()
    } else {
        nested_tokens(entries.drop_last()) + (match entries.last() {
            DepEntry::Nested(g) => g@.map_values(|t: String| t@),
            _ => Seq::empty(),
        })
    }
}

/// The set of normalized direct package names a dependency document
/// requests.
pub open spec fn spec_direct_names(entries: Seq<DepEntry>) -> Set<Seq<char>> {
    name_set(direct_tokens(entries))
}

/// The set of normalized nested package names a dependency document
/// requests.
pub open spec fn spec_nested_names(entries: Seq<DepEntry>) -> Set<Seq<char>> {
    name_set(nested_tokens(entries))
}

/// Extracts the two package-name sets of a dependency document: direct
/// package names and nested sub-ecosystem package names, version qualifiers
/// stripped, each set free of duplicates.
pub fn get_deps(entries: &Vec<DepEntry>) -> (r: PackageNameSet)
    ensures
        r.direct@.map_values(|x: String| x@).to_set() == spec_direct_names(entries@),
        r.nested@.map_values(|x: String| x@).to_set() == spec_nested_names(entries@),
        r.direct@.map_values(|x: String| x@).no_duplicates(),
        r.nested@.map_values(|x: String| x@).no_duplicates(),
{
    let mut direct: Vec<String> = Vec::new();
    let mut nested: Vec<String> = Vec::new();
    proof {
        assert(entries@.take(0).len() == 0);
        assert(direct@.map_values(|x: String| x@).to_set() =~= name_set(
            direct_tokens(entries@.take(0)),
        ));
        assert(nested@.map_values(|x: String| x@).to_set() =~= name_set(
            nested_tokens(entries@.take(0)),
        ));
    }
    let mut i: usize = 0;
    while i < entries.len()
        invariant
            0 <= i <= entries@.len(),
            direct@.map_values(|x: String| x@).to_set() == name_set(
                direct_tokens(entries@.take(i as int)),
            ),
            nested@.map_values(|x: String| x@).to_set() == name_set(
                nested_tokens(entries@.take(i as int)),
            ),
            direct@.map_values(|x: String| x@).no_duplicates(),
            nested@.map_values(|x: String| x@).no_duplicates(),
        decreases entries@.len() - i,
    {
        let ghost pre_direct = direct_tokens(entries@.take(i as int));
        let ghost pre_nested = nested_tokens(entries@.take(i as int));
        proof {
            assert(entries@.take(i + 1).drop_last() =~= entries@.take(i as int));
            assert(entries@.take(i + 1).last() == entries@[i as int]);
        }
        match &entries[i] {
            DepEntry::Direct(t) => {
                insert_name(&mut direct, t.as_str());
                proof {
                    assert(direct_tokens(entries@.take(i + 1)) =~= pre_direct + seq![t@]);
                    lemma_name_set_push(pre_direct, t@);
                    assert(nested_tokens(entries@.take(i + 1)) =~= pre_nested);
                }
            },
            DepEntry::Nested(g) => {
                let ghost gviews = g@.map_values(|t: String| t@);
                let mut j: usize = 0;
                proof {
                    assert(pre_nested + gviews.take(0) =~= pre_nested);
                }
                while j < g.len()
                    invariant
                        gviews == g@.map_values(|t: String| t@),
                        0 <= j <= g@.len(),
                        nested@.map_values(|x: String| x@).to_set() == name_set(
                            pre_nested + gviews.take(j as int),
                        ),
                        nested@.map_values(|x: String| x@).no_duplicates(),
                    decreases g@.len() - j,
                {
                    insert_name(&mut nested, g[j].as_str());
                    proof {
                        assert(pre_nested + gviews.take(j + 1) =~= (pre_nested + gviews.take(
                            j as int,
                        )) + seq![gviews[j as int]]);
                        lemma_name_set_push(pre_nested + gviews.take(j as int), gviews[j as int]);
                    }
                    j += 1;
                }
                proof {
                    assert(nested_tokens(entries@.take(i + 1)) =~= pre_nested + gviews);
                    assert(pre_nested + gviews.take(g@.len() as int) =~= pre_nested + gviews);
                    assert(direct_tokens(entries@.take(i + 1)) =~= pre_direct);
                }
            },
            DepEntry::Unrecognized => {
                proof {
                    assert(direct_tokens(entries@.take(i + 1)) =~= pre_direct);
                    assert(nested_tokens(entries@.take(i + 1)) =~= pre_nested);
                }
            },
        }
        i += 1;
    }
    proof {
        assert(entries@.take(entries@.len() as int) =~= entries@);
    }
    PackageNameSet { direct, nested }
}

/// Whether every name in `a` also appears in `b`.
pub fn names_subset(a: &Vec<String>, b: &Vec<String>) -> (r: bool)
    ensures
        r == a@.map_values(|x: String| x@).to_set().subset_of(
            b@.map_values(|x: String| x@).to_set(),
        ),
{
    let ghost av = a@.map_values(|x: String| x@);
    let ghost bv = b@.map_values(|x: String| x@);
    let mut i: usize = 0;
    while i < a.len()
        invariant
            av == a@.map_values(|x: String| x@),
            bv == b@.map_values(|x: String| x@),
            0 <= i <= a@.len(),
            forall|j: int| 0 <= j < i ==> bv.contains(#[trigger] av[j]),
        decreases a@.len() - i,
    {
        if !vec_contains_str(b, a[i].as_str()) {
            proof {
                assert(av.to_set().contains(av[i as int]));
                assert(!bv.to_set().contains(av[i as int]));
            }
            return false;
        }
        i += 1;
    }
    proof {
        assert forall|y: Seq<char>| av.to_set().contains(y) implies bv.to_set().contains(y) by {
            let k = choose|k: int| 0 <= k < av.len() && av[k] == y;
            assert(bv.contains(av[k]));
        }
    }
    true
}

/// Superset validation: a resolved document is accepted for a requested
/// spec exactly when its direct package names are a superset of the
/// requested direct names and its nested package names are a superset of
/// the requested nested names.  Extra resolved packages are expected;
/// versions are ignored.
pub fn validate_lock(requested: &Vec<DepEntry>, resolved: &Vec<DepEntry>) -> (r: bool)
    ensures
        r == (spec_direct_names(requested@).subset_of(spec_direct_names(resolved@))
            && spec_nested_names(requested@).subset_of(spec_nested_names(resolved@))),
{
    let req = get_deps(requested);
    let res = get_deps(resolved);
    let direct_ok = names_subset(&req.direct, &res.direct);
    let nested_ok = names_subset(&req.nested, &res.nested);
    direct_ok && nested_ok
}

} // verus!
