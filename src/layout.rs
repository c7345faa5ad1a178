//! Where artifacts live on disk and where they are fetched from: one
//! directory per release version, and a fixed release endpoint.
use vstd::prelude::*;

verus! {

/// Prefix that every version-scope directory name starts with.
pub open spec fn scope_prefix() -> Seq<char> {
    "zuraffa-"@
}

/// Endpoint that each artifact is fetched from, by its file name.
pub open spec fn release_base() -> Seq<char> {
    "https://github.com/arrrrny/zuraffa/releases/latest/download/"@
}

/// Name of the directory that scopes one release version.
pub open spec fn scope_dir_name(version: Seq<char>) -> Seq<char> {
    scope_prefix() + version
}

/// Path of an artifact inside the scope of a version.
pub open spec fn artifact_path(version: Seq<char>, file: Seq<char>) -> Seq<char> {
    scope_dir_name(version) + "/"@ + file
}

/// Address an artifact is downloaded from.
pub open spec fn artifact_url(file: Seq<char>) -> Seq<char> {
    release_base() + file
}

/// Whether a directory entry follows the scope-naming convention.
pub open spec fn is_scope_dir(name: Seq<char>) -> bool {
    scope_prefix().len() <= name.len() && name.subrange(0, scope_prefix().len() as int)
        == scope_prefix()
}

/// A scope directory that belongs to a version other than the current one.
pub open spec fn superseded(name: Seq<char>, current: Seq<char>) -> bool {
    is_scope_dir(name) && name != scope_dir_name(current)
}

/// The superseded entries of `names`, in their order.
pub open spec fn removable(names: Seq<Seq<char>>, current: Seq<char>) -> Seq<Seq<char>>
    decreases names.len(),
{
    if names.len() == 0 {
        Seq::empty()
    } else {
        let rest = removable(names.drop_last(), current);
        if superseded(names.last(), current) {
            rest.push(names.last())
        } else {
            rest
        }
    }
}

/// The texts of a sequence of strings.
pub open spec fn texts(v: Seq<String>) -> Seq<Seq<char>> {
    v.map_values(|s: String| s@)
}

/// Name of the directory that scopes `version`: `zuraffa-<version>`.
pub fn scope_name(version: &str) -> (r: String)
    ensures
        r@ == scope_dir_name(version@),
{
    let mut s = String::from_str("zuraffa-");
    s.append(version);
    s
}

/// Path of the artifact `file` inside the scope of `version`.
pub fn artifact_location(version: &str, file: &str) -> (r: String)
    ensures
        r@ == artifact_path(version@, file@),
{
    let mut s = scope_name(version);
    s.append("/");
    s.append(file);
    s
}

/// Address the artifact `file` is downloaded from.
pub fn download_url(file: &str) -> (r: String)
    ensures
        r@ == artifact_url(file@),
{
    let mut s = String::from_str("https://github.com/arrrrny/zuraffa/releases/latest/download/");
    s.append(file);
    s
}

fn starts_with(s: &str, pre: &str) -> (r: bool)
    ensures
        r == (pre@.len() <= s@.len() && s@.subrange(0, pre@.len() as int) == pre@),
{
    let n = pre.unicode_len();
    if n > s.unicode_len() {
        return false;
    }
    let mut i: usize = 0;
    while i < n
        invariant
            n == pre@.len(),
            n <= s@.len(),
            i <= n,
            forall|j: int| 0 <= j < i ==> s@[j] == pre@[j],
        decreases n - i,
    {
        if s.get_char(i) != pre.get_char(i) {
            assert(s@.subrange(0, n as int)[i as int] != pre@[i as int]);
            return false;
        }
        i = i + 1;
    }
    assert(s@.subrange(0, n as int) =~= pre@);
    true
}

/// Whether the directory entry `name` is the scope of a version other than
/// `current_version`, and so due for removal.
pub fn is_superseded(name: &str, current_version: &str) -> (r: bool)
    ensures
        r == superseded(name@, current_version@),
{
    if !starts_with(name, "zuraffa-") {
        return false;
    }
    let current = scope_name(current_version);
    let entry = String::from_str(name);
    !(entry == current)
}

/// The entries of a working directory that cleanup removes: every scope
/// directory but that of `current_version`, in their order.
pub fn scopes_to_remove(entries: &Vec<String>, current_version: &str) -> (r: Vec<String>)
    ensures
        texts(r@) == removable(texts(entries@), current_version@),
{
    let mut out: Vec<String> = Vec::new();
    let mut i: usize = 0;
    while i < entries.len()
        invariant
            i <= entries@.len(),
            texts(out@) == removable(texts(entries@.take(i as int)), current_version@),
        decreases entries@.len() - i,
    {
        let name = &entries[i];
        proof {
            assert(texts(entries@.take(i + 1)).drop_last() =~= texts(entries@.take(i as int)));
            assert(texts(entries@.take(i + 1)).last() == name@);
        }
        if is_superseded(name.as_str(), current_version) {
            out.push(name.clone());
            assert(texts(out@) =~= removable(texts(entries@.take(i as int)), current_version@).push(
                name@,
            ));
        }
        i = i + 1;
    }
    assert(entries@.take(entries@.len() as int) =~= entries@);
    out
}

/// Cleanup selects exactly the superseded scope directories: an entry is
/// removed if and only if it is a scope directory of another version, so the
/// current version's scope is always left in place.
pub proof fn lemma_cleanup_selects_superseded(names: Seq<Seq<char>>, current: Seq<char>)
    ensures
        forall|n: Seq<char>|
            #[trigger] removable(names, current).contains(n) <==> (names.contains(n) && superseded(
                n,
                current,
            )),
        !removable(names, current).contains(scope_dir_name(current)),
    decreases names.len(),
{
    if names.len() > 0 {
        lemma_cleanup_selects_superseded(names.drop_last(), current);
        assert(names =~= names.drop_last().push(names.last()));
        assert forall|n: Seq<char>|
            #[trigger] removable(names, current).contains(n) <==> (names.contains(n) && superseded(
                n,
                current,
            )) by {
            if names.contains(n) && !names.drop_last().contains(n) {
                let k = choose|k: int| 0 <= k < names.len() && names[k] == n;
                if k < names.len() - 1 {
                    assert(names.drop_last()[k] == n);
                }
            }
            if names.drop_last().contains(n) {
                let k = choose|k: int| 0 <= k < names.drop_last().len() && names.drop_last()[k] == n;
                assert(names[k] == n);
            }
            if removable(names, current).contains(n) && superseded(names.last(), current) {
                let r = removable(names.drop_last(), current);
                if !r.contains(n) {
                    let k = choose|k: int| 0 <= k < r.push(names.last()).len() && r.push(names.last())[k] == n;
                    if k < r.len() {
                        assert(r[k] == n);
                    }
                    assert(names[names.len() - 1] == n);
                }
            }
            if superseded(names.last(), current) {
                let r = removable(names.drop_last(), current);
                assert(r.push(names.last())[r.len() as int] == names.last());
                if r.contains(n) {
                    let k = choose|k: int| 0 <= k < r.len() && r[k] == n;
                    assert(r.push(names.last())[k] == n);
                }
            }
            if n == names.last() {
                assert(names[names.len() - 1] == n);
            }
        }
    }
}

} // verus!
