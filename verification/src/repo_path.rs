//! Paths inside a repository and the order in which they are listed.
use crate::text::chars_of;
use vstd::prelude::*;

verus! {

/// A path relative to the root of a repository, its components separated by `/`.
#[derive(Debug, PartialEq, Eq)]
pub struct RepoPath {
    text: String,
}

impl View for RepoPath {
    type V = Seq<char>;

    closed spec fn view(&self) -> Seq<char> {
        self.text@
    }
}

/// The components of a path: the pieces between the `/` characters.
pub open spec fn components(path: Seq<char>) -> Seq<Seq<char>>
    decreases path.len(),
{
    if path.len() == 0 {
        seq![Seq::empty()]
    } else {
        let rest = components(path.drop_first());
        if path[0] == '/' {
            seq![Seq::empty()] + rest
        } else {
            seq![seq![path[0]] + rest[0]] + rest.drop_first()
        }
    }
}

/// Alphabetical order by code points; a text comes before every longer text that begins with it.
pub open spec fn text_less(a: Seq<char>, b: Seq<char>) -> bool
    decreases a.len(),
{
    if b.len() == 0 {
        false
    } else if a.len() == 0 {
        true
    } else if a[0] == b[0] {
        text_less(a.drop_first(), b.drop_first())
    } else {
        a[0] < b[0]
    }
}

/// Compares component by component, as a file tree lists its entries.
pub open spec fn components_less(a: Seq<Seq<char>>, b: Seq<Seq<char>>) -> bool
    decreases a.len(),
{
    if b.len() == 0 {
        false
    } else if a.len() == 0 {
        true
    } else if a[0] == b[0] {
        components_less(a.drop_first(), b.drop_first())
    } else {
        text_less(a[0], b[0])
    }
}

/// The order of paths: by their components.
pub open spec fn path_less(a: Seq<char>, b: Seq<char>) -> bool {
    components_less(components(a), components(b))
}

/// The order of single characters within a path: a separator ends a component, so it comes
/// before every other character.
spec fn char_less(a: char, b: char) -> bool {
    b != '/' && (a == '/' || a < b)
}

/// Whether `a` comes before `b` when read character by character.
spec fn scan_less(a: Seq<char>, b: Seq<char>) -> bool
    decreases a.len(),
{
    if b.len() == 0 {
        false
    } else if a.len() == 0 {
        true
    } else if a[0] == b[0] {
        scan_less(a.drop_first(), b.drop_first())
    } else {
        char_less(a[0], b[0])
    }
}

proof fn lemma_components_nonempty(path: Seq<char>)
    ensures
        components(path).len() > 0,
    decreases path.len(),
{
    if path.len() > 0 {
        lemma_components_nonempty(path.drop_first());
    }
}

/// Reading two paths character by character decides the order of their components.
proof fn lemma_scan_is_path_less(a: Seq<char>, b: Seq<char>)
    ensures
        scan_less(a, b) == path_less(a, b),
    decreases a.len(),
{
    let ca = components(a);
    let cb = components(b);
    lemma_components_nonempty(a);
    lemma_components_nonempty(b);
    if a.len() == 0 || b.len() == 0 {
        reveal_with_fuel(components_less, 2);
        if a.len() > 0 {
            lemma_components_nonempty(a.drop_first());
            assert(ca.drop_first() =~= components(a.drop_first()) || a[0] != '/');
        }
        if b.len() > 0 {
            lemma_components_nonempty(b.drop_first());
            assert(cb.drop_first() =~= components(b.drop_first()) || b[0] != '/');
        }
    } else {
        let ra = components(a.drop_first());
        let rb = components(b.drop_first());
        lemma_components_nonempty(a.drop_first());
        lemma_components_nonempty(b.drop_first());
        lemma_scan_is_path_less(a.drop_first(), b.drop_first());
        if a[0] == b[0] && a[0] == '/' {
            assert(ca.drop_first() =~= ra);
            assert(cb.drop_first() =~= rb);
        } else if a[0] == b[0] {
            assert(ca[0].drop_first() =~= ra[0]);
            assert(cb[0].drop_first() =~= rb[0]);
            assert(ca.drop_first() =~= ra.drop_first());
            assert(cb.drop_first() =~= rb.drop_first());
            if ra[0] == rb[0] {
                assert(ca[0] =~= cb[0]);
            }
        }
    }
}

proof fn lemma_scan_irreflexive(a: Seq<char>)
    ensures
        !scan_less(a, a),
    decreases a.len(),
{
    if a.len() > 0 {
        lemma_scan_irreflexive(a.drop_first());
    }
}

proof fn lemma_scan_transitive(a: Seq<char>, b: Seq<char>, c: Seq<char>)
    requires
        scan_less(a, b),
        scan_less(b, c),
    ensures
        scan_less(a, c),
    decreases a.len(),
{
    if a.len() > 0 && a[0] == b[0] && b[0] == c[0] {
        lemma_scan_transitive(a.drop_first(), b.drop_first(), c.drop_first());
    }
}

proof fn lemma_scan_total(a: Seq<char>, b: Seq<char>)
    ensures
        a == b || scan_less(a, b) || scan_less(b, a),
    decreases a.len(),
{
    if a.len() > 0 && b.len() > 0 && a[0] == b[0] {
        lemma_scan_total(a.drop_first(), b.drop_first());
        if a.drop_first() == b.drop_first() {
            assert(a =~= seq![a[0]] + a.drop_first());
            assert(b =~= seq![b[0]] + b.drop_first());
        }
    } else if a.len() == 0 && b.len() == 0 {
        assert(a =~= b);
    }
}

/// No path comes before itself.
pub proof fn law_path_order_irreflexive(a: Seq<char>)
    ensures
        !path_less(a, a),
{
    lemma_scan_is_path_less(a, a);
    lemma_scan_irreflexive(a);
}

/// A path that comes before a second, which comes before a third, comes before the third.
pub proof fn law_path_order_transitive(a: Seq<char>, b: Seq<char>, c: Seq<char>)
    requires
        path_less(a, b),
        path_less(b, c),
    ensures
        path_less(a, c),
{
    lemma_scan_is_path_less(a, b);
    lemma_scan_is_path_less(b, c);
    lemma_scan_is_path_less(a, c);
    lemma_scan_transitive(a, b, c);
}

/// Of two different paths one comes before the other.
pub proof fn law_path_order_total(a: Seq<char>, b: Seq<char>)
    ensures
        a == b || path_less(a, b) || path_less(b, a),
{
    lemma_scan_is_path_less(a, b);
    lemma_scan_is_path_less(b, a);
    lemma_scan_total(a, b);
}

/// Everything below a directory comes after the directory itself and before every path that
/// comes after the directory without being below it.
pub proof fn law_directory_contents_adjacent(
    directory: Seq<char>,
    inside: Seq<char>,
    other: Seq<char>,
)
    requires
        path_less(directory, other),
        !(directory.push('/')).is_prefix_of(other),
    ensures
        path_less(directory, directory + seq!['/'] + inside),
        path_less(directory + seq!['/'] + inside, other),
{
    let below = directory + seq!['/'] + inside;
    lemma_scan_is_path_less(directory, below);
    lemma_scan_is_path_less(directory, other);
    lemma_scan_is_path_less(below, other);
    lemma_scan_directory(directory, inside, other);
}

proof fn lemma_scan_directory(directory: Seq<char>, inside: Seq<char>, other: Seq<char>)
    requires
        scan_less(directory, other),
        !(directory.push('/')).is_prefix_of(other),
    ensures
        scan_less(directory, directory + seq!['/'] + inside),
        scan_less(directory + seq!['/'] + inside, other),
    decreases directory.len(),
{
    let below = directory + seq!['/'] + inside;
    if directory.len() > 0 {
        assert(below.drop_first() =~= directory.drop_first() + seq!['/'] + inside);
        if directory[0] == other[0] {
            let d = directory.drop_first();
            let o = other.drop_first();
            if d.push('/').is_prefix_of(o) {
                assert forall|i: int| 0 <= i < directory.push('/').len() implies directory.push(
                    '/',
                )[i] == other[i] by {
                    if i > 0 {
                        assert(d.push('/')[i - 1] == o[i - 1]);
                    }
                }
                assert(directory.push('/') =~= other.subrange(
                    0,
                    directory.push('/').len() as int,
                ));
            }
            lemma_scan_directory(d, inside, o);
        } else {
            lemma_scan_prefix(directory.drop_first(), inside);
        }
    } else {
        if other[0] == '/' {
            assert(directory.push('/') =~= other.subrange(0, 1));
        }
    }
}

proof fn lemma_scan_prefix(directory: Seq<char>, inside: Seq<char>)
    ensures
        scan_less(directory, directory + seq!['/'] + inside),
    decreases directory.len(),
{
    let below = directory + seq!['/'] + inside;
    if directory.len() > 0 {
        assert(below.drop_first() =~= directory.drop_first() + seq!['/'] + inside);
        lemma_scan_prefix(directory.drop_first(), inside);
    }
}

/// Whether the path spelled by `a` comes before the one spelled by `b`.
pub fn chars_less(a: &Vec<char>, b: &Vec<char>) -> (less: bool)
    ensures
        less == path_less(a@, b@),
{
    proof {
        lemma_scan_is_path_less(a@, b@);
    }
    let mut i: usize = 0;
    assert(a@.skip(0) =~= a@);
    assert(b@.skip(0) =~= b@);
    while i < a.len() && i < b.len() && a[i] == b[i]
        invariant
            i <= a@.len(),
            i <= b@.len(),
            scan_less(a@, b@) == scan_less(a@.skip(i as int), b@.skip(i as int)),
        decreases a@.len() - i,
    {
        assert(a@.skip(i as int).drop_first() =~= a@.skip(i + 1));
        assert(b@.skip(i as int).drop_first() =~= b@.skip(i + 1));
        i = i + 1;
    }
    if i == b.len() {
        false
    } else if i == a.len() {
        true
    } else {
        b[i] != '/' && (a[i] == '/' || a[i] < b[i])
    }
}

impl RepoPath {
    /// The path that a text spells.
    pub fn new(text: &str) -> (path: RepoPath)
        ensures
            path@ == text@,
    {
        RepoPath { text: text.to_string() }
    }

    /// The text of the path.
    pub fn as_str(&self) -> (text: &str)
        ensures
            text@ == self@,
    {
        self.text.as_str()
    }

    /// Whether two paths are the same.
    pub fn same(&self, other: &RepoPath) -> (same: bool)
        ensures
            same == (self@ == other@),
    {
        self.text == other.text
    }

    /// Whether this path is listed before the other.
    pub fn less(&self, other: &RepoPath) -> (less: bool)
        ensures
            less == path_less(self@, other@),
    {
        let a = chars_of(self.text.as_str());
        let b = chars_of(other.text.as_str());
        chars_less(&a, &b)
    }

    /// The characters of the path.
    pub fn chars(&self) -> (chars: Vec<char>)
        ensures
            chars@ == self@,
    {
        chars_of(self.text.as_str())
    }
}

impl Clone for RepoPath {
    fn clone(&self) -> (path: RepoPath)
        ensures
            path == *self,
    {
        RepoPath { text: self.text.clone() }
    }
}

/// The pieces with a `/` between each two of them.
pub open spec fn joined(pieces: Seq<Seq<char>>) -> Seq<char>
    decreases pieces.len(),
{
    if pieces.len() == 0 {
        Seq::empty()
    } else if pieces.len() == 1 {
        pieces[0]
    } else {
        pieces[0] + seq!['/'] + joined(pieces.drop_first())
    }
}

/// The components of a path hold no `/`, there is at least one, and joined they are the path.
pub proof fn law_components_join(path: Seq<char>)
    ensures
        components(path).len() > 0,
        forall|i: int|
            0 <= i < components(path).len() ==> !(#[trigger] components(path)[i]).contains('/'),
        joined(components(path)) == path,
    decreases path.len(),
{
    if path.len() == 0 {
        assert(path =~= Seq::empty());
    } else {
        let rest = components(path.drop_first());
        let all = components(path);
        law_components_join(path.drop_first());
        assert forall|i: int| 0 <= i < all.len() implies !(#[trigger] all[i]).contains('/') by {
            if i > 0 {
                assert(all[i] == rest[if path[0] == '/' {
                    i - 1
                } else {
                    i
                }]);
            } else if path[0] != '/' {
                let first = rest[0];
                assert forall|k: int| 0 <= k < all[0].len() implies all[0][k] != '/' by {
                    if k > 0 {
                        assert(all[0][k] == first[k - 1]);
                    }
                }
            }
        }
        assert(path =~= seq![path[0]] + joined(rest));
        if path[0] == '/' {
            assert(all.drop_first() =~= rest);
            assert(joined(all) =~= seq!['/'] + joined(rest));
        } else {
            assert(all.drop_first() =~= rest.drop_first());
            assert(all[0] == seq![path[0]] + rest[0]);
            assert(joined(all) =~= seq![path[0]] + joined(rest));
        }
    }
}

/// A path is split in one way only: pieces without a `/` are the components of what they are
/// joined to.
pub proof fn law_joined_splits(pieces: Seq<Seq<char>>)
    requires
        pieces.len() > 0,
        forall|i: int| 0 <= i < pieces.len() ==> !(#[trigger] pieces[i]).contains('/'),
    ensures
        components(joined(pieces)) == pieces,
    decreases pieces.len(), pieces[0].len(),
{
    let path = joined(pieces);
    let first = pieces[0];
    let tail = pieces.drop_first();
    if first.len() == 0 {
        assert(first =~= Seq::empty());
        if pieces.len() == 1 {
            assert(pieces =~= seq![Seq::empty()]);
        } else {
            assert forall|i: int| 0 <= i < tail.len() implies !(#[trigger] tail[i]).contains(
                '/',
            ) by {
                assert(tail[i] == pieces[i + 1]);
            }
            law_joined_splits(tail);
            assert(path.drop_first() =~= joined(tail));
            assert(pieces =~= seq![Seq::empty()] + tail);
        }
    } else {
        let shorter = pieces.update(0, first.drop_first());
        assert(first.contains(first[0]));
        assert forall|i: int| 0 <= i < shorter.len() implies !(#[trigger] shorter[i]).contains(
            '/',
        ) by {
            assert(!pieces[i].contains('/'));
            if i == 0 && shorter[0].contains('/') {
                let k = choose|k: int| 0 <= k < shorter[0].len() && shorter[0][k] == '/';
                assert(first[k + 1] == '/');
            }
        }
        law_joined_splits(shorter);
        assert(shorter.drop_first() =~= tail);
        assert(path.drop_first() =~= joined(shorter));
        assert(seq![first[0]] + first.drop_first() =~= first);
        assert(pieces =~= seq![first] + tail);
    }
}

/// Whether two texts agree up to position `k`, where the first ends or has the smaller character.
pub open spec fn text_less_at(a: Seq<char>, b: Seq<char>, k: int) -> bool {
    &&& 0 <= k <= a.len()
    &&& k < b.len()
    &&& a.take(k) == b.take(k)
    &&& k == a.len() || a[k] < b[k]
}

/// A text comes before another where they agree up to some position, at which the first ends or
/// has the smaller character.
pub proof fn law_text_order(a: Seq<char>, b: Seq<char>)
    ensures
        text_less(a, b) <==> exists|k: int| text_less_at(a, b, k),
    decreases a.len(),
{
    if a.len() > 0 && b.len() > 0 && a[0] == b[0] {
        let ra = a.drop_first();
        let rb = b.drop_first();
        law_text_order(ra, rb);
        if text_less(a, b) {
            let k = choose|k: int| text_less_at(ra, rb, k);
            assert(a.take(k + 1) =~= seq![a[0]] + ra.take(k));
            assert(b.take(k + 1) =~= seq![b[0]] + rb.take(k));
            assert(text_less_at(a, b, k + 1));
        }
        if exists|k: int| text_less_at(a, b, k) {
            let k = choose|k: int| text_less_at(a, b, k);
            if k > 0 {
                assert(ra.take(k - 1) =~= a.take(k).drop_first());
                assert(rb.take(k - 1) =~= b.take(k).drop_first());
                assert(text_less_at(ra, rb, k - 1));
            }
        }
    } else {
        if text_less(a, b) {
            assert(a.take(0) =~= b.take(0));
            assert(text_less_at(a, b, 0));
        }
        if exists|k: int| text_less_at(a, b, k) {
            let k = choose|k: int| text_less_at(a, b, k);
            if k > 0 {
                assert(a.take(k)[0] == b.take(k)[0]);
            }
        }
    }
}

/// Whether two lists of components agree up to position `k`, where the first ends or has the
/// component that comes first as a text.
pub open spec fn components_less_at(a: Seq<Seq<char>>, b: Seq<Seq<char>>, k: int) -> bool {
    &&& 0 <= k <= a.len()
    &&& k < b.len()
    &&& a.take(k) == b.take(k)
    &&& k == a.len() || exists|j: int| text_less_at(a[k], b[k], j)
}

/// A path comes before another where their components agree up to some position, at which the
/// first path ends or has the component that comes first as a text.
pub proof fn law_path_order(a: Seq<char>, b: Seq<char>)
    ensures
        path_less(a, b) <==> exists|k: int| components_less_at(components(a), components(b), k),
{
    lemma_components_order(components(a), components(b));
}

proof fn lemma_components_order(a: Seq<Seq<char>>, b: Seq<Seq<char>>)
    ensures
        components_less(a, b) <==> exists|k: int| components_less_at(a, b, k),
    decreases a.len(),
{
    if a.len() > 0 && b.len() > 0 && a[0] == b[0] {
        let ra = a.drop_first();
        let rb = b.drop_first();
        lemma_components_order(ra, rb);
        if components_less(a, b) {
            let k = choose|k: int| components_less_at(ra, rb, k);
            assert(a.take(k + 1) =~= seq![a[0]] + ra.take(k));
            assert(b.take(k + 1) =~= seq![b[0]] + rb.take(k));
            assert(components_less_at(a, b, k + 1));
        }
        if exists|k: int| components_less_at(a, b, k) {
            let k = choose|k: int| components_less_at(a, b, k);
            if k > 0 {
                assert(ra.take(k - 1) =~= a.take(k).drop_first());
                assert(rb.take(k - 1) =~= b.take(k).drop_first());
                if k < a.len() {
                    assert(ra[k - 1] == a[k] && rb[k - 1] == b[k]);
                }
                assert(components_less_at(ra, rb, k - 1));
            }
        }
    } else {
        if a.len() > 0 && b.len() > 0 {
            law_text_order(a[0], b[0]);
        }
        if components_less(a, b) {
            assert(a.take(0) =~= b.take(0));
            assert(components_less_at(a, b, 0));
        }
        if exists|k: int| components_less_at(a, b, k) {
            let k = choose|k: int| components_less_at(a, b, k);
            if k > 0 {
                assert(a.take(k)[0] == b.take(k)[0]);
            }
        }
    }
}

} // verus!
