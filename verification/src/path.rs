//! File-system paths as sequences of components.
//!
//! A path is held as the components that `std::path::Path::components`
//! yields on Unix: an optional leading root `/`, an optional leading `.`,
//! then `..` and normal names. Joining and prefix tests are defined on
//! these components.

use vstd::prelude::*;

verus! {

/// The component that stands for the root directory.
pub open spec fn root_component() -> Seq<char> {
    seq!['/']
}

/// The component that stands for the current directory.
pub open spec fn cur_dir_component() -> Seq<char> {
    seq!['.']
}

/// A path is absolute when it starts at the root directory.
pub open spec fn spec_is_absolute(p: Seq<Seq<char>>) -> bool {
    p.len() > 0 && p[0] == root_component()
}

/// The components of `p` without a leading `.`.
pub open spec fn strip_cur_dir(p: Seq<Seq<char>>) -> Seq<Seq<char>> {
    if p.len() > 0 && p[0] == cur_dir_component() {
        p.drop_first()
    } else {
        p
    }
}

/// The components of `base` joined with `other`: an absolute `other`
/// replaces `base`; otherwise the components of `other` follow those of
/// `base` (a leading `.` of `other` vanishes, as a `.` never stands inside a
/// path's components).
pub open spec fn spec_join(base: Seq<Seq<char>>, other: Seq<Seq<char>>) -> Seq<Seq<char>> {
    if spec_is_absolute(other) || base.len() == 0 {
        other
    } else {
        base + strip_cur_dir(other)
    }
}

/// `p` starts with `base` when the components of `base` are a prefix of
/// those of `p`.
pub open spec fn spec_starts_with(p: Seq<Seq<char>>, base: Seq<Seq<char>>) -> bool {
    base.len() <= p.len() && p.subrange(0, base.len() as int) == base
}

/// Whether `p` has the form of the components `Path::components` yields:
/// no component is empty, the root and `.` only come first, and no other
/// component holds a `/`.
pub open spec fn wf_components(p: Seq<Seq<char>>) -> bool {
    forall|i: int|
        0 <= i < p.len() ==> {
            &&& (#[trigger] p[i]).len() > 0
            &&& (p[i] == root_component() || p[i] == cur_dir_component()) ==> i == 0
            &&& p[i] != root_component() ==> !p[i].contains('/')
        }
}

/// The text of a path built from its components the way `PathBuf::push`
/// builds it: a `/` goes between two components unless the text so far is
/// empty or already ends with `/` (as after the root). For paths of the form
/// `Path::components` yields, this is the text `Path::display` shows.
pub open spec fn path_text(p: Seq<Seq<char>>) -> Seq<char>
    decreases p.len(),
{
    if p.len() == 0 {
        Seq::empty()
    } else {
        let prefix = path_text(p.drop_last());
        if prefix.len() == 0 || prefix.last() == '/' {
            prefix + p.last()
        } else {
            prefix + seq!['/'] + p.last()
        }
    }
}

/// A path of the file system.
#[derive(Debug, PartialEq, Eq)]
pub struct FsPath {
    /// The components, first to last.
    pub components: Vec<String>,
}

impl View for FsPath {
    type V = Seq<Seq<char>>;

    open spec fn view(&self) -> Seq<Seq<char>> {
        self.components@.map_values(|c: String| c@)
    }
}

/// A copy of `v`, string by string.
fn copy_strings(v: &Vec<String>) -> (r: Vec<String>)
    ensures
        r@.map_values(|c: String| c@) == v@.map_values(|c: String| c@),
{
    let mut r: Vec<String> = Vec::new();
    let mut i: usize = 0;
    while i < v.len()
        invariant
            i <= v.len(),
            r@.len() == i,
            forall|j: int| 0 <= j < i ==> #[trigger] r@[j]@ == v@[j]@,
        decreases v.len() - i,
    {
        r.push(v[i].clone());
        i = i + 1;
    }
    assert(r@.map_values(|c: String| c@) =~= v@.map_values(|c: String| c@));
    r
}

impl Clone for FsPath {
    fn clone(&self) -> (r: Self)
        ensures
            r@ == self@,
    {
        FsPath { components: copy_strings(&self.components) }
    }
}

impl FsPath {
    /// The path made of the given components.
    pub fn new(components: Vec<String>) -> (p: FsPath)
        ensures
            p.components == components,
    {
        FsPath { components }
    }

    /// The number of components.
    pub fn len(&self) -> (n: usize)
        ensures
            n == self@.len(),
    {
        self.components.len()
    }

    /// Whether the path starts at the root directory.
    pub fn is_absolute(&self) -> (b: bool)
        ensures
            b == spec_is_absolute(self@),
    {
        if self.components.len() == 0 {
            return false;
        }
        let first = self.components[0].as_str();
        let b = first.unicode_len() == 1 && first.get_char(0) == '/';
        assert(b == (self@[0] =~= root_component()));
        b
    }

    /// Whether the components of `base` are a prefix of those of `self`.
    pub fn starts_with(&self, base: &FsPath) -> (b: bool)
        ensures
            b == spec_starts_with(self@, base@),
    {
        let n = base.components.len();
        if n > self.components.len() {
            return false;
        }
        let mut i: usize = 0;
        while i < n
            invariant
                n == base@.len(),
                n <= self@.len(),
                i <= n,
                forall|j: int| 0 <= j < i ==> self@[j] == base@[j],
            decreases n - i,
        {
            if self.components[i] != base.components[i] {
                assert(self@.subrange(0, n as int)[i as int] != base@[i as int]);
                return false;
            }
            i = i + 1;
        }
        assert(self@.subrange(0, n as int) =~= base@);
        true
    }

    /// The text of the path, its components joined by `/`.
    pub fn text(&self) -> (t: String)
        ensures
            t@ == path_text(self@),
    {
        let mut t = String::new();
        let mut ends_with_sep = false;
        let mut i: usize = 0;
        while i < self.components.len()
            invariant
                i <= self@.len(),
                t@ == path_text(self@.take(i as int)),
                ends_with_sep == (t@.len() > 0 && t@.last() == '/'),
            decreases self@.len() - i,
        {
            assert(self@.take(i + 1).drop_last() =~= self@.take(i as int));
            let c = self.components[i].as_str();
            let add_sep = !(t.as_str().unicode_len() == 0 || ends_with_sep);
            if add_sep {
                let ghost before = t@;
                t.append("/");
                proof {
                    reveal_strlit("/");
                    assert(t@ =~= before + seq!['/']);
                }
            }
            let ghost mid = t@;
            t.append(c);
            let n = c.unicode_len();
            if n > 0 {
                ends_with_sep = c.get_char(n - 1) == '/';
                assert(t@.last() == c@.last());
            } else {
                assert(t@ =~= mid);
                if add_sep {
                    ends_with_sep = true;
                }
            }
            i = i + 1;
        }
        assert(self@.take(self@.len() as int) =~= self@);
        t
    }

    /// `self` joined with `other`, as `std::path::Path::join` does it.
    pub fn join(&self, other: &FsPath) -> (r: FsPath)
        ensures
            r@ == spec_join(self@, other@),
    {
        if other.is_absolute() || self.components.len() == 0 {
            return other.clone();
        }
        let mut comps = copy_strings(&self.components);
        let skip: usize = if other.components.len() > 0 && {
            let first = other.components[0].as_str();
            first.unicode_len() == 1 && first.get_char(0) == '.'
        } {
            1
        } else {
            0
        };
        proof {
            let o = other@;
            if skip == 1 {
                assert(o[0] =~= cur_dir_component());
            } else if o.len() > 0 {
                assert(o[0] != cur_dir_component()) by {
                    if o[0] == cur_dir_component() {
                        assert(o[0].len() == 1 && o[0][0] == '.');
                    }
                }
            }
        }
        let ghost start = comps@.map_values(|c: String| c@);
        let mut i: usize = skip;
        while i < other.components.len()
            invariant
                skip <= i <= other@.len(),
                comps@.len() == self@.len() + (i - skip),
                forall|j: int| 0 <= j < self@.len() ==> #[trigger] comps@[j]@ == self@[j],
                forall|j: int|
                    self@.len() <= j < comps@.len() ==> #[trigger] comps@[j]@ == other@[j
                        - self@.len() + skip],
            decreases other@.len() - i,
        {
            comps.push(other.components[i].clone());
            i = i + 1;
        }
        let r = FsPath { components: comps };
        assert(r@ =~= spec_join(self@, other@));
        r
    }
}

/// Joining a path that is not absolute gives components that start with
/// those of the base. (This is a fact about components only: a `..` among
/// them can still lead out of the base on the file system, which is why
/// listings are checked on canonical paths.)
pub proof fn lemma_join_relative_stays_inside(base: Seq<Seq<char>>, other: Seq<Seq<char>>)
    requires
        !spec_is_absolute(other),
    ensures
        spec_starts_with(spec_join(base, other), base),
{
    if base.len() != 0 {
        assert(spec_join(base, other).subrange(0, base.len() as int) =~= base);
    } else {
        assert(spec_join(base, other).subrange(0, 0) =~= base);
    }
}

/// Joining an absolute path gives that path, whatever the base.
pub proof fn lemma_join_absolute_replaces(base: Seq<Seq<char>>, other: Seq<Seq<char>>)
    requires
        spec_is_absolute(other),
    ensures
        spec_join(base, other) == other,
{
}

/// Joining paths of the form `Path::components` yields gives a path of that
/// form.
pub proof fn lemma_join_keeps_form(base: Seq<Seq<char>>, other: Seq<Seq<char>>)
    requires
        wf_components(base),
        wf_components(other),
    ensures
        wf_components(spec_join(base, other)),
{
    if !(spec_is_absolute(other) || base.len() == 0) {
        let s = strip_cur_dir(other);
        let j = spec_join(base, other);
        assert forall|i: int| 0 <= i < s.len() implies {
            &&& (#[trigger] s[i]).len() > 0
            &&& s[i] != root_component()
            &&& s[i] != cur_dir_component()
            &&& !s[i].contains('/')
        } by {
            let k = if other.len() > 0 && other[0] == cur_dir_component() { i + 1 } else { i };
            assert(s[i] == other[k]);
            if k == 0 {
                assert(other[0] != root_component());
                assert(other[0] != cur_dir_component());
            }
        }
        assert forall|i: int| 0 <= i < j.len() implies {
            &&& (#[trigger] j[i]).len() > 0
            &&& (j[i] == root_component() || j[i] == cur_dir_component()) ==> i == 0
            &&& j[i] != root_component() ==> !j[i].contains('/')
        } by {
            if i >= base.len() {
                assert(j[i] == s[i - base.len()]);
            } else {
                assert(j[i] == base[i]);
            }
        }
    }
}

/// Every path starts with itself, and "starts with" is transitive.
pub proof fn lemma_starts_with_preorder(a: Seq<Seq<char>>, b: Seq<Seq<char>>, c: Seq<Seq<char>>)
    ensures
        spec_starts_with(a, a),
        spec_starts_with(a, b) && spec_starts_with(b, c) ==> spec_starts_with(a, c),
{
    assert(a.subrange(0, a.len() as int) =~= a);
    if spec_starts_with(a, b) && spec_starts_with(b, c) {
        assert(a.subrange(0, c.len() as int) =~= b.subrange(0, c.len() as int));
    }
}

/// The root is written `/` and the current directory `.`; a path is
/// absolute exactly when its first component is the root; it starts with a
/// base exactly when it has at least the base's components and agrees with
/// the base on each of them.
pub proof fn lemma_path_basics(p: Seq<Seq<char>>, base: Seq<Seq<char>>)
    ensures
        root_component() == seq!['/'],
        cur_dir_component() == seq!['.'],
        spec_is_absolute(p) <==> (p.len() > 0 && p[0] == seq!['/']),
        spec_starts_with(p, base) <==> (base.len() <= p.len() && forall|i: int|
            0 <= i < base.len() ==> #[trigger] p[i] == base[i]),
{
    if base.len() <= p.len() && (forall|i: int| 0 <= i < base.len() ==> #[trigger] p[i] == base[i]) {
        assert(p.subrange(0, base.len() as int) =~= base);
    }
    if spec_starts_with(p, base) {
        assert forall|i: int| 0 <= i < base.len() implies #[trigger] p[i] == base[i] by {
            assert(p.subrange(0, base.len() as int)[i] == p[i]);
        }
    }
}

/// Joining a relative path that does not start with `.` onto a non-empty
/// base keeps every component of the base and then every component of the
/// other path, in order, and nothing else.
pub proof fn lemma_join_appends(base: Seq<Seq<char>>, other: Seq<Seq<char>>)
    requires
        base.len() > 0,
        other.len() == 0 || (other[0] != seq!['/'] && other[0] != seq!['.']),
    ensures
        spec_join(base, other).len() == base.len() + other.len(),
        forall|i: int| 0 <= i < base.len() ==> #[trigger] spec_join(base, other)[i] == base[i],
        forall|i: int|
            0 <= i < other.len() ==> #[trigger] spec_join(base, other)[base.len() + i] == other[i],
{
}

/// The text of a path puts exactly one `/` between a component and the
/// next, and none after the root: the text of a well-formed path with one
/// more component is the text before, a `/` unless the path was just the
/// root, and the component. The text of one component is that component.
pub proof fn lemma_text_separates_components(p: Seq<Seq<char>>, c: Seq<char>)
    requires
        wf_components(p),
    ensures
        path_text(seq![c]) == c,
        p.len() == 0 ==> path_text(p) == Seq::<char>::empty(),
        p == seq![seq!['/']] ==> path_text(p.push(c)) == seq!['/'] + c,
        p.len() > 0 && p != seq![seq!['/']] ==> path_text(p.push(c)) == path_text(p) + seq!['/'] + c,
{
    let e = Seq::<Seq<char>>::empty();
    assert(path_text(e) == Seq::<char>::empty());
    assert(seq![c].drop_last() =~= e);
    assert(path_text(seq![c]) == Seq::<char>::empty() + c);
    assert(Seq::<char>::empty() + c =~= c);
    assert(p.push(c).drop_last() =~= p);
    if p == seq![seq!['/']] {
        assert(p.drop_last() =~= e);
        assert(path_text(p) == Seq::<char>::empty() + seq!['/']);
        assert(Seq::<char>::empty() + seq!['/'] =~= seq!['/']);
    }
    if p.len() > 0 && p != seq![seq!['/']] {
        lemma_text_ends_with_last(p);
        let last = p.last();
        assert(last.len() > 0);
        if last == root_component() {
            assert(p.len() - 1 == 0);
            assert(p =~= seq![seq!['/']]);
        }
        assert(!last.contains('/'));
        assert(last.last() != '/') by {
            if last.last() == '/' {
                assert(last[last.len() - 1] == '/');
            }
        }
    }
}

/// The text of a non-empty path ends with its last component.
proof fn lemma_text_ends_with_last(p: Seq<Seq<char>>)
    requires
        p.len() > 0,
        p.last().len() > 0,
    ensures
        path_text(p).len() > 0,
        path_text(p).last() == p.last().last(),
{
}

/// Joining a path that starts with `.` onto a non-empty base leaves the `.`
/// out: the base's components come first, then the other path's components
/// after its leading `.`.
pub proof fn lemma_join_drops_leading_cur_dir(base: Seq<Seq<char>>, other: Seq<Seq<char>>)
    requires
        base.len() > 0,
        other.len() > 0,
        other[0] == seq!['.'],
    ensures
        spec_join(base, other) == base + other.subrange(1, other.len() as int),
{
    assert(other[0][0] != root_component()[0]);
    assert(!spec_is_absolute(other));
    assert(other.drop_first() =~= other.subrange(1, other.len() as int));
}

} // verus!
