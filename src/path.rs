use vstd::prelude::*;

verus! {

/// A path as a sequence of components, with whether it is rooted at `/`
/// and whether it starts with the current directory `.`.
pub ghost struct PathView {
    pub absolute: bool,
    pub here: bool,
    pub parts: Seq<Seq<char>>,
}

/// A component is non-empty, holds no separator and is not `.`.
pub open spec fn is_part(s: Seq<char>) -> bool {
    &&& s.len() > 0
    &&& !s.contains('/')
    &&& s != seq!['.']
}

pub open spec fn parts_wf(parts: Seq<Seq<char>>) -> bool {
    forall|i: int| 0 <= i < parts.len() ==> is_part(#[trigger] parts[i])
}

/// A path is well formed when its components are, and a rooted path does
/// not also start with `.`.
pub open spec fn path_wf(p: PathView) -> bool {
    parts_wf(p.parts) && !(p.absolute && p.here)
}

/// The path without its last component.
pub open spec fn parent_view(p: PathView) -> PathView {
    PathView { absolute: p.absolute, here: p.here, parts: p.parts.drop_last() }
}

/// Keeps a finished field when it is a component.
pub open spec fn keep(done: Seq<Seq<char>>, field: Seq<char>) -> Seq<Seq<char>> {
    if is_part(field) {
        done.push(field)
    } else {
        done
    }
}

/// Reads `s` left to right: the components finished so far and the field
/// that is still open after the last separator.
pub open spec fn scan(s: Seq<char>) -> (Seq<Seq<char>>, Seq<char>)
    decreases s.len(),
{
    if s.len() == 0 {
        (seq![], seq![])
    } else {
        let (done, field) = scan(s.drop_last());
        if s.last() == '/' {
            (keep(done, field), seq![])
        } else {
            (done, field.push(s.last()))
        }
    }
}

/// The components of a path text after its root or leading `.`: its
/// `/`-separated fields, leaving out the empty ones and `.`.
pub open spec fn components(s: Seq<char>) -> Seq<Seq<char>> {
    keep(scan(s).0, scan(s).1)
}

/// Whether a path text starts with the current directory: `.` alone or
/// followed by a separator. A `.` anywhere else is dropped.
pub open spec fn starts_here(s: Seq<char>) -> bool {
    s.len() > 0 && s[0] == '.' && (s.len() == 1 || s[1] == '/')
}

/// The path that a text names.
pub open spec fn parse_spec(s: Seq<char>) -> PathView {
    PathView { absolute: s.len() > 0 && s[0] == '/', here: starts_here(s), parts: components(s) }
}

/// Components joined by single separators.
pub open spec fn join_parts(parts: Seq<Seq<char>>) -> Seq<char>
    decreases parts.len(),
{
    if parts.len() == 0 {
        seq![]
    } else if parts.len() == 1 {
        parts[0]
    } else {
        join_parts(parts.drop_last()) + seq!['/'] + parts.last()
    }
}

/// What the text of a path starts with: `/` when it is absolute, `./` (or
/// `.` alone) when it starts with the current directory.
pub open spec fn lead_text(p: PathView) -> Seq<char> {
    if p.absolute {
        seq!['/']
    } else if p.here {
        if p.parts.len() == 0 {
            seq!['.']
        } else {
            seq!['.', '/']
        }
    } else {
        seq![]
    }
}

/// The text of a path: its lead, then its components joined by `/`.
pub open spec fn render(p: PathView) -> Seq<char> {
    lead_text(p) + join_parts(p.parts)
}

/// Whether a path has no component at all: not rooted, no leading `.`,
/// no parts.
pub open spec fn is_empty_path(p: PathView) -> bool {
    !p.absolute && !p.here && p.parts.len() == 0
}

/// `base` joined with `rel`: an absolute `rel` replaces `base`, and a
/// leading `.` of `rel` stays only when `base` is empty.
pub open spec fn join_spec(base: PathView, rel: PathView) -> PathView {
    if rel.absolute {
        rel
    } else {
        PathView {
            absolute: base.absolute,
            here: base.here || (is_empty_path(base) && rel.here),
            parts: base.parts + rel.parts,
        }
    }
}

/// What is left of `p` below `base`, when the components of `base` lead
/// those of `p`; an empty `base` leaves `p` whole.
pub open spec fn strip_prefix_spec(p: PathView, base: PathView) -> Option<PathView> {
    if is_empty_path(base) {
        Some(p)
    } else if p.absolute == base.absolute && p.here == base.here && base.parts.is_prefix_of(p.parts) {
        Some(PathView { absolute: false, here: false, parts: p.parts.skip(base.parts.len() as int) })
    } else {
        None
    }
}

proof fn lemma_scan_field(s: Seq<char>, f: Seq<char>)
    requires
        !f.contains('/'),
    ensures
        scan(s + f) == (scan(s).0, scan(s).1 + f),
    decreases f.len(),
{
    if f.len() == 0 {
        assert(s + f =~= s);
        assert(scan(s).1 + f =~= scan(s).1);
    } else {
        let g = f.drop_last();
        assert(!g.contains('/')) by {
            if g.contains('/') {
                let j = choose|j: int| 0 <= j < g.len() && g[j] == '/';
                assert(f[j] == '/');
            }
        }
        lemma_scan_field(s, g);
        assert((s + f).drop_last() =~= s + g);
        assert((s + f).last() == f.last());
        assert(f.last() != '/') by {
            if f.last() == '/' {
                assert(f[f.len() - 1] == '/');
            }
        }
        assert((scan(s).1 + g).push(f.last()) =~= scan(s).1 + f);
    }
}

proof fn lemma_scan_join(lead: Seq<char>, parts: Seq<Seq<char>>)
    requires
        scan(lead) == (Seq::<Seq<char>>::empty(), Seq::<char>::empty()),
        parts.len() > 0,
        parts_wf(parts),
    ensures
        scan(lead + join_parts(parts)) == (parts.drop_last(), parts.last()),
    decreases parts.len(),
{
    if parts.len() == 1 {
        lemma_scan_field(lead, parts[0]);
        assert(parts.drop_last() =~= Seq::<Seq<char>>::empty());
        assert(Seq::<char>::empty() + parts[0] =~= parts[0]);
    } else {
        let front = parts.drop_last();
        assert(parts_wf(front)) by {
            assert forall|i: int| 0 <= i < front.len() implies is_part(#[trigger] front[i]) by {
                assert(front[i] == parts[i]);
            }
        }
        lemma_scan_join(lead, front);
        let x = lead + join_parts(front);
        assert(is_part(parts[parts.len() - 1]));
        assert(x.push('/').drop_last() =~= x);
        assert(scan(x.push('/')) == (keep(front.drop_last(), front.last()), Seq::<char>::empty()));
        assert(is_part(front[front.len() - 1]));
        assert(front.drop_last().push(front.last()) =~= front);
        lemma_scan_field(x.push('/'), parts.last());
        assert(lead + join_parts(parts) =~= x.push('/') + parts.last());
        assert(Seq::<char>::empty() + parts.last() =~= parts.last());
    }
}

proof fn lemma_join_first(parts: Seq<Seq<char>>)
    requires
        parts.len() > 0,
        parts_wf(parts),
    ensures
        join_parts(parts).len() >= parts[0].len(),
        forall|k: int| 0 <= k < parts[0].len() ==> join_parts(parts)[k] == #[trigger] parts[0][k],
    decreases parts.len(),
{
    assert(is_part(parts[0]));
    if parts.len() > 1 {
        let front = parts.drop_last();
        assert(parts_wf(front)) by {
            assert forall|i: int| 0 <= i < front.len() implies is_part(#[trigger] front[i]) by {
                assert(front[i] == parts[i]);
            }
        }
        lemma_join_first(front);
        assert(front[0] == parts[0]);
        assert forall|k: int| 0 <= k < parts[0].len() implies join_parts(parts)[k] == #[trigger] parts[0][k] by {
            assert(join_parts(parts) == join_parts(front) + seq!['/'] + parts.last());
            assert(join_parts(parts)[k] == join_parts(front)[k]);
        }
    }
}

/// Reading back the text of a well-formed path gives the path itself.
pub proof fn lemma_parse_render(p: PathView)
    requires
        path_wf(p),
    ensures
        parse_spec(render(p)) == p,
{
    let lead = lead_text(p);
    let empty = (Seq::<Seq<char>>::empty(), Seq::<char>::empty());
    assert(scan(Seq::<char>::empty()) == empty);
    assert(seq!['/'].drop_last() =~= Seq::<char>::empty());
    assert(scan(seq!['/']) == empty);
    assert(seq!['.'].drop_last() =~= Seq::<char>::empty());
    assert(scan(seq!['.']) == (Seq::<Seq<char>>::empty(), seq!['.']));
    assert(seq!['.', '/'].drop_last() =~= seq!['.']);
    assert(!is_part(seq!['.']));
    assert(scan(seq!['.', '/']) == empty);
    let s = render(p);
    if p.parts.len() == 0 {
        assert(join_parts(p.parts) == Seq::<char>::empty());
        assert(s =~= lead);
        assert(components(s) =~= p.parts);
    } else {
        assert(p.here ==> scan(lead) == empty);
        lemma_scan_join(lead, p.parts);
        assert(is_part(p.parts[p.parts.len() - 1]));
        assert(components(s) =~= p.parts);
        lemma_join_first(p.parts);
        assert(is_part(p.parts[0]));
        if !p.absolute && !p.here {
            assert(s =~= join_parts(p.parts));
            assert(s[0] == p.parts[0][0]);
            assert(p.parts[0][0] != '/') by {
                if p.parts[0][0] == '/' {
                    assert(p.parts[0].contains('/'));
                }
            }
            if p.parts[0][0] == '.' {
                assert(p.parts[0].len() > 1) by {
                    if p.parts[0].len() == 1 {
                        assert(p.parts[0] =~= seq!['.']);
                    }
                }
                assert(s[1] == p.parts[0][1]);
                assert(p.parts[0][1] != '/') by {
                    if p.parts[0][1] == '/' {
                        assert(p.parts[0].contains('/'));
                    }
                }
            }
        } else if p.here {
            assert(s[0] == '.' && s[1] == '/');
        }
    }
}

/// A path held component by component.
#[derive(Debug)]
pub struct FsPath {
    pub absolute: bool,
    /// The path starts with the current directory `.`.
    pub here: bool,
    pub parts: Vec<String>,
}

pub open spec fn part_views(parts: Seq<String>) -> Seq<Seq<char>> {
    parts.map_values(|s: String| s@)
}

pub proof fn lemma_part_views_push(a: Seq<String>, x: String)
    ensures
        part_views(a.push(x)) == part_views(a).push(x@),
{
    assert(part_views(a.push(x)) =~= part_views(a).push(x@));
}

impl View for FsPath {
    type V = PathView;

    open spec fn view(&self) -> PathView {
        PathView { absolute: self.absolute, here: self.here, parts: part_views(self.parts@) }
    }
}

impl FsPath {
    pub open spec fn wf(&self) -> bool {
        path_wf(self@)
    }

    /// The path that `s` names, component by component.
    pub fn parse(s: &str) -> (r: FsPath)
        ensures
            r@ == parse_spec(s@),
            r.wf(),
    {
        let n = s.unicode_len();
        let mut parts: Vec<String> = Vec::new();
        let mut start: usize = 0;
        let mut i: usize = 0;
        while i < n
            invariant
                n == s@.len(),
                start <= i <= n,
                scan(s@.take(i as int)) == (part_views(parts@), s@.subrange(start as int, i as int)),
                parts_wf(part_views(parts@)),
            decreases n - i,
        {
            let c = s.get_char(i);
            proof {
                assert(s@.take(i + 1).drop_last() == s@.take(i as int));
                assert(s@.take(i + 1).last() == c);
            }
            if c == '/' {
                Self::push_field(s, start, i, &mut parts);
                start = i + 1;
            } else {
                assert(s@.subrange(start as int, i + 1) == s@.subrange(start as int, i as int).push(c));
            }
            i = i + 1;
        }
        assert(s@.take(n as int) == s@);
        Self::push_field(s, start, n, &mut parts);
        let absolute = n > 0 && s.get_char(0) == '/';
        let here = n > 0 && s.get_char(0) == '.' && (n == 1 || s.get_char(1) == '/');
        FsPath { absolute, here, parts }
    }

    /// The text of the path, with `/` between components.
    pub fn text(&self) -> (r: String)
        ensures
            r@ == render(self@),
    {
        proof {
            reveal_strlit("/");
            reveal_strlit(".");
            reveal_strlit("./");
            assert("/"@ =~= seq!['/']);
            assert("."@ =~= seq!['.']);
            assert("./"@ =~= seq!['.', '/']);
        }
        let ghost views = self@.parts;
        let mut out = if self.absolute {
            String::from_str("/")
        } else if self.here {
            if self.parts.len() == 0 {
                String::from_str(".")
            } else {
                String::from_str("./")
            }
        } else {
            String::new()
        };
        let ghost lead = out@;
        assert(lead == lead_text(self@));
        let mut i: usize = 0;
        while i < self.parts.len()
            invariant
                views == self@.parts,
                lead == lead_text(self@),
                i <= self.parts.len(),
                out@ == lead + join_parts(views.take(i as int)),
            decreases self.parts.len() - i,
        {
            proof {
                assert(views.take(i + 1).drop_last() == views.take(i as int));
                assert(views.take(i + 1).last() == self.parts@[i as int]@);
            }
            let ghost prev = out@;
            if i > 0 {
                out.append("/");
                assert(out@ =~= prev + seq!['/']) by {
                    reveal_strlit("/");
                }
            } else {
                assert(views.take(1) =~= seq![views[0]]);
            }
            let ghost mid = out@;
            let piece = self.parts[i].as_str();
            out.append(piece);
            proof {
                assert(out@ == mid + piece@);
                let t = views.take(i + 1);
                assert(t.last() == views[i as int]);
                assert(self.parts@[i as int]@ == views[i as int]);
                if i > 0 {
                    assert(prev == lead + join_parts(t.drop_last()));
                    assert(out@ == prev + seq!['/'] + views[i as int]);
                    assert(join_parts(t) == join_parts(t.drop_last()) + seq!['/'] + t.last());
                    assert(out@ =~= lead + join_parts(t));
                } else {
                    assert(join_parts(t) == t[0]);
                    assert(join_parts(views.take(0)) == Seq::<char>::empty());
                    assert(out@ =~= lead + join_parts(t));
                }
            }
            i = i + 1;
        }
        proof {
            assert(views.take(self.parts.len() as int) == views);
        }
        out
    }

    /// A copy of the path.
    pub fn duplicate(&self) -> (r: FsPath)
        ensures
            r@ == self@,
    {
        let mut parts: Vec<String> = Vec::new();
        let mut i: usize = 0;
        while i < self.parts.len()
            invariant
                i <= self.parts.len(),
                part_views(parts@) == part_views(self.parts@.take(i as int)),
            decreases self.parts.len() - i,
        {
            let ghost before = parts@;
            parts.push(self.parts[i].clone());
            proof {
                lemma_part_views_push(before, self.parts@[i as int]);
                lemma_part_views_push(self.parts@.take(i as int), self.parts@[i as int]);
                assert(self.parts@.take(i + 1) == self.parts@.take(i as int).push(self.parts@[i as int]));
                assert(part_views(parts@) =~= part_views(self.parts@.take(i + 1)));
            }
            i = i + 1;
        }
        assert(self.parts@.take(self.parts.len() as int) == self.parts@);
        FsPath { absolute: self.absolute, here: self.here, parts }
    }

    /// `self` joined with `rel`; an absolute `rel` stands alone.
    pub fn join(&self, rel: &FsPath) -> (r: FsPath)
        ensures
            r@ == join_spec(self@, rel@),
            self.wf() && rel.wf() ==> r.wf(),
    {
        if rel.absolute {
            return rel.duplicate();
        }
        let mut r = self.duplicate();
        let ghost here = self.here || (!self.absolute && !self.here && self.parts.len() == 0 && rel.here);
        r.here = self.here || (!self.absolute && !self.here && self.parts.len() == 0 && rel.here);
        let mut i: usize = 0;
        while i < rel.parts.len()
            invariant
                r.here == here,
                i <= rel.parts.len(),
                r@ == (PathView { absolute: self@.absolute, here, parts: self@.parts + rel@.parts.take(i as int) }),
            decreases rel.parts.len() - i,
        {
            let ghost before = r.parts@;
            r.parts.push(rel.parts[i].clone());
            proof {
                lemma_part_views_push(before, rel.parts@[i as int]);
                assert(rel@.parts[i as int] == rel.parts@[i as int]@);
                assert(self@.parts + rel@.parts.take(i + 1) =~= (self@.parts + rel@.parts.take(i as int)).push(rel@.parts[i as int]));
                assert(r@.parts =~= self@.parts + rel@.parts.take(i + 1));
            }
            i = i + 1;
        }
        assert(rel@.parts.take(rel.parts.len() as int) == rel@.parts);
        r
    }

    /// Whether the two paths have the same components, in the same order,
    /// and are both absolute or both relative.
    pub fn same_as(&self, other: &FsPath) -> (r: bool)
        ensures
            r == (self@ == other@),
    {
        if self.absolute != other.absolute || self.here != other.here || self.parts.len() != other.parts.len() {
            proof {
                if self.parts.len() != other.parts.len() {
                    assert(self@.parts.len() != other@.parts.len());
                }
            }
            return false;
        }
        let mut i: usize = 0;
        while i < self.parts.len()
            invariant
                i <= self.parts.len() == other.parts.len(),
                forall|j: int| 0 <= j < i ==> self@.parts[j] == #[trigger] other@.parts[j],
            decreases self.parts.len() - i,
        {
            if self.parts[i] != other.parts[i] {
                assert(self@.parts[i as int] != other@.parts[i as int]);
                return false;
            }
            i = i + 1;
        }
        assert(self@.parts =~= other@.parts);
        true
    }

    /// What is left of `self` below `base`, if `base` leads it.
    pub fn strip_prefix(&self, base: &FsPath) -> (r: Option<FsPath>)
        ensures
            r matches Some(q) ==> Some(q@) == strip_prefix_spec(self@, base@),
            r is None <==> strip_prefix_spec(self@, base@) is None,
            self.wf() && r is Some ==> r.unwrap().wf(),
    {
        let n = base.parts.len();
        if !base.absolute && !base.here && n == 0 {
            return Some(self.duplicate());
        }
        if self.absolute != base.absolute || self.here != base.here || n > self.parts.len() {
            return None;
        }
        let mut i: usize = 0;
        while i < n
            invariant
                n == base.parts.len() <= self.parts.len(),
                i <= n,
                forall|j: int| 0 <= j < i ==> base@.parts[j] == #[trigger] self@.parts[j],
            decreases n - i,
        {
            if self.parts[i] != base.parts[i] {
                assert(base@.parts[i as int] != self@.parts[i as int]);
                return None;
            }
            i = i + 1;
        }
        let mut rest: Vec<String> = Vec::new();
        let mut k: usize = n;
        while k < self.parts.len()
            invariant
                n <= k <= self.parts.len(),
                part_views(rest@) == self@.parts.subrange(n as int, k as int),
            decreases self.parts.len() - k,
        {
            let ghost before = rest@;
            rest.push(self.parts[k].clone());
            proof {
                lemma_part_views_push(before, self.parts@[k as int]);
                assert(part_views(rest@) =~= self@.parts.subrange(n as int, k + 1));
            }
            k = k + 1;
        }
        let r = FsPath { absolute: false, here: false, parts: rest };
        assert(r@.parts =~= self@.parts.skip(n as int));
        Some(r)
    }

    /// The path without its last component, if it has one.
    pub fn parent(&self) -> (r: Option<FsPath>)
        ensures
            r is Some <==> self@.parts.len() > 0,
            r matches Some(q) ==> q@ == parent_view(self@),
            self.wf() && r is Some ==> r.unwrap().wf(),
    {
        if self.parts.len() == 0 {
            return None;
        }
        let mut q = self.duplicate();
        q.parts.pop();
        assert(q@.parts =~= self@.parts.drop_last());
        Some(q)
    }

    /// Appends the field `s[start..end]` to `parts` when it is a component.
    fn push_field(s: &str, start: usize, end: usize, parts: &mut Vec<String>)
        requires
            start <= end <= s@.len(),
            parts_wf(part_views(old(parts)@)),
        ensures
            part_views(final(parts)@) == keep(part_views(old(parts)@), s@.subrange(start as int, end as int)),
            parts_wf(part_views(final(parts)@)),
    {
        let ghost field = s@.subrange(start as int, end as int);
        let len = end - start;
        let dot = len == 1 && s.get_char(start) == '.';
        let mut slash = false;
        let mut k: usize = start;
        while k < end && !slash
            invariant
                start <= k <= end <= s@.len(),
                forall|j: int| start <= j < k ==> #[trigger] s@[j] != '/',
                slash ==> k < end && s@[k as int] == '/',
            decreases end - k + (if slash { 0int } else { 1int }),
        {
            if s.get_char(k) == '/' {
                slash = true;
            } else {
                k = k + 1;
            }
        }
        proof {
            if slash {
                assert(field[k - start] == '/');
                assert(field.contains('/'));
            } else {
                assert forall|j: int| 0 <= j < field.len() implies #[trigger] field[j] != '/' by {
                    assert(field[j] == s@[start + j]);
                }
                assert(!field.contains('/'));
            }
            if len == 1 {
                assert(field.len() == 1 && field[0] == s@[start as int]);
                if dot {
                    assert(field =~= seq!['.']);
                } else {
                    assert(field != seq!['.']) by {
                        if field == seq!['.'] {
                            assert(field[0] == '.');
                        }
                    }
                }
            } else if len > 1 {
                assert(field.len() != seq!['.'].len());
            }
        }
        if len > 0 && !dot && !slash {
            let piece = String::from_str(s.substring_char(start, end));
            parts.push(piece);
            proof {
                assert(part_views(parts@) =~= part_views(old(parts)@).push(field));
            }
        }
    }
}

} // verus!
