use vstd::prelude::*;

verus! {

/// A query parameter seen as values: its name and its value.
pub type ParamView = (Seq<char>, Seq<char>);

/// Strict lexicographic order on parameter names, by code point.
pub open spec fn key_lt(a: Seq<char>, b: Seq<char>) -> bool
    decreases a.len(),
{
    if b.len() == 0 {
        false
    } else if a.len() == 0 {
        true
    } else if a[0] != b[0] {
        (a[0] as int) < (b[0] as int)
    } else {
        key_lt(a.drop_first(), b.drop_first())
    }
}

/// The names of `p` strictly increase, so no name occurs twice.
pub open spec fn sorted_keys(p: Seq<ParamView>) -> bool {
    forall|i: int, j: int| 0 <= i < j < p.len() ==> key_lt(#[trigger] p[i].0, #[trigger] p[j].0)
}

/// `name=value`.
pub open spec fn pair_text(e: ParamView) -> Seq<char> {
    e.0 + seq!['='] + e.1
}

/// The entries rendered as `name=value`, joined by `&`, in the order given.
pub open spec fn canonical_text(p: Seq<ParamView>) -> Seq<char>
    decreases p.len(),
{
    if p.len() == 0 {
        Seq::empty()
    } else if p.len() == 1 {
        pair_text(p[0])
    } else {
        canonical_text(p.drop_last()) + seq!['&'] + pair_text(p.last())
    }
}

/// No name comes before itself.
pub proof fn lemma_key_lt_irreflexive(a: Seq<char>)
    ensures
        !key_lt(a, a),
    decreases a.len(),
{
    if a.len() > 0 {
        lemma_key_lt_irreflexive(a.drop_first());
    }
}

/// The order on names is transitive.
pub proof fn lemma_key_lt_transitive(a: Seq<char>, b: Seq<char>, c: Seq<char>)
    requires
        key_lt(a, b),
        key_lt(b, c),
    ensures
        key_lt(a, c),
    decreases a.len(),
{
    if a.len() > 0 && a[0] == b[0] && b[0] == c[0] {
        lemma_key_lt_transitive(a.drop_first(), b.drop_first(), c.drop_first());
    }
}

/// Of two different names, one comes before the other.
pub proof fn lemma_key_lt_total(a: Seq<char>, b: Seq<char>)
    requires
        a != b,
    ensures
        key_lt(a, b) || key_lt(b, a),
    decreases a.len(),
{
    if a.len() > 0 && b.len() > 0 && a[0] == b[0] {
        if a.drop_first() == b.drop_first() {
            assert(a =~= seq![a[0]] + a.drop_first());
            assert(b =~= seq![b[0]] + b.drop_first());
        }
        lemma_key_lt_total(a.drop_first(), b.drop_first());
    } else if a.len() == 0 && b.len() == 0 {
        assert(a =~= b);
    }
}

/// The parameters as a map from name to value.
pub open spec fn query_map(p: Seq<ParamView>) -> Map<Seq<char>, Seq<char>> {
    Map::new(
        |k: Seq<char>| exists|i: int| 0 <= i < p.len() && p[i].0 == k,
        |k: Seq<char>| p[choose|i: int| 0 <= i < p.len() && p[i].0 == k].1,
    )
}

/// In a name-ordered list, each entry's name maps to that entry's value.
pub proof fn lemma_query_map_at(p: Seq<ParamView>, i: int)
    requires
        sorted_keys(p),
        0 <= i < p.len(),
    ensures
        query_map(p).contains_key(p[i].0),
        query_map(p)[p[i].0] == p[i].1,
{
    let k = p[i].0;
    assert(0 <= i < p.len() && p[i].0 == k);
    let j = choose|j: int| 0 <= j < p.len() && p[j].0 == k;
    lemma_key_lt_irreflexive(k);
    if j < i {
        assert(key_lt(p[j].0, p[i].0));
    } else if i < j {
        assert(key_lt(p[i].0, p[j].0));
    }
}

/// Pair `e` is one of the entries of `p`.
pub open spec fn pair_in(p: Seq<ParamView>, e: ParamView) -> bool {
    exists|l: int| 0 <= l < p.len() && p[l] == e
}

/// `q` is `p` with the pair `(key, v)` put in at index `iq`, in place of
/// any pair of `p` with that name.
proof fn lemma_query_map_put(p: Seq<ParamView>, q: Seq<ParamView>, key: Seq<char>, v: Seq<char>, iq: int)
    requires
        sorted_keys(p),
        sorted_keys(q),
        0 <= iq < q.len(),
        q[iq] == (key, v),
        forall|j: int| 0 <= j < q.len() && j != iq ==> pair_in(p, #[trigger] q[j]),
        forall|l: int| 0 <= l < p.len() && (#[trigger] p[l]).0 != key ==> pair_in(q, p[l]),
    ensures
        query_map(q) == query_map(p).insert(key, v),
{
    let mq = query_map(q);
    let mp = query_map(p).insert(key, v);
    lemma_query_map_at(q, iq);
    assert forall|k: Seq<char>| k != key implies (mq.contains_key(k) <==> mp.contains_key(k)) && (mq.contains_key(k) ==> mq[k] == mp[k]) by {
        if mq.contains_key(k) {
            let j = choose|j: int| 0 <= j < q.len() && q[j].0 == k;
            let l = choose|l: int| 0 <= l < p.len() && p[l] == q[j];
            lemma_query_map_at(q, j);
            lemma_query_map_at(p, l);
        }
        if mp.contains_key(k) {
            let l = choose|l: int| 0 <= l < p.len() && p[l].0 == k;
            assert(p[l].0 != key);
            let j = choose|j: int| 0 <= j < q.len() && q[j] == p[l];
            lemma_query_map_at(q, j);
        }
    }
    assert(mq =~= mp);
}

/// Dropping the first entry of a name-ordered list drops its name from the map.
proof fn lemma_query_map_drop_first(p: Seq<ParamView>)
    requires
        sorted_keys(p),
        p.len() > 0,
    ensures
        sorted_keys(p.drop_first()),
        query_map(p.drop_first()) == query_map(p).remove(p[0].0),
{
    let d = p.drop_first();
    assert forall|i: int, j: int| 0 <= i < j < d.len() implies key_lt(#[trigger] d[i].0, #[trigger] d[j].0) by {
        assert(d[i] == p[i + 1] && d[j] == p[j + 1]);
    }
    let md = query_map(d);
    let mr = query_map(p).remove(p[0].0);
    assert forall|k: Seq<char>| #[trigger] md.dom().contains(k) implies mr.dom().contains(k) && md[k] == mr[k] by {
        let j = choose|j: int| 0 <= j < d.len() && d[j].0 == k;
        assert(d[j] == p[j + 1]);
        lemma_key_lt_irreflexive(k);
        assert(key_lt(p[0].0, p[j + 1].0));
        lemma_query_map_at(d, j);
        lemma_query_map_at(p, j + 1);
    }
    assert forall|k: Seq<char>| #[trigger] mr.dom().contains(k) implies md.dom().contains(k) by {
        let l = choose|l: int| 0 <= l < p.len() && p[l].0 == k;
        assert(l != 0);
        assert(d[l - 1] == p[l]);
        lemma_query_map_at(d, l - 1);
    }
    assert(md =~= mr);
}

/// Two name-ordered parameter lists with the same name-to-value map are the
/// same list: the canonical string depends on the map alone, however the
/// parameters were put in.
pub proof fn lemma_sorted_unique(left: Seq<ParamView>, right: Seq<ParamView>)
    requires
        sorted_keys(left),
        sorted_keys(right),
        query_map(left) == query_map(right),
    ensures
        left == right,
        canonical_text(left) == canonical_text(right),
    decreases left.len(),
{
    if left.len() == 0 || right.len() == 0 {
        if right.len() > 0 {
            lemma_query_map_at(right, 0);
        }
        if left.len() > 0 {
            lemma_query_map_at(left, 0);
        }
        assert(left =~= right);
    } else {
        let k1 = left[0].0;
        let k2 = right[0].0;
        lemma_query_map_at(left, 0);
        lemma_query_map_at(right, 0);
        let j = choose|j: int| 0 <= j < right.len() && right[j].0 == k1;
        let i = choose|i: int| 0 <= i < left.len() && left[i].0 == k2;
        lemma_key_lt_irreflexive(k1);
        if j > 0 {
            assert(key_lt(k2, k1));
            if i > 0 {
                assert(key_lt(k1, k2));
                lemma_key_lt_transitive(k1, k2, k1);
            }
        }
        assert(k1 == k2);
        assert(left[0] == right[0]);
        lemma_query_map_drop_first(left);
        lemma_query_map_drop_first(right);
        lemma_sorted_unique(left.drop_first(), right.drop_first());
        assert(left =~= seq![left[0]] + left.drop_first());
        assert(right =~= seq![right[0]] + right.drop_first());
    }
}

/// Whether name `a` comes strictly before name `b`.
fn name_lt(a: &str, b: &str) -> (r: bool)
    ensures
        r == key_lt(a@, b@),
{
    let la = a.unicode_len();
    let lb = b.unicode_len();
    let mut i: usize = 0;
    assert(a@.skip(0) =~= a@);
    assert(b@.skip(0) =~= b@);
    while i < la && i < lb
        invariant
            la == a@.len(),
            lb == b@.len(),
            i <= la,
            i <= lb,
            key_lt(a@, b@) == key_lt(a@.skip(i as int), b@.skip(i as int)),
        decreases la - i,
    {
        let ca = a.get_char(i);
        let cb = b.get_char(i);
        if ca != cb {
            return (ca as u32) < (cb as u32);
        }
        assert(a@.skip(i as int).drop_first() =~= a@.skip(i as int + 1));
        assert(b@.skip(i as int).drop_first() =~= b@.skip(i as int + 1));
        i += 1;
    }
    i < lb
}

/// A set of query parameters, one value per name, kept ordered by name so
/// that the string that is signed and the string that is sent agree.
pub struct Query {
    entries: Vec<(String, String)>,
}

/// The views of the entries, in order.
pub open spec fn entries_view(e: Seq<(String, String)>) -> Seq<ParamView> {
    e.map_values(|x: (String, String)| (x.0@, x.1@))
}

impl View for Query {
    type V = Seq<ParamView>;

    closed spec fn view(&self) -> Seq<ParamView> {
        entries_view(self.entries@)
    }
}

impl Query {
    #[verifier::type_invariant]
    spec fn inv(&self) -> bool {
        sorted_keys(self@)
    }

    /// A query without parameters.
    pub fn new() -> (r: Query)
        ensures
            r@ == Seq::<ParamView>::empty(),
            query_map(r@) == Map::<Seq<char>, Seq<char>>::empty(),
    {
        let r = Query { entries: Vec::new() };
        assert(r@ =~= Seq::<ParamView>::empty());
        assert(query_map(r@) =~= Map::<Seq<char>, Seq<char>>::empty());
        r
    }

    /// The number of parameters.
    pub fn len(&self) -> (r: usize)
        ensures
            r == self@.len(),
    {
        self.entries.len()
    }

    /// Index of the first parameter whose name is not before `key`.
    fn position(&self, key: &str) -> (i: usize)
        ensures
            i <= self@.len(),
            forall|j: int| 0 <= j < i ==> key_lt(#[trigger] self@[j].0, key@),
            i < self@.len() ==> !key_lt(self@[i as int].0, key@),
    {
        let mut i: usize = 0;
        while i < self.entries.len()
            invariant
                i <= self@.len(),
                self@.len() == self.entries@.len(),
                forall|j: int| 0 <= j < i ==> key_lt(#[trigger] self@[j].0, key@),
            decreases self.entries.len() - i,
        {
            assert(self@[i as int].0 == self.entries@[i as int].0@);
            if !name_lt(self.entries[i].0.as_str(), key) {
                return i;
            }
            i += 1;
        }
        i
    }

    /// Sets parameter `key` to `value`, replacing any value it had.
    pub fn insert(&mut self, key: &str, value: String)
        ensures
            query_map(final(self)@) == query_map(old(self)@).insert(key@, value@),
            sorted_keys(final(self)@),
    {
        proof {
            use_type_invariant(&*self);
        }
        let i = self.position(key);
        let ghost p = self@;
        let name = key.to_owned();
        let ghost kv: ParamView = (key@, value@);
        let mut entries: Vec<(String, String)> = Vec::new();
        std::mem::swap(&mut entries, &mut self.entries);
        assert(entries_view(entries@) == p);
        let replace = i < entries.len() && entries[i].0 == name;
        if replace {
            entries.remove(i);
        }
        entries.insert(i, (name, value));
        let ghost q = entries_view(entries@);
        proof {
            assert(q[i as int] == kv);
            if replace {
                assert(q =~= p.update(i as int, kv));
                assert forall|a: int, b: int| 0 <= a < b < q.len() implies key_lt(#[trigger] q[a].0, #[trigger] q[b].0) by {
                    assert(q[a].0 == p[a].0 && q[b].0 == p[b].0);
                }
                assert forall|j: int| 0 <= j < q.len() && j != i implies pair_in(p, #[trigger] q[j]) by {
                    assert(p[j] == q[j]);
                }
                assert forall|l: int| 0 <= l < p.len() && (#[trigger] p[l]).0 != key@ implies pair_in(q, p[l]) by {
                    assert(q[l] == p[l]);
                }
            } else {
                assert(q =~= p.insert(i as int, kv));
                if i < p.len() {
                    lemma_key_lt_total(p[i as int].0, key@);
                }
                assert forall|b: int| i < b < q.len() implies key_lt(key@, #[trigger] q[b].0) by {
                    assert(q[b] == p[b - 1]);
                    if b - 1 > i {
                        lemma_key_lt_transitive(key@, p[i as int].0, p[b - 1].0);
                    }
                }
                assert forall|a: int, b: int| 0 <= a < b < q.len() implies key_lt(#[trigger] q[a].0, #[trigger] q[b].0) by {
                    if a < i {
                        if b == i {
                        } else if b < i {
                            assert(q[a] == p[a] && q[b] == p[b]);
                        } else {
                            assert(key_lt(key@, q[b].0));
                            lemma_key_lt_transitive(q[a].0, key@, q[b].0);
                        }
                    } else if a > i {
                        assert(q[a] == p[a - 1] && q[b] == p[b - 1]);
                    }
                }
                assert forall|j: int| 0 <= j < q.len() && j != i implies pair_in(p, #[trigger] q[j]) by {
                    if j < i {
                        assert(p[j] == q[j]);
                    } else {
                        assert(p[j - 1] == q[j]);
                    }
                }
                assert forall|l: int| 0 <= l < p.len() && (#[trigger] p[l]).0 != key@ implies pair_in(q, p[l]) by {
                    if l < i {
                        assert(q[l] == p[l]);
                    } else {
                        assert(q[l + 1] == p[l]);
                    }
                }
            }
            lemma_query_map_put(p, q, key@, value@, i as int);
        }
        self.entries = entries;
    }

    /// The parameters rendered as `name=value` joined by `&`, by name.
    pub fn canonical(&self) -> (r: String)
        ensures
            r@ == canonical_text(self@),
            sorted_keys(self@),
    {
        proof {
            use_type_invariant(self);
        }
        let mut out = String::new();
        let mut i: usize = 0;
        assert(self@.subrange(0, 0) =~= Seq::<ParamView>::empty());
        while i < self.entries.len()
            invariant
                i <= self@.len(),
                self@.len() == self.entries@.len(),
                out@ == canonical_text(self@.subrange(0, i as int)),
            decreases self.entries.len() - i,
        {
            proof {
                reveal_strlit("&");
                reveal_strlit("=");
                assert("&"@ =~= seq!['&']);
                assert("="@ =~= seq!['=']);
            }
            let ghost before = out@;
            assert(self@[i as int] == (self.entries@[i as int].0@, self.entries@[i as int].1@));
            if i > 0 {
                out.append("&");
            }
            out.append(self.entries[i].0.as_str());
            out.append("=");
            out.append(self.entries[i].1.as_str());
            proof {
                let s = self@.subrange(0, i as int + 1);
                assert(s.drop_last() =~= self@.subrange(0, i as int));
                assert(s.last() == self@[i as int]);
                assert(self.entries@[i as int].0@ == self@[i as int].0);
                if i == 0 {
                    assert(s[0] == self@[0]);
                    assert(before.len() == 0);
                    assert(out@ =~= pair_text(s[0]));
                } else {
                    assert(out@ =~= before + seq!['&'] + pair_text(s.last()));
                }
            }
            i += 1;
        }
        assert(self@.subrange(0, self@.len() as int) =~= self@);
        out
    }
}

} // verus!
