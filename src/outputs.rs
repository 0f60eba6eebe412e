//! The aggregate of resolved dependencies and the notices report made from it.
use vstd::prelude::*;
use indexmap::IndexMap;

verus! {

#[verifier::external_type_specification]
#[verifier::external_body]
#[verifier::reject_recursive_types(K)]
#[verifier::reject_recursive_types(V)]
#[verifier::reject_recursive_types(S)]
pub struct ExIndexMap<K, V, S>(IndexMap<K, V, S>);

/// What an entry of the report holds: name, homepage and license texts.
pub type EntryModel = (Seq<char>, Seq<char>, Seq<Seq<char>>);

/// One dependency of the report, with its license texts in the order met.
#[derive(Debug)]
pub struct OutputSbom {
    pub name: String,
    pub homepage: String,
    pub licenses: Vec<String>,
}

impl View for OutputSbom {
    type V = EntryModel;

    open spec fn view(&self) -> EntryModel {
        (self.name@, self.homepage@, self.licenses.deep_view())
    }
}

/// The key-value pairs of an ordered map, in its order, keys and values seen
/// through their views.
pub uninterp spec fn entries_of(m: IndexMap<String, OutputSbom>) -> Seq<(Seq<char>, EntryModel)>;

/// Relies on `IndexMap::new`: a new map is empty.
#[verifier::external_body]
fn map_new() -> (r: IndexMap<String, OutputSbom>)
    ensures
        entries_of(r) == Seq::<(Seq<char>, EntryModel)>::empty(),
{
    IndexMap::new()
}

/// Relies on `IndexMap::len`: the number of pairs.
#[verifier::external_body]
fn map_len(m: &IndexMap<String, OutputSbom>) -> (r: usize)
    ensures
        r == entries_of(*m).len(),
{
    m.len()
}

/// Relies on `IndexMap::get_index_of`: the position of the pair with an equal
/// key, or `None` when there is none.
#[verifier::external_body]
fn map_index_of(m: &IndexMap<String, OutputSbom>, key: &String) -> (r: Option<usize>)
    ensures
        r matches Some(i) ==> i < entries_of(*m).len() && entries_of(*m)[i as int].0 == key@,
        r is None ==> forall|j: int|
            0 <= j < entries_of(*m).len() ==> #[trigger] entries_of(*m)[j].0 != key@,
{
    m.get_index_of(key)
}

/// Relies on `IndexMap::get_index`: the value at a position, `None` past the end.
#[verifier::external_body]
fn map_value_at(m: &IndexMap<String, OutputSbom>, i: usize) -> (r: Option<&OutputSbom>)
    ensures
        r is Some <==> i < entries_of(*m).len(),
        r matches Some(v) ==> v@ == entries_of(*m)[i as int].1,
{
    m.get_index(i).map(|kv| kv.1)
}

/// Relies on `IndexMap::insert`: a pair with an equal key keeps its place and
/// takes the new value, handing back the old one; otherwise the pair goes last.
#[verifier::external_body]
fn map_insert(m: &mut IndexMap<String, OutputSbom>, key: String, value: OutputSbom) -> (r: Option<
    OutputSbom,
>)
    ensures
        r matches Some(prev) ==> exists|i: int|
            0 <= i < entries_of(*old(m)).len() && #[trigger] entries_of(*old(m))[i].0 == key@
                && prev@ == entries_of(*old(m))[i].1 && entries_of(*final(m)) == entries_of(
                *old(m),
            ).update(i, (key@, value@)),
        r is None ==> (forall|j: int|
            0 <= j < entries_of(*old(m)).len() ==> #[trigger] entries_of(*old(m))[j].0 != key@)
            && entries_of(*final(m)) == entries_of(*old(m)).push((key@, value@)),
{
    m.insert(key, value)
}

/// Width of the dashed line that closes each entry of the report.
pub const SEPARATOR_WIDTH: usize = 100;

/// Banner at the start of every report.
pub const NOTICES_HEADER: &'static str = "\nThis file includes a list of third-party open source licenses used in this Twilio product.\n\n";

/// `n` dashes.
pub open spec fn dashes(n: nat) -> Seq<char> {
    Seq::new(n, |i: int| '-')
}

/// License texts, each followed by a blank line.
pub open spec fn licenses_text(ls: Seq<Seq<char>>) -> Seq<char>
    decreases ls.len(),
{
    if ls.len() == 0 {
        Seq::empty()
    } else {
        licenses_text(ls.drop_last()) + ls.last() + "\n\n"@
    }
}

/// One entry of the report: the name, its homepage line, the license texts and
/// the dashed separator.
pub open spec fn entry_text(e: EntryModel) -> Seq<char> {
    e.0 + "\n - URL: "@ + e.1 + "\n\n"@ + licenses_text(e.2) + dashes(SEPARATOR_WIDTH as nat) + "\n\n"@
}

/// The entries of the report, in order.
pub open spec fn entries_text(s: Seq<EntryModel>) -> Seq<char>
    decreases s.len(),
{
    if s.len() == 0 {
        Seq::empty()
    } else {
        entries_text(s.drop_last()) + entry_text(s.last())
    }
}

/// The whole report: the banner, then each entry.
pub open spec fn report_text(s: Seq<EntryModel>) -> Seq<char> {
    NOTICES_HEADER@ + entries_text(s)
}

impl OutputSbom {
    /// The text of this entry in the report.
    pub fn render(&self) -> (r: String)
        ensures
            r@ == entry_text(self@),
    {
        let mut out = self.name.clone();
        out.append("\n - URL: ");
        out.append(self.homepage.as_str());
        out.append("\n\n");
        let ghost head = out@;
        let ghost ls = self.licenses.deep_view();
        let mut i: usize = 0;
        while i < self.licenses.len()
            invariant
                i <= self.licenses.len(),
                ls == self.licenses.deep_view(),
                out@ == head + licenses_text(ls.take(i as int)),
            decreases self.licenses.len() - i,
        {
            proof {
                assert(ls.take(i + 1).drop_last() =~= ls.take(i as int));
            }
            out.append(self.licenses[i].as_str());
            out.append("\n\n");
            i = i + 1;
        }
        assert(ls.take(i as int) =~= ls);
        let ghost body = out@;
        let mut k: usize = 0;
        while k < SEPARATOR_WIDTH
            invariant
                k <= SEPARATOR_WIDTH,
                out@ == body + dashes(k as nat),
            decreases SEPARATOR_WIDTH - k,
        {
            out.append("-");
            proof {
                reveal_strlit("-");
            }
            assert(dashes(k as nat) + "-"@ =~= dashes((k + 1) as nat));
            k = k + 1;
        }
        out.append("\n\n");
        out
    }
}

/// Whether some entry carries the name `n`.
pub open spec fn has_name(s: Seq<EntryModel>, n: Seq<char>) -> bool {
    exists|i: int| 0 <= i < s.len() && (#[trigger] s[i]).0 == n
}

/// The position of the entry named `n`, when there is one.
pub open spec fn name_position(s: Seq<EntryModel>, n: Seq<char>) -> int {
    choose|i: int| 0 <= i < s.len() && (#[trigger] s[i]).0 == n
}

/// No two entries share a name.
pub open spec fn names_distinct(s: Seq<EntryModel>) -> bool {
    forall|i: int, j: int| 0 <= i < s.len() && 0 <= j < s.len() && i != j ==> (#[trigger] s[i]).0 != (#[trigger] s[j]).0
}

/// The entries after merging a dependency into them: an entry of the same name
/// takes the new homepage and has the texts appended to its own; otherwise a new
/// entry goes last.
pub open spec fn merged(s: Seq<EntryModel>, name: Seq<char>, homepage: Seq<char>, texts: Seq<Seq<char>>) -> Seq<EntryModel> {
    if has_name(s, name) {
        let i = name_position(s, name);
        s.update(i, (name, homepage, s[i].2 + texts))
    } else {
        s.push((name, homepage, texts))
    }
}

/// The report for a set of entries: none when there are no entries.
pub open spec fn notices_text(s: Seq<EntryModel>) -> Option<Seq<char>> {
    if s.len() == 0 {
        None
    } else {
        Some(report_text(s))
    }
}

/// Merging a name that is not yet present, and then the same name again,
/// leaves one new entry, last, with the second homepage and both lists of
/// texts in the order they were merged.
pub proof fn lemma_same_name_appends(
    s: Seq<EntryModel>,
    name: Seq<char>,
    h1: Seq<char>,
    t1: Seq<Seq<char>>,
    h2: Seq<char>,
    t2: Seq<Seq<char>>,
)
    requires
        !has_name(s, name),
    ensures
        merged(merged(s, name, h1, t1), name, h2, t2) == s.push((name, h2, t1 + t2)),
{
    let s1 = s.push((name, h1, t1));
    assert(s1[s.len() as int].0 == name);
    assert(has_name(s1, name));
    let i = name_position(s1, name);
    if i != s.len() {
        assert(s1[i] == s[i]);
        assert(has_name(s, name));
    }
    assert(s1.update(i, (name, h2, s1[i].2 + t2)) =~= s.push((name, h2, t1 + t2)));
}

/// Merging two different names, not yet present, adds two entries in the
/// order of merging, each with its own homepage and texts; the report then
/// holds their blocks in that order after those of the earlier entries.
pub proof fn lemma_distinct_names_in_order(
    s: Seq<EntryModel>,
    n1: Seq<char>,
    h1: Seq<char>,
    t1: Seq<Seq<char>>,
    n2: Seq<char>,
    h2: Seq<char>,
    t2: Seq<Seq<char>>,
)
    requires
        !has_name(s, n1),
        !has_name(s, n2),
        n1 != n2,
    ensures
        merged(merged(s, n1, h1, t1), n2, h2, t2) == s.push((n1, h1, t1)).push((n2, h2, t2)),
        report_text(merged(merged(s, n1, h1, t1), n2, h2, t2)) == report_text(s) + entry_text(
            (n1, h1, t1),
        ) + entry_text((n2, h2, t2)),
{
    let s1 = s.push((n1, h1, t1));
    assert(!has_name(s1, n2)) by {
        if has_name(s1, n2) {
            let i = choose|i: int| 0 <= i < s1.len() && (#[trigger] s1[i]).0 == n2;
            if i < s.len() {
                assert(s1[i] == s[i]);
            }
        }
    }
    let s2 = s1.push((n2, h2, t2));
    assert(s2.drop_last() == s1);
    assert(s1.drop_last() == s);
    assert(entries_text(s2) == entries_text(s1) + entry_text((n2, h2, t2)));
    assert(entries_text(s1) == entries_text(s) + entry_text((n1, h1, t1)));
    assert(report_text(s2) =~= report_text(s) + entry_text((n1, h1, t1)) + entry_text((n2, h2, t2)));
}

/// Dependencies collected for one root descriptor, by name, in the order in
/// which each name was first met.
pub struct Outputs {
    map: IndexMap<String, OutputSbom>,
}

impl View for Outputs {
    type V = Seq<EntryModel>;

    closed spec fn view(&self) -> Seq<EntryModel> {
        entries_of(self.map).map_values(|e: (Seq<char>, EntryModel)| e.1)
    }
}

impl Outputs {
    /// Each pair's key is the name of its entry, and names are distinct.
    pub closed spec fn wf(&self) -> bool {
        &&& forall|i: int| 0 <= i < entries_of(self.map).len() ==> (#[trigger] entries_of(self.map)[i]).0 == entries_of(self.map)[i].1.0
        &&& names_distinct(self@)
    }

    /// An empty aggregate.
    pub fn new() -> (r: Outputs)
        ensures
            r.wf(),
            r@ == Seq::<EntryModel>::empty(),
    {
        let r = Outputs { map: map_new() };
        assert(r@ =~= Seq::<EntryModel>::empty());
        r
    }

    /// Adds a dependency: an entry of the same name takes the new homepage and
    /// has `texts` appended to its license texts; otherwise a new entry goes last.
    pub fn merge(&mut self, name: String, homepage: String, texts: Vec<String>)
        requires
            old(self).wf(),
        ensures
            final(self).wf(),
            final(self)@ == merged(old(self)@, name@, homepage@, texts.deep_view()),
    {
        let ghost e0 = entries_of(self.map);
        let ghost s0 = self@;
        let placeholder = OutputSbom { name: name.clone(), homepage: String::new(), licenses: Vec::new() };
        let prev = map_insert(&mut self.map, name.clone(), placeholder);
        let ghost e1 = entries_of(self.map);
        let ghost pos: int = if prev is Some {
            choose|i: int| 0 <= i < e0.len() && #[trigger] e0[i].0 == name@ && prev->Some_0@ == e0[i].1 && e1 == e0.update(i, (name@, placeholder@))
        } else {
            e0.len() as int
        };
        let mut licenses = match prev {
            Some(p) => p.licenses,
            None => Vec::new(),
        };
        let ghost before = licenses.deep_view();
        let mut rest = texts;
        licenses.append(&mut rest);
        assert(licenses.deep_view() =~= before + texts.deep_view());
        let entry = OutputSbom { name: name.clone(), homepage, licenses };
        let ghost ev = entry@;
        let again = map_insert(&mut self.map, name, entry);
        proof {
            let e2 = entries_of(self.map);
            assert(0 <= pos < e1.len() && e1[pos].0 == name@);
            if again is None {
                assert(e1[pos].0 != name@);
            }
            let j = choose|j: int| 0 <= j < e1.len() && #[trigger] e1[j].0 == name@ && again->Some_0@ == e1[j].1 && e2 == e1.update(j, (name@, ev));
            if prev is Some {
                assert(s0[pos].0 == name@);
                assert forall|k: int| 0 <= k < e1.len() && k != pos implies e1[k].0 != name@ by {
                    assert(e1[k] == e0[k]);
                    assert(s0[k] == e0[k].1);
                    assert(s0[k].0 != s0[pos].0);
                }
                assert(has_name(s0, name@));
                let q = name_position(s0, name@);
                assert(q == pos);
                assert(e2 =~= e0.update(pos, (name@, ev)));
                assert(self@ =~= merged(s0, name@, homepage@, texts.deep_view()));
            } else {
                assert(j == pos);
                assert(!has_name(s0, name@)) by {
                    if has_name(s0, name@) {
                        let q = name_position(s0, name@);
                        assert(e0[q].0 == name@);
                    }
                }
                assert(e2 =~= e0.push((name@, ev)));
                assert(self@ =~= merged(s0, name@, homepage@, texts.deep_view()));
            }
        }
    }

    /// The notices report: the banner, then each entry in order.
    pub fn report(&self) -> (r: String)
        ensures
            r@ == report_text(self@),
    {
        let mut out = String::from_str(NOTICES_HEADER);
        let n = self.len();
        let mut i: usize = 0;
        while i < n
            invariant
                i <= n,
                n == self@.len(),
                out@ == NOTICES_HEADER@ + entries_text(self@.take(i as int)),
            decreases n - i,
        {
            proof {
                assert(self@.take(i + 1).drop_last() =~= self@.take(i as int));
            }
            let block = self.get(i).render();
            out.append(block.as_str());
            i = i + 1;
        }
        assert(self@.take(i as int) =~= self@);
        out
    }

    /// The report to write: none when no dependency was collected.
    pub fn notices(&self) -> (r: Option<String>)
        ensures
            r is None <==> self@.len() == 0,
            r matches Some(t) ==> notices_text(self@) == Some(t@),
    {
        if self.is_empty() {
            None
        } else {
            Some(self.report())
        }
    }

    /// Number of distinct dependencies.
    pub fn len(&self) -> (r: usize)
        ensures
            r == self@.len(),
    {
        map_len(&self.map)
    }

    /// Whether no dependency was collected.
    pub fn is_empty(&self) -> (r: bool)
        ensures
            r == (self@.len() == 0),
    {
        map_len(&self.map) == 0
    }

    /// The entry at position `i`.
    pub fn get(&self, i: usize) -> (r: &OutputSbom)
        requires
            i < self@.len(),
        ensures
            r@ == self@[i as int],
    {
        map_value_at(&self.map, i).unwrap()
    }
}

} // verus!
