//! The walk over the descriptor graph of one root, as a machine that asks for
//! the loads and fetches it needs and takes their results as events.
use vstd::prelude::*;
use crate::descriptor::Descriptor;
use crate::license::{
    accept_response, is_success, source_of, LicenseInfo, LicenseSource, SourceModel,
    UnsuccessfulStatus,
};
use crate::outputs::{merged, notices_text, EntryModel, Outputs};
use crate::paths::{resolve_file, resolved};

verus! {

/// A dependency whose license texts are being gathered.
pub struct PendingDependency {
    name: String,
    homepage: String,
    sources: Vec<LicenseSource>,
    texts: Vec<String>,
}

/// A pending dependency seen through views.
pub struct PendingModel {
    pub name: Seq<char>,
    pub homepage: Seq<char>,
    pub sources: Seq<SourceModel>,
    pub texts: Seq<Seq<char>>,
}

/// The state of a walk seen through views: the entries collected, the
/// descriptors still to visit (the next one last), and the dependency whose
/// texts are being gathered.
pub struct WalkModel {
    pub entries: Seq<EntryModel>,
    pub stack: Seq<Seq<char>>,
    pub pending: Option<PendingModel>,
}

/// What the walk needs next.
#[derive(Debug)]
pub enum Action {
    /// Read and parse the descriptor at this path, then call `on_descriptor`.
    Load(String),
    /// Read the license file at this path, then call `on_license_text`.
    ReadFile(String),
    /// GET this URL, then call `on_response`.
    Fetch(String),
    /// The walk is complete.
    Finished,
}

/// An action seen through the views of its strings.
pub enum ActionModel {
    Load(Seq<char>),
    ReadFile(Seq<char>),
    Fetch(Seq<char>),
    Finished,
}

impl View for Action {
    type V = ActionModel;

    open spec fn view(&self) -> ActionModel {
        match self {
            Action::Load(p) => ActionModel::Load(p@),
            Action::ReadFile(p) => ActionModel::ReadFile(p@),
            Action::Fetch(u) => ActionModel::Fetch(u@),
            Action::Finished => ActionModel::Finished,
        }
    }
}

/// A descriptor with neither a product nor a dependency.
#[derive(Debug)]
pub struct MalformedDescriptor {
    pub path: String,
}

/// Texts still to be gathered for the pending dependency.
pub open spec fn remaining_work(m: WalkModel) -> nat {
    match m.pending {
        Some(p) => if p.texts.len() < p.sources.len() {
            (p.sources.len() - p.texts.len()) as nat
        } else {
            0
        },
        None => 0,
    }
}

/// The state after taking in every text at hand: texts given inline are
/// gathered, and a dependency with all its texts is merged into the entries.
pub open spec fn settled(m: WalkModel) -> WalkModel
    decreases remaining_work(m),
{
    match m.pending {
        None => m,
        Some(p) => if p.texts.len() >= p.sources.len() {
            WalkModel {
                entries: merged(m.entries, p.name, p.homepage, p.texts),
                stack: m.stack,
                pending: None,
            }
        } else {
            match p.sources[p.texts.len() as int] {
                SourceModel::Ready(t) => settled(
                    WalkModel {
                        entries: m.entries,
                        stack: m.stack,
                        pending: Some(
                            PendingModel {
                                name: p.name,
                                homepage: p.homepage,
                                sources: p.sources,
                                texts: p.texts.push(t),
                            },
                        ),
                    },
                ),
                _ => m,
            }
        },
    }
}

/// The state after a text for the pending dependency arrived.
pub open spec fn with_text(m: WalkModel, t: Seq<char>) -> WalkModel {
    match m.pending {
        Some(p) => settled(
            WalkModel {
                entries: m.entries,
                stack: m.stack,
                pending: Some(
                    PendingModel {
                        name: p.name,
                        homepage: p.homepage,
                        sources: p.sources,
                        texts: p.texts.push(t),
                    },
                ),
            },
        ),
        None => m,
    }
}

/// The stack after the links of the descriptor at `path` were pushed, so that
/// the first link is visited next.
pub open spec fn pushed_links(rest: Seq<Seq<char>>, path: Seq<char>, targets: Seq<Seq<char>>) -> Seq<Seq<char>> {
    rest + Seq::new(targets.len(), |i: int| resolved(path, targets[targets.len() - 1 - i]))
}

/// The state after the next descriptor on the stack was read as `d`, which is
/// not malformed: a product's links are queued, a dependency's license texts
/// are gathered.
pub open spec fn descriptor_step(m: WalkModel, d: Descriptor) -> WalkModel {
    let path = m.stack.last();
    let rest = m.stack.drop_last();
    if d.product is Some {
        WalkModel { entries: m.entries, stack: pushed_links(rest, path, d.link_targets()), pending: m.pending }
    } else {
        let dep = d.dependency->Some_0;
        settled(
            WalkModel {
                entries: m.entries,
                stack: rest,
                pending: Some(
                    PendingModel {
                        name: dep.name@,
                        homepage: dep.homepage@,
                        sources: dep.references().map_values(|l| source_of(l, path)),
                        texts: Seq::empty(),
                    },
                ),
            },
        )
    }
}

/// What the walk in state `m` needs next.
pub open spec fn action_of(m: WalkModel) -> ActionModel {
    match m.pending {
        Some(p) => match p.sources[p.texts.len() as int] {
            SourceModel::ReadFile(f) => ActionModel::ReadFile(f),
            SourceModel::Fetch(u) => ActionModel::Fetch(u),
            SourceModel::Ready(_) => ActionModel::Finished,
        },
        None => if m.stack.len() > 0 {
            ActionModel::Load(m.stack.last())
        } else {
            ActionModel::Finished
        },
    }
}

/// A state in which the walk waits for an outside result: the pending
/// dependency, if any, awaits a text that is not at hand.
pub open spec fn waiting(m: WalkModel) -> bool {
    m.pending matches Some(p) ==> p.texts.len() < p.sources.len()
        && !(p.sources[p.texts.len() as int] is Ready)
}

/// A root that is a product without links ends the walk at once with no
/// entries, so no report is written for it.
pub proof fn lemma_product_without_links(root: Seq<char>, d: Descriptor)
    requires
        d.product is Some,
        d.link_targets().len() == 0,
    ensures
        ({
            let m = descriptor_step(
                WalkModel { entries: Seq::empty(), stack: seq![root], pending: None },
                d,
            );
            &&& m.entries.len() == 0
            &&& action_of(m) == ActionModel::Finished
            &&& notices_text(m.entries) is None
        }),
{
    let m = descriptor_step(WalkModel { entries: Seq::empty(), stack: seq![root], pending: None }, d);
    assert(m.stack =~= Seq::<Seq<char>>::empty());
}

/// The links of a product are visited in declaration order: after a product
/// at `path` is read, the walk next loads its first link, resolved against
/// `path`, and the rest of the links follow it on the stack in order.
pub proof fn lemma_first_link_next(m: WalkModel, d: Descriptor)
    requires
        m.pending is None,
        m.stack.len() > 0,
        d.product is Some,
        d.link_targets().len() > 0,
    ensures
        action_of(descriptor_step(m, d)) == ActionModel::Load(
            resolved(m.stack.last(), d.link_targets()[0]),
        ),
{
}

/// Two descriptors that agree on what the walk reads of them (whether they
/// are products, where their links point, and the name, homepage and license
/// references of their dependency) move the walk to the same state. Since each step is a function of the state and of what was
/// read, walks over the same files and responses reach the same entries and
/// the same report.
pub proof fn lemma_step_deterministic(m: WalkModel, d1: Descriptor, d2: Descriptor)
    requires
        (d1.product is Some) == (d2.product is Some),
        d1.link_targets() == d2.link_targets(),
        (d1.dependency is Some) == (d2.dependency is Some),
        d1.dependency matches Some(a) ==> d2.dependency matches Some(b) && a.name@ == b.name@
            && a.homepage@ == b.homepage@ && a.references() == b.references(),
    ensures
        descriptor_step(m, d1) == descriptor_step(m, d2),
        notices_text(descriptor_step(m, d1).entries) == notices_text(descriptor_step(m, d2).entries),
{
}

/// The walk over the descriptor graph of one root. The graph must have no
/// cycle: a product that leads back to itself is visited again and again.
pub struct Walker {
    outputs: Outputs,
    stack: Vec<String>,
    pending: Option<PendingDependency>,
}

impl View for PendingDependency {
    type V = PendingModel;

    closed spec fn view(&self) -> PendingModel {
        PendingModel {
            name: self.name@,
            homepage: self.homepage@,
            sources: self.sources@.map_values(|s: LicenseSource| s@),
            texts: self.texts.deep_view(),
        }
    }
}

impl View for Walker {
    type V = WalkModel;

    closed spec fn view(&self) -> WalkModel {
        WalkModel {
            entries: self.outputs@,
            stack: self.stack.deep_view(),
            pending: match self.pending {
                Some(p) => Some(p@),
                None => None,
            },
        }
    }
}

impl Walker {
    /// The fields agree with the view: the aggregate is well formed, and the
    /// walk waits for an outside result or has nothing pending.
    pub closed spec fn wf(&self) -> bool {
        &&& self.outputs.wf()
        &&& waiting(self@)
    }

    /// A walk that starts at the descriptor at `root`.
    pub fn new(root: String) -> (r: Walker)
        ensures
            r.wf(),
            r@.entries == Seq::<EntryModel>::empty(),
            r@.stack == seq![root@],
            r@.pending is None,
    {
        let mut stack = Vec::new();
        stack.push(root);
        let r = Walker { outputs: Outputs::new(), stack, pending: None };
        assert(r.stack.deep_view() =~= seq![root@]);
        r
    }

    /// The entries collected so far.
    pub fn outputs(&self) -> (r: &Outputs)
        ensures
            r@ == self@.entries,
    {
        &self.outputs
    }

    /// What the walk needs next.
    pub fn next_action(&self) -> (r: Action)
        requires
            self.wf(),
        ensures
            r@ == action_of(self@),
    {
        match &self.pending {
            Some(p) => {
                let i = p.texts.len();
                match &p.sources[i] {
                    LicenseSource::ReadFile(f) => Action::ReadFile(f.clone()),
                    LicenseSource::Fetch(u) => Action::Fetch(u.clone()),
                    LicenseSource::Ready(_) => Action::Finished,
                }
            },
            None => {
                let n = self.stack.len();
                if n > 0 {
                    Action::Load(self.stack[n - 1].clone())
                } else {
                    Action::Finished
                }
            },
        }
    }

    /// Takes in the descriptor that the last `Load` asked for. A product queues
    /// its links, resolved against its own path, so that they are visited in
    /// declaration order; a dependency starts gathering its license texts. A
    /// descriptor that is neither is refused, naming its path.
    pub fn on_descriptor(&mut self, d: &Descriptor) -> (r: Result<(), MalformedDescriptor>)
        requires
            old(self).wf(),
            old(self)@.pending is None,
            old(self)@.stack.len() > 0,
        ensures
            final(self).wf(),
            r is Err <==> d.is_malformed(),
            r matches Err(e) ==> e.path@ == old(self)@.stack.last() && final(self)@ == old(self)@,
            r is Ok ==> final(self)@ == descriptor_step(old(self)@, *d),
    {
        let n = self.stack.len();
        if d.product.is_none() && d.dependency.is_none() {
            let path = self.stack[n - 1].clone();
            return Err(MalformedDescriptor { path });
        }
        let ghost start = self@;
        let path = self.stack.pop().unwrap();
        let ghost rest = self.stack.deep_view();
        assert(rest =~= start.stack.drop_last());
        if d.product.is_some() {
            let ghost targets = d.link_targets();
            match &d.links {
                Some(links) => {
                    let mut i: usize = links.len();
                    while i > 0
                        invariant
                            i <= links.len(),
                            self.outputs.wf(),
                            self.pending is None,
                            self.outputs@ == start.entries,
                            targets == links@.map_values(|kv: (String, String)| kv.1@),
                            self.stack.deep_view() == pushed_links(rest, path@, targets.subrange(i as int, targets.len() as int)),
                        decreases i,
                    {
                        i = i - 1;
                        let target = resolve_file(&path, &links[i].1);
                        let ghost before = self.stack.deep_view();
                        self.stack.push(target);
                        assert(self.stack.deep_view() =~= before.push(target@));
                        assert(pushed_links(rest, path@, targets.subrange(i as int, targets.len() as int))
                            =~= pushed_links(rest, path@, targets.subrange(i + 1, targets.len() as int)).push(target@));
                    }
                    assert(targets.subrange(0, targets.len() as int) =~= targets);
                },
                None => {
                    assert(self.stack.deep_view() =~= pushed_links(rest, path@, targets));
                },
            }
        } else {
            let dep = d.dependency.as_ref().unwrap();
            let ghost refs = dep.references();
            let mut sources: Vec<LicenseSource> = Vec::new();
            sources.push(dep.license.resolve(&path));
            match &dep.addons {
                Some(addons) => {
                    let mut j: usize = 0;
                    while j < addons.len()
                        invariant
                            j <= addons.len(),
                            refs == seq![dep.license@] + addons@.map_values(|l: LicenseInfo| l@),
                            sources@.map_values(|s: LicenseSource| s@) == refs.take(j + 1).map_values(|l| source_of(l, path@)),
                        decreases addons.len() - j,
                    {
                        let src = addons[j].resolve(&path);
                        let ghost before = sources@.map_values(|s: LicenseSource| s@);
                        sources.push(src);
                        assert(sources@.map_values(|s: LicenseSource| s@) =~= before.push(src@));
                        assert(refs.take(j + 2).map_values(|l| source_of(l, path@))
                            =~= refs.take(j + 1).map_values(|l| source_of(l, path@)).push(source_of(refs[j + 1], path@)));
                        j = j + 1;
                    }
                    assert(refs.take(j + 1) =~= refs);
                },
                None => {
                    assert(refs =~= seq![dep.license@]);
                    assert(refs.take(1) =~= refs);
                },
            }
            assert(sources@.map_values(|s: LicenseSource| s@) =~= refs.map_values(|l| source_of(l, path@)));
            self.pending = Some(
                PendingDependency {
                    name: dep.name.clone(),
                    homepage: dep.homepage.clone(),
                    sources,
                    texts: Vec::new(),
                },
            );
            assert(self@.pending->Some_0.texts =~= Seq::<Seq<char>>::empty());
            self.settle();
        }
        Ok(())
    }

    /// Takes in the license text that the last `ReadFile` asked for.
    pub fn on_license_text(&mut self, text: String)
        requires
            old(self).wf(),
            old(self)@.pending is Some,
        ensures
            final(self).wf(),
            final(self)@ == with_text(old(self)@, text@),
    {
        let ghost start = self@;
        match self.pending.take() {
            Some(mut p) => {
                let ghost pm = p@;
                p.texts.push(text);
                self.pending = Some(p);
                assert(self@.pending->Some_0.texts =~= pm.texts.push(text@));
                self.settle();
            },
            None => {},
        }
    }

    /// Takes in the response to the GET that the last `Fetch` asked for: its
    /// body is the license text when the status is a success (2xx); any other
    /// status stops the walk with an error naming the URL.
    pub fn on_response(&mut self, status: u16, body: String) -> (r: Result<(), UnsuccessfulStatus>)
        requires
            old(self).wf(),
            action_of(old(self)@) is Fetch,
        ensures
            final(self).wf(),
            r is Ok <==> is_success(status),
            r is Ok ==> final(self)@ == with_text(old(self)@, body@),
            r matches Err(e) ==> e.url@ == action_of(old(self)@)->Fetch_0 && e.status == status
                && final(self)@ == old(self)@,
    {
        let url = match self.next_action() {
            Action::Fetch(u) => u,
            _ => String::new(),
        };
        match accept_response(&url, status, body) {
            Ok(text) => {
                self.on_license_text(text);
                Ok(())
            },
            Err(e) => Err(e),
        }
    }

    /// Gathers the texts at hand and merges a dependency that has all of them.
    fn settle(&mut self)
        requires
            old(self).outputs.wf(),
            old(self)@.pending matches Some(p) ==> p.texts.len() <= p.sources.len(),
        ensures
            final(self).wf(),
            final(self)@ == settled(old(self)@),
    {
        let ghost start = self@;
        loop
            invariant
                self.outputs.wf(),
                self@.pending matches Some(p) ==> p.texts.len() <= p.sources.len(),
                settled(self@) == settled(start),
            ensures
                self.wf(),
                self@ == settled(start),
            decreases remaining_work(self@),
        {
            match self.pending.take() {
                None => {
                    break;
                },
                Some(mut p) => {
                    let ghost pm = p@;
                    if p.texts.len() >= p.sources.len() {
                        self.outputs.merge(p.name, p.homepage, p.texts);
                        break;
                    }
                    let i = p.texts.len();
                    let at_hand = match &p.sources[i] {
                        LicenseSource::Ready(t) => Some(t.clone()),
                        _ => None,
                    };
                    match at_hand {
                        Some(t) => {
                            p.texts.push(t);
                            self.pending = Some(p);
                            assert(p@.texts =~= pm.texts.push(pm.sources[i as int]->Ready_0));
                            assert(p@.sources == pm.sources);
                        },
                        None => {
                            self.pending = Some(p);
                            break;
                        },
                    }
                },
            }
        }
    }
}

} // verus!
