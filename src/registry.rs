//! The registry: what the fact column shows, in display order.

use vstd::prelude::*;

verus! {

/// How a registry entry is rendered, independently of its content.
#[derive(Clone, Copy, Debug, PartialEq, Eq, Structural)]
pub enum ActionType {
    HostInfo,
    Delimiter,
    Details,
    Colors,
}

/// The system attribute that an entry's provider reports.
#[derive(Clone, Copy, Debug, PartialEq, Eq, Structural)]
pub enum Fact {
    Hostname,
    Distro,
    Product,
    Kernel,
    Arch,
    Shell,
    Resolution,
    Ip,
    Cpu,
    DiskUsage,
    Ram,
    InitSystem,
    Gpu,
}

/// The platform a registry is built for.
#[derive(Clone, Copy, Debug, PartialEq, Eq, Structural)]
pub enum Platform {
    Linux,
    Windows,
    MacOs,
    Other,
}

/// The platforms on which a declared entry is shown.
#[derive(Clone, Copy, Debug, PartialEq, Eq, Structural)]
pub enum Scope {
    Everywhere,
    Only(Platform),
}

/// Whether an entry declared with `scope` belongs to the registry of `p`.
pub open spec fn applies(scope: Scope, p: Platform) -> bool {
    match scope {
        Scope::Everywhere => true,
        Scope::Only(q) => q == p,
    }
}

impl Scope {
    pub fn applies_to(&self, p: Platform) -> (r: bool)
        ensures
            r == applies(*self, p),
    {
        match self {
            Scope::Everywhere => true,
            Scope::Only(q) => *q == p,
        }
    }
}

/// What an entry is, as the contracts see it.
pub ghost struct Entry {
    pub kind: ActionType,
    pub label: Option<Seq<char>>,
    pub fact: Option<Fact>,
}

impl Entry {
    /// A label exactly for detail rows; a provider for detail and host rows.
    pub open spec fn wf(self) -> bool {
        match self.kind {
            ActionType::HostInfo => self.label is None && self.fact is Some,
            ActionType::Details => self.label is Some && self.fact is Some,
            ActionType::Delimiter | ActionType::Colors => self.label is None && self.fact is None,
        }
    }
}

pub open spec fn host_entry(f: Fact) -> Entry {
    Entry { kind: ActionType::HostInfo, label: None, fact: Some(f) }
}

pub open spec fn delimiter_entry() -> Entry {
    Entry { kind: ActionType::Delimiter, label: None, fact: None }
}

pub open spec fn details_entry(label: Seq<char>, f: Fact) -> Entry {
    Entry { kind: ActionType::Details, label: Some(label), fact: Some(f) }
}

pub open spec fn colors_entry() -> Entry {
    Entry { kind: ActionType::Colors, label: None, fact: None }
}

/// One row of the fact column: its kind, its label and the fact it shows.
#[derive(Clone, Copy, Debug)]
pub struct Action<'a> {
    action_type: ActionType,
    name: Option<&'a str>,
    func: Option<Fact>,
}

impl<'a> View for Action<'a> {
    type V = Entry;

    closed spec fn view(&self) -> Entry {
        Entry {
            kind: self.action_type,
            label: match self.name {
                Some(s) => Some(s@),
                None => None,
            },
            fact: self.func,
        }
    }
}

impl<'a> Action<'a> {
    /// A row carries exactly the fields that its kind needs.
    #[verifier::type_invariant]
    closed spec fn inv(self) -> bool {
        self@.wf()
    }

    pub fn action_type(&self) -> (r: ActionType)
        ensures
            r == self@.kind,
            self@.wf(),
    {
        proof {
            use_type_invariant(self);
        }
        self.action_type
    }

    /// The label of a detail row.
    pub fn name(&self) -> (r: Option<&'a str>)
        ensures
            r is Some <==> self@.label is Some,
            r is Some ==> r->0@ == self@.label->0,
            self@.wf(),
    {
        proof {
            use_type_invariant(self);
        }
        self.name
    }

    /// The fact shown by a host or detail row.
    pub fn func(&self) -> (r: Option<Fact>)
        ensures
            r == self@.fact,
            self@.wf(),
    {
        proof {
            use_type_invariant(self);
        }
        self.func
    }

    /// The host line, whose value is reported by `func`.
    pub fn host_info(func: Fact) -> (r: Action<'a>)
        ensures
            r@ == host_entry(func),
    {
        Action { action_type: ActionType::HostInfo, name: None, func: Some(func) }
    }

    /// A separator line.
    pub fn delimiter() -> (r: Action<'a>)
        ensures
            r@ == delimiter_entry(),
    {
        Action { action_type: ActionType::Delimiter, name: None, func: None }
    }

    /// A labelled fact line.
    pub fn details(name: &'a str, func: Fact) -> (r: Action<'a>)
        ensures
            r@ == details_entry(name@, func),
    {
        Action { action_type: ActionType::Details, name: Some(name), func: Some(func) }
    }

    /// The line of colour swatches.
    pub fn colors() -> (r: Action<'a>)
        ensures
            r@ == colors_entry(),
    {
        Action { action_type: ActionType::Colors, name: None, func: None }
    }
}

/// Every entry that any platform may show, in display order, with the
/// platforms that show it.
pub open spec fn declared_table() -> Seq<(Scope, Entry)> {
    seq![
        (Scope::Everywhere, host_entry(Fact::Hostname)),
        (Scope::Everywhere, delimiter_entry()),
        (Scope::Only(Platform::Linux), details_entry("Distro"@, Fact::Distro)),
        (Scope::Only(Platform::Windows), details_entry("Product"@, Fact::Product)),
        (Scope::Only(Platform::Linux), details_entry("Kernel"@, Fact::Kernel)),
        (Scope::Everywhere, details_entry("Arch"@, Fact::Arch)),
        (Scope::Everywhere, details_entry("Shell"@, Fact::Shell)),
        (Scope::Everywhere, details_entry("Resolution"@, Fact::Resolution)),
        (Scope::Everywhere, details_entry("IP"@, Fact::Ip)),
        (Scope::Everywhere, details_entry("CPU"@, Fact::Cpu)),
        (Scope::Only(Platform::Windows), details_entry("Disk usage"@, Fact::DiskUsage)),
        (Scope::Everywhere, details_entry("RAM"@, Fact::Ram)),
        (Scope::Only(Platform::Linux), details_entry("Init System"@, Fact::InitSystem)),
        (Scope::Only(Platform::Windows), details_entry("GPU"@, Fact::Gpu)),
        (Scope::Everywhere, delimiter_entry()),
        (Scope::Everywhere, colors_entry()),
    ]
}

/// The entries of `t` that apply to `p`, in the order of `t`.
pub open spec fn select(t: Seq<(Scope, Entry)>, p: Platform) -> Seq<Entry>
    decreases t.len(),
{
    if t.len() == 0 {
        Seq::empty()
    } else {
        let rest = select(t.drop_last(), p);
        if applies(t.last().0, p) {
            rest.push(t.last().1)
        } else {
            rest
        }
    }
}

/// The registry of platform `p`.
pub open spec fn registry_for(p: Platform) -> Seq<Entry> {
    select(declared_table(), p)
}

/// The models of a sequence of actions.
pub open spec fn entries<'a>(v: Seq<Action<'a>>) -> Seq<Entry> {
    v.map_values(|a: Action<'a>| a@)
}

/// The declared entries, each with the platforms that show it.
fn declared_actions() -> (r: Vec<(Scope, Action<'static>)>)
    ensures
        r@.map_values(|d: (Scope, Action<'static>)| (d.0, d.1@)) == declared_table(),
{
    let mut t: Vec<(Scope, Action<'static>)> = Vec::new();
    t.push((Scope::Everywhere, Action::host_info(Fact::Hostname)));
    t.push((Scope::Everywhere, Action::delimiter()));
    t.push((Scope::Only(Platform::Linux), Action::details("Distro", Fact::Distro)));
    t.push((Scope::Only(Platform::Windows), Action::details("Product", Fact::Product)));
    t.push((Scope::Only(Platform::Linux), Action::details("Kernel", Fact::Kernel)));
    t.push((Scope::Everywhere, Action::details("Arch", Fact::Arch)));
    t.push((Scope::Everywhere, Action::details("Shell", Fact::Shell)));
    t.push((Scope::Everywhere, Action::details("Resolution", Fact::Resolution)));
    t.push((Scope::Everywhere, Action::details("IP", Fact::Ip)));
    t.push((Scope::Everywhere, Action::details("CPU", Fact::Cpu)));
    t.push((Scope::Only(Platform::Windows), Action::details("Disk usage", Fact::DiskUsage)));
    t.push((Scope::Everywhere, Action::details("RAM", Fact::Ram)));
    t.push((Scope::Only(Platform::Linux), Action::details("Init System", Fact::InitSystem)));
    t.push((Scope::Only(Platform::Windows), Action::details("GPU", Fact::Gpu)));
    t.push((Scope::Everywhere, Action::delimiter()));
    t.push((Scope::Everywhere, Action::colors()));
    assert(t@.map_values(|d: (Scope, Action<'static>)| (d.0, d.1@)) =~= declared_table());
    t
}

/// Builds the registry of platform `p`: the declared entries that apply to
/// it, in declaration order.
pub fn build_registry(p: Platform) -> (r: Vec<Action<'static>>)
    ensures
        entries(r@) == registry_for(p),
        forall|k: int| 0 <= k < r@.len() ==> (#[trigger] r@[k])@.wf(),
{
    let table = declared_actions();
    let ghost model = table@.map_values(|d: (Scope, Action<'static>)| (d.0, d.1@));
    let mut out: Vec<Action<'static>> = Vec::new();
    let mut i: usize = 0;
    while i < table.len()
        invariant
            i <= table@.len(),
            model == declared_table(),
            model.len() == table@.len(),
            forall|j: int| 0 <= j < table@.len() ==> #[trigger] model[j] == (table@[j].0, table@[j].1@),
            entries(out@) == select(model.take(i as int), p),
        decreases table.len() - i,
    {
        let (scope, action) = table[i];
        assert(model.take(i + 1).drop_last() =~= model.take(i as int));
        if scope.applies_to(p) {
            out.push(action);
            assert(entries(out@) =~= select(model.take(i as int), p).push(action@));
        }
        i = i + 1;
    }
    assert(model.take(i as int) =~= model);
    proof {
        lemma_registry_wf(p);
        assert forall|k: int| 0 <= k < out@.len() implies (#[trigger] out@[k])@.wf() by {
            assert(entries(out@)[k] == out@[k]@);
            assert(registry_for(p)[k].wf());
        }
    }
    out
}

/// Every entry of every registry is well formed.
pub proof fn lemma_registry_wf(p: Platform)
    ensures
        forall|k: int| 0 <= k < registry_for(p).len() ==> (#[trigger] registry_for(p)[k]).wf(),
{
    assert forall|k: int| 0 <= k < declared_table().len() implies (#[trigger] declared_table()[k]).1.wf() by {}
    lemma_select_wf(declared_table(), p);
}

proof fn lemma_select_wf(t: Seq<(Scope, Entry)>, p: Platform)
    requires
        forall|k: int| 0 <= k < t.len() ==> (#[trigger] t[k]).1.wf(),
    ensures
        forall|k: int| 0 <= k < select(t, p).len() ==> (#[trigger] select(t, p)[k]).wf(),
    decreases t.len(),
{
    if t.len() > 0 {
        let s = t.drop_last();
        assert forall|k: int| 0 <= k < s.len() implies (#[trigger] s[k]).1.wf() by {
            assert(s[k] == t[k]);
        }
        lemma_select_wf(s, p);
        assert(t[t.len() - 1].1.wf());
        let r = select(t, p);
        assert forall|k: int| 0 <= k < r.len() implies (#[trigger] r[k]).wf() by {
            if k < select(s, p).len() {
                assert(r[k] == select(s, p)[k]);
            }
        }
    }
}

/// Building the registry is pure in the platform: two registries built for
/// the same platform have the same length, and the same kinds, labels and
/// facts, entry by entry.
pub proof fn lemma_build_deterministic<'a, 'b>(p: Platform, r1: Seq<Action<'a>>, r2: Seq<Action<'b>>)
    requires
        entries(r1) == registry_for(p),
        entries(r2) == registry_for(p),
    ensures
        r1.len() == r2.len(),
        forall|k: int|
            0 <= k < r1.len() ==> {
                &&& (#[trigger] r1[k])@.kind == r2[k]@.kind
                &&& r1[k]@.label == r2[k]@.label
                &&& r1[k]@.fact == r2[k]@.fact
            },
{
    assert(entries(r1).len() == r1.len());
    assert(entries(r2).len() == r2.len());
    assert forall|k: int| 0 <= k < r1.len() implies (#[trigger] r1[k])@ == r2[k]@ by {
        assert(entries(r1)[k] == r1[k]@);
        assert(entries(r2)[k] == r2[k]@);
    }
}

} // verus!
