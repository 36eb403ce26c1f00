//! The render pass: for each art row, what the fact column shows.

use vstd::prelude::*;
use crate::align::{offset, offset_of, registry_index, slot_of};
use crate::art::ArtBlock;
use crate::registry::{entries, Action, ActionType, Entry, Fact};

verus! {

/// What a provider reports when it cannot determine its fact.
pub const SENTINEL: &'static str = "unknown";

/// Where the label of a rendered row comes from.
#[derive(Clone, Copy, Debug, PartialEq, Eq)]
pub enum Label<'a> {
    /// The name of the current user.
    User,
    Text(&'a str),
    Empty,
}

/// A label as the contracts see it.
pub ghost enum Caption {
    User,
    Text(Seq<char>),
    Empty,
}

impl<'a> View for Label<'a> {
    type V = Caption;

    open spec fn view(&self) -> Caption {
        match self {
            Label::User => Caption::User,
            Label::Text(s) => Caption::Text(s@),
            Label::Empty => Caption::Empty,
        }
    }
}

/// One rendered fact row, handed to the line printer: its kind, its label,
/// and the fact whose value it shows (an empty value when there is none).
#[derive(Clone, Copy, Debug, PartialEq, Eq)]
pub struct RowRequest<'a> {
    pub kind: ActionType,
    pub label: Label<'a>,
    pub fact: Option<Fact>,
}

/// A rendered row as the contracts see it.
pub ghost struct Request {
    pub kind: ActionType,
    pub caption: Caption,
    pub fact: Option<Fact>,
}

impl<'a> View for RowRequest<'a> {
    type V = Request;

    open spec fn view(&self) -> Request {
        Request { kind: self.kind, caption: self.label@, fact: self.fact }
    }
}

/// How entry `e` is rendered: the host row shows the user and its fact,
/// a detail row its label and its fact, delimiters and swatches neither.
pub open spec fn request_for(e: Entry) -> Request {
    match e.kind {
        ActionType::HostInfo => Request { kind: ActionType::HostInfo, caption: Caption::User, fact: e.fact },
        ActionType::Delimiter => Request { kind: ActionType::Delimiter, caption: Caption::Empty, fact: None },
        ActionType::Details => Request {
            kind: ActionType::Details,
            caption: Caption::Text(e.label->0),
            fact: e.fact,
        },
        ActionType::Colors => Request { kind: ActionType::Colors, caption: Caption::Empty, fact: None },
    }
}

/// What art row `row` shows beside it under offset `off`, for registry
/// `reg`: nothing, or the entry that the offset maps to it.
pub open spec fn shown_at(row: int, off: int, reg: Seq<Entry>) -> Option<Request> {
    match slot_of(row, off, reg.len() as int) {
        Some(k) => Some(request_for(reg[k])),
        None => None,
    }
}

/// The fact column of a whole pass over a block of `lines` rows.
pub open spec fn plan_of(lines: int, reg: Seq<Entry>) -> Seq<Option<Request>> {
    Seq::new(lines as nat, |row: int| shown_at(row, offset_of(lines), reg))
}

pub open spec fn request_view<'a>(r: Option<RowRequest<'a>>) -> Option<Request> {
    match r {
        Some(q) => Some(q@),
        None => None,
    }
}

/// The models of a rendered column.
pub open spec fn requests<'a>(v: Seq<Option<RowRequest<'a>>>) -> Seq<Option<Request>> {
    v.map_values(|r: Option<RowRequest<'a>>| request_view(r))
}

/// Renders one entry.
pub fn dispatch<'a>(a: &Action<'a>) -> (r: RowRequest<'a>)
    ensures
        r@ == request_for(a@),
{
    match a.action_type() {
        ActionType::HostInfo => RowRequest { kind: ActionType::HostInfo, label: Label::User, fact: a.func() },
        ActionType::Delimiter => RowRequest { kind: ActionType::Delimiter, label: Label::Empty, fact: None },
        ActionType::Details => {
            let name = a.name();
            RowRequest { kind: ActionType::Details, label: Label::Text(name.unwrap()), fact: a.func() }
        },
        ActionType::Colors => RowRequest { kind: ActionType::Colors, label: Label::Empty, fact: None },
    }
}

/// The fact row beside art row `row` under offset `off`, if any.
pub fn row_request<'a>(row: usize, off: i64, registry: &Vec<Action<'a>>) -> (r: Option<RowRequest<'a>>)
    ensures
        request_view(r) == shown_at(row as int, off as int, entries(registry@)),
{
    match registry_index(row, off, registry.len()) {
        Some(k) => {
            let q = dispatch(&registry[k]);
            assert(entries(registry@)[k as int] == registry@[k as int]@);
            Some(q)
        },
        None => None,
    }
}

/// The fact column of one pass over `art`: one item per art line, top to
/// bottom.
pub fn render_plan<'a>(art: &ArtBlock, registry: &Vec<Action<'a>>) -> (r: Vec<Option<RowRequest<'a>>>)
    ensures
        r@.len() == art@.len(),
        requests(r@) == plan_of(art@.len() as int, entries(registry@)),
{
    let lines = art.lines();
    let off = offset(lines);
    let ghost want = plan_of(lines as int, entries(registry@));
    let mut out: Vec<Option<RowRequest<'a>>> = Vec::new();
    let mut row: usize = 0;
    while row < lines
        invariant
            row <= lines,
            off == offset_of(lines as int),
            want == plan_of(lines as int, entries(registry@)),
            out@.len() == row,
            forall|i: int| 0 <= i < row ==> #[trigger] request_view(out@[i]) == want[i],
        decreases lines - row,
    {
        let q = row_request(row, off, registry);
        out.push(q);
        row = row + 1;
    }
    assert(requests(out@) =~= want);
    out
}

/// The value shown for a fact: what its provider reported, or the sentinel
/// where it could not tell.
pub fn fact_value(reported: Option<String>) -> (r: String)
    ensures
        reported is Some ==> r@ == reported->0@,
        reported is None ==> r@ == SENTINEL@,
{
    match reported {
        Some(s) => s,
        None => SENTINEL.to_owned(),
    }
}

/// The pass depends on nothing but the art's height and the registry's
/// entries: art blocks of one height, and registries with the same entries,
/// give the same fact column.
pub proof fn lemma_pass_deterministic<'a, 'b>(
    a1: ArtBlock,
    a2: ArtBlock,
    reg1: Seq<Action<'a>>,
    reg2: Seq<Action<'b>>,
)
    requires
        a1@.len() == a2@.len(),
        entries(reg1) == entries(reg2),
    ensures
        plan_of(a1@.len() as int, entries(reg1)) == plan_of(a2@.len() as int, entries(reg2)),
{
}

/// Entry `k` of the registry stands on art row `k + offset` when that row
/// exists, and on no row otherwise.
pub proof fn lemma_entry_placement(lines: nat, reg: Seq<Entry>, k: int)
    requires
        0 <= k < reg.len(),
    ensures
        ({
            let off = offset_of(lines as int);
            let plan = plan_of(lines as int, reg);
            &&& 0 <= k + off < lines ==> plan[k + off] == Some(request_for(reg[k]))
            &&& forall|row: int|
                0 <= row < lines ==> (#[trigger] slot_of(row, off, reg.len() as int) == Some(k) <==> row == k + off)
        }),
{
}

/// The number of rows of `plan` that show an entry.
pub open spec fn filled(plan: Seq<Option<Request>>) -> nat
    decreases plan.len(),
{
    if plan.len() == 0 {
        0
    } else {
        filled(plan.drop_last()) + if plan.last() is Some { 1nat } else { 0nat }
    }
}

/// A pass over `lines` art rows shows exactly the entries whose rows fall
/// inside the block: from row `max(0, offset)` up to, not including, row
/// `min(lines, len + offset)`.
pub proof fn lemma_filled_rows(lines: nat, reg: Seq<Entry>)
    ensures
        ({
            let off = offset_of(lines as int);
            let lo = if off > 0 { off } else { 0 };
            let hi = if lines < reg.len() + off { lines as int } else { reg.len() + off };
            filled(plan_of(lines as int, reg)) == if hi > lo { hi - lo } else { 0 }
        }),
{
    let plan = plan_of(lines as int, reg);
    lemma_filled_prefix(plan, lines as int, reg, lines as int);
    assert(plan.take(lines as int) =~= plan);
}

proof fn lemma_filled_prefix(plan: Seq<Option<Request>>, lines: int, reg: Seq<Entry>, n: int)
    requires
        lines >= 0,
        plan == plan_of(lines, reg),
        0 <= n <= lines,
    ensures
        ({
            let off = offset_of(lines);
            let lo = if off > 0 { off } else { 0 };
            let hi = if lines < reg.len() + off { lines } else { reg.len() + off };
            let top = if n < hi { n } else { hi };
            filled(plan.take(n)) == if top > lo { top - lo } else { 0 }
        }),
    decreases n,
{
    if n > 0 {
        lemma_filled_prefix(plan, lines, reg, n - 1);
        assert(plan.take(n).drop_last() =~= plan.take(n - 1));
    } else {
        assert(plan.take(0) =~= Seq::<Option<Request>>::empty());
    }
}

} // verus!
