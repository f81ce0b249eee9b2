//! The result index, the context-menu index, the index builder and the
//! activation resolver.
//!
//! One build pass filters the container snapshot by lifecycle state,
//! assigns dense result ids starting at 1 (id 0 is reserved for notices),
//! derives each result's context menu from the lifecycle action table, and
//! returns the display payloads to emit.  Activations are resolved against
//! the current index only; a cleared index resolves nothing.

use vstd::prelude::*;

use crate::docker;
use crate::docker::{
    spec_actions, spec_filter_all, spec_filter_default, spec_filter_non_default, spec_state_name,
    Container, ContainerFilter, ContainerV, State,
};
use crate::text::str_eq;

verus! {

/// A per-query result identifier; id 0 is reserved for system notices.
pub type Indice = u32;

/// The display payload of one result, as appended to the launcher host.
pub struct PluginSearchResult {
    pub id: Indice,
    pub name: String,
    pub description: String,
    pub icon: Option<String>,
}

/// The mathematical value of a [`PluginSearchResult`].
#[verifier::ext_equal]
pub struct PluginSearchResultV {
    pub id: Indice,
    pub name: Seq<char>,
    pub description: Seq<char>,
    pub icon: Option<Seq<char>>,
}

impl View for PluginSearchResult {
    type V = PluginSearchResultV;

    open spec fn view(&self) -> PluginSearchResultV {
        PluginSearchResultV {
            id: self.id,
            name: self.name@,
            description: self.description@,
            icon: self.icon.deep_view(),
        }
    }
}

impl DeepView for PluginSearchResult {
    type V = PluginSearchResultV;

    open spec fn deep_view(&self) -> PluginSearchResultV {
        self.view()
    }
}

impl Clone for PluginSearchResult {
    /// A clone carries the same payload.
    fn clone(&self) -> (r: Self)
        ensures
            r@ == self@,
    {
        let icon = match &self.icon {
            Some(s) => Some(s.clone()),
            None => None,
        };
        PluginSearchResult {
            id: self.id,
            name: self.name.clone(),
            description: self.description.clone(),
            icon,
        }
    }
}

/// One entry of a context menu, as sent to the launcher host.
pub struct ContextOption {
    pub id: Indice,
    pub name: String,
}

/// The mathematical value of a [`ContextOption`].
#[verifier::ext_equal]
pub struct ContextOptionV {
    pub id: Indice,
    pub name: Seq<char>,
}

impl View for ContextOption {
    type V = ContextOptionV;

    open spec fn view(&self) -> ContextOptionV {
        ContextOptionV { id: self.id, name: self.name@ }
    }
}

impl DeepView for ContextOption {
    type V = ContextOptionV;

    open spec fn deep_view(&self) -> ContextOptionV {
        self.view()
    }
}

/// An outbound message payload for the launcher host.
pub enum PluginResponse {
    /// Append one display payload to the result list.
    Append(PluginSearchResult),
    /// Replace the caller's query text.
    Fill(String),
    /// The context menu of one result.
    Context { id: Indice, options: Vec<ContextOption> },
    /// The terminal message of one query's response sequence.
    Finished,
}

/// The mathematical value of a [`PluginResponse`].
#[verifier::ext_equal]
pub enum PluginResponseV {
    Append(PluginSearchResultV),
    Fill(Seq<char>),
    Context { id: Indice, options: Seq<ContextOptionV> },
    Finished,
}

impl View for PluginResponse {
    type V = PluginResponseV;

    open spec fn view(&self) -> PluginResponseV {
        match self {
            PluginResponse::Append(r) => PluginResponseV::Append(r@),
            PluginResponse::Fill(s) => PluginResponseV::Fill(s@),
            PluginResponse::Context { id, options } => PluginResponseV::Context {
                id: *id,
                options: options.deep_view(),
            },
            PluginResponse::Finished => PluginResponseV::Finished,
        }
    }
}

impl DeepView for PluginResponse {
    type V = PluginResponseV;

    open spec fn deep_view(&self) -> PluginResponseV {
        self.view()
    }
}

/// The primary action a result carries: what activating it does.
#[derive(Clone, Copy, Debug, PartialEq, Eq, Structural)]
pub enum Action {
    /// Replace the search text with the stored completion.
    Complete,
    /// Show the result's context menu.
    Context,
}

/// One entry of a result's context menu: a label and, when one is legal,
/// the container action it triggers.
pub struct WrappedContext {
    pub name: String,
    pub exec_action: Option<docker::Action>,
}

/// The mathematical value of a [`WrappedContext`].
#[verifier::ext_equal]
pub struct WrappedContextV {
    pub name: Seq<char>,
    pub exec_action: Option<docker::Action>,
}

impl View for WrappedContext {
    type V = WrappedContextV;

    open spec fn view(&self) -> WrappedContextV {
        WrappedContextV { name: self.name@, exec_action: self.exec_action }
    }
}

impl DeepView for WrappedContext {
    type V = WrappedContextV;

    open spec fn deep_view(&self) -> WrappedContextV {
        self.view()
    }
}

/// One indexed result: the display payload together with what activating
/// it or its context menu should do.
pub struct WrappedResult {
    /// The primary action, if the result carries one.
    pub action: Option<Action>,
    /// Completion text for [`Action::Complete`].
    pub complete: Option<String>,
    /// The container the result refers to.
    pub container_id: Option<String>,
    /// The context menu, dense from id 0, in action-table order.
    pub context_options: Option<Vec<WrappedContext>>,
    /// The display payload that was emitted for this result.
    pub result: PluginSearchResult,
}

/// The mathematical value of a [`WrappedResult`].
#[verifier::ext_equal]
pub struct WrappedResultV {
    pub action: Option<Action>,
    pub complete: Option<Seq<char>>,
    pub container_id: Option<Seq<char>>,
    pub context_options: Option<Seq<WrappedContextV>>,
    pub result: PluginSearchResultV,
}

impl View for WrappedResult {
    type V = WrappedResultV;

    open spec fn view(&self) -> WrappedResultV {
        WrappedResultV {
            action: self.action,
            complete: self.complete.deep_view(),
            container_id: self.container_id.deep_view(),
            context_options: self.context_options.deep_view(),
            result: self.result@,
        }
    }
}

impl DeepView for WrappedResult {
    type V = WrappedResultV;

    open spec fn deep_view(&self) -> WrappedResultV {
        self.view()
    }
}

/// The result index of the current query: entry `i` holds result id
/// `i + 1`; the notice slot holds result id 0.
pub struct ResultMap {
    /// The reserved id-0 result, written by the notice path.
    pub notice: Option<WrappedResult>,
    /// The per-container results, dense from id 1.
    pub entries: Vec<WrappedResult>,
}

/// The mathematical value of a [`ResultMap`].
#[verifier::ext_equal]
pub struct ResultMapV {
    pub notice: Option<WrappedResultV>,
    pub entries: Seq<WrappedResultV>,
}

impl View for ResultMap {
    type V = ResultMapV;

    open spec fn view(&self) -> ResultMapV {
        ResultMapV { notice: self.notice.deep_view(), entries: self.entries.deep_view() }
    }
}

/// What a result id resolves to in the index: id 0 is the notice slot,
/// id `i + 1` is entry `i`, anything else is absent.
pub open spec fn spec_get(m: ResultMapV, id: Indice) -> Option<WrappedResultV> {
    if id == 0 {
        m.notice
    } else if id <= m.entries.len() {
        Some(m.entries[id - 1])
    } else {
        None
    }
}

impl ResultMap {
    /// An empty index: no notice, no entries.
    pub fn new() -> (r: ResultMap)
        ensures
            r@.notice is None,
            r@.entries.len() == 0,
    {
        ResultMap { notice: None, entries: Vec::new() }
    }

    /// Look a result id up in the current index.
    pub fn get(&self, id: Indice) -> (r: Option<&WrappedResult>)
        ensures
            match r {
                Some(w) => spec_get(self@, id) == Some(w@),
                None => spec_get(self@, id) is None,
            },
    {
        if id == 0 {
            self.notice.as_ref()
        } else {
            let idx = (id - 1) as usize;
            if idx < self.entries.len() {
                Some(&self.entries[idx])
            } else {
                None
            }
        }
    }
}

/// The engine's state: the icon handed to each result, the container
/// snapshot, and the result index of the current query.
pub struct Plugin {
    /// Icon reference attached to every container result.
    pub icon: String,
    /// The entity snapshot store, replaced wholesale on refresh.
    pub containers: Vec<Container>,
    /// The result index of the current query.
    pub results: ResultMap,
}

/// The mathematical value of a [`Plugin`].
#[verifier::ext_equal]
pub struct PluginV {
    pub icon: Seq<char>,
    pub containers: Seq<ContainerV>,
    pub results: ResultMapV,
}

impl View for Plugin {
    type V = PluginV;

    open spec fn view(&self) -> PluginV {
        PluginV {
            icon: self.icon@,
            containers: self.containers.deep_view(),
            results: self.results@,
        }
    }
}

impl Plugin {
    /// Result ids are sound: the notice slot holds id 0 and entry `i`
    /// holds id `i + 1`.
    pub open spec fn wf(&self) -> bool {
        &&& self@.results.notice matches Some(w) ==> w.result.id == 0
        &&& self@.results.entries.len() <= u32::MAX
        &&& forall|i: int|
            0 <= i < self@.results.entries.len() ==> (#[trigger] self@.results.entries[i]).result.id
                == i + 1
    }

    /// A fresh engine with the given result icon, an empty snapshot and an
    /// empty result index.
    pub fn new(icon: String) -> (r: Plugin)
        ensures
            r@.icon == icon@,
            r@.containers.len() == 0,
            r@.results.notice is None,
            r@.results.entries.len() == 0,
            r.wf(),
    {
        Plugin { icon, containers: Vec::new(), results: ResultMap::new() }
    }
}

/// The short form of a container identity shown in descriptions: its
/// first 12 characters, or all of it when shorter.
pub open spec fn spec_short_id(id: Seq<char>) -> Seq<char> {
    if id.len() <= 12 {
        id
    } else {
        id.take(12)
    }
}

/// The description line of a container result: state, image, short id.
pub open spec fn spec_description(c: ContainerV) -> Seq<char> {
    spec_state_name(c.state) + ", image: "@ + c.image + ", id: "@ + spec_short_id(c.id)
}

/// The context-menu entry for one action: its display label and the
/// action itself.
pub open spec fn spec_wrap_action(a: docker::Action) -> WrappedContextV {
    WrappedContextV { name: docker::spec_label(a), exec_action: Some(a) }
}

/// The context-menu entries for an action list, one per action, in order.
pub open spec fn spec_wrap_actions(l: Seq<docker::Action>) -> Seq<WrappedContextV> {
    Seq::new(l.len(), |i: int| spec_wrap_action(l[i]))
}

/// The context menu derived from a lifecycle state: one entry per legal
/// action, in table order, labelled with the action's display name; no
/// menu at all when no action is legal.
pub open spec fn spec_context_options(s: State) -> Option<Seq<WrappedContextV>> {
    match spec_actions(s) {
        None => None,
        Some(l) => Some(spec_wrap_actions(l)),
    }
}

/// The wrapped result built for one surviving container under result id
/// `id`: a show-context result bound to the container's identity when its
/// state legalises actions; a result with no primary action at all when
/// none is legal (the result is still shown, but activating it is a
/// no-op, not an error).
pub open spec fn spec_wrap(c: ContainerV, id: Indice, icon: Seq<char>) -> WrappedResultV {
    WrappedResultV {
        action: if spec_actions(c.state) is None {
            None
        } else {
            Some(Action::Context)
        },
        complete: None,
        container_id: Some(c.id),
        context_options: spec_context_options(c.state),
        result: PluginSearchResultV {
            id,
            name: c.name,
            description: spec_description(c),
            icon: Some(icon),
        },
    }
}

/// The containers of a snapshot that survive a state filter, in snapshot
/// order.
pub open spec fn spec_filtered(cs: Seq<ContainerV>, filter: Seq<State>) -> Seq<ContainerV>
    decreases cs.len(),
{
    if cs.len() == 0 {
        Seq::empty()
    } else {
        let rest = spec_filtered(cs.drop_last(), filter);
        if filter.contains(cs.last().state) {
            rest.push(cs.last())
        } else {
            rest
        }
    }
}

/// The result entries of one build pass: the surviving containers wrapped
/// under dense result ids starting at 1.
pub open spec fn spec_build(cs: Seq<ContainerV>, filter: Seq<State>, icon: Seq<char>) -> Seq<
    WrappedResultV,
>
    decreases cs.len(),
{
    if cs.len() == 0 {
        Seq::empty()
    } else {
        let rest = spec_build(cs.drop_last(), filter, icon);
        if filter.contains(cs.last().state) {
            rest.push(spec_wrap(cs.last(), (rest.len() + 1) as Indice, icon))
        } else {
            rest
        }
    }
}

/// The append messages emitted for a sequence of built results.
pub open spec fn spec_appends(ws: Seq<WrappedResultV>) -> Seq<PluginResponseV> {
    ws.map_values(|w: WrappedResultV| PluginResponseV::Append(w.result))
}

/// A build never yields more results than the snapshot holds containers.
pub proof fn lemma_build_len(cs: Seq<ContainerV>, filter: Seq<State>, icon: Seq<char>)
    ensures
        spec_build(cs, filter, icon).len() <= cs.len(),
        spec_build(cs, filter, icon).len() == spec_filtered(cs, filter).len(),
    decreases cs.len(),
{
    if cs.len() > 0 {
        lemma_build_len(cs.drop_last(), filter, icon);
    }
}

/// Each built entry wraps the matching surviving container, in order,
/// under the next dense id.
pub proof fn lemma_build_matches_filtered(cs: Seq<ContainerV>, filter: Seq<State>, icon: Seq<char>)
    requires
        cs.len() <= u32::MAX,
    ensures
        spec_build(cs, filter, icon).len() == spec_filtered(cs, filter).len(),
        forall|j: int|
            0 <= j < spec_build(cs, filter, icon).len() ==> #[trigger] spec_build(
                cs,
                filter,
                icon,
            )[j] == spec_wrap(spec_filtered(cs, filter)[j], (j + 1) as Indice, icon),
    decreases cs.len(),
{
    lemma_build_len(cs, filter, icon);
    if cs.len() > 0 {
        lemma_build_matches_filtered(cs.drop_last(), filter, icon);
        lemma_build_len(cs.drop_last(), filter, icon);
    }
}

/// Result ids of one build are a contiguous range starting at 1, with no
/// duplicates and no gaps; id 0 is never assigned to a container result.
pub proof fn lemma_build_ids_contiguous(cs: Seq<ContainerV>, filter: Seq<State>, icon: Seq<char>)
    requires
        cs.len() <= u32::MAX,
    ensures
        forall|j: int|
            0 <= j < spec_build(cs, filter, icon).len() ==> (#[trigger] spec_build(
                cs,
                filter,
                icon,
            )[j]).result.id == j + 1,
        forall|j: int|
            0 <= j < spec_build(cs, filter, icon).len() ==> (#[trigger] spec_build(
                cs,
                filter,
                icon,
            )[j]).result.id != 0,
    decreases cs.len(),
{
    lemma_build_len(cs, filter, icon);
    if cs.len() > 0 {
        lemma_build_ids_contiguous(cs.drop_last(), filter, icon);
        lemma_build_len(cs.drop_last(), filter, icon);
    }
}

/// Every built result's context menu reproduces the lifecycle table:
/// when the table legalises actions, the result's primary action is to
/// show the menu, whose ids are exactly `0 .. n-1` in table order,
/// labelled with the actions' display names; when it legalises none, the
/// result carries no primary action and no menu.  In particular, every
/// built result whose primary action shows a context menu has one, and it
/// is never empty.
pub proof fn lemma_context_menu_exact(c: ContainerV, id: Indice, icon: Seq<char>)
    ensures
        spec_wrap(c, id, icon).action == Some(Action::Context) <==> spec_actions(c.state) is Some,
        spec_wrap(c, id, icon).action is None <==> spec_actions(c.state) is None,
        spec_wrap(c, id, icon).action == Some(Action::Context) ==> (spec_wrap(
            c,
            id,
            icon,
        ).context_options matches Some(opts) && opts.len() >= 1),
        spec_wrap(c, id, icon).context_options is None <==> spec_actions(c.state) is None,
        spec_wrap(c, id, icon).context_options matches Some(opts) ==> {
            let l = spec_actions(c.state)->Some_0;
            &&& opts.len() == l.len()
            &&& opts.len() >= 1
            &&& forall|k: int|
                0 <= k < l.len() ==> (#[trigger] opts[k]).name == docker::spec_label(l[k])
                    && opts[k].exec_action == Some(l[k])
        },
{
    docker::lemma_actions_nonempty(c.state);
}

/// Whether a state stands in a filter.
fn state_in(filter: &ContainerFilter, s: State) -> (r: bool)
    ensures
        r == filter@.contains(s),
{
    let n = filter.len();
    let mut i: usize = 0;
    while i < n
        invariant
            n == filter@.len(),
            i <= n,
            forall|j: int| 0 <= j < i ==> filter@[j] != s,
        decreases n - i,
    {
        if filter[i] == s {
            return true;
        }
        i = i + 1;
    }
    false
}

impl Plugin {
    /// The description line shown under a container result: its state,
    /// its image, and the short form of its identity.
    pub fn description(&self, container: &Container) -> (r: String)
        ensures
            r@ == spec_description(container@),
    {
        let mut s = String::from_str(container.state.name());
        s.append(", image: ");
        s.append(container.image.as_str());
        s.append(", id: ");
        let id = container.id.as_str();
        let id_len = id.unicode_len();
        let cut = if id_len <= 12 {
            id_len
        } else {
            12
        };
        let short = id.substring_char(0, cut);
        s.append(short);
        proof {
            assert(short@ =~= spec_short_id(container@.id));
        }
        s
    }

    /// One build pass: filter the snapshot, assign dense result ids from
    /// 1, derive each survivor's context menu, and install this build's
    /// entries as the index, wholesale — the index is rebuilt on each
    /// query, so the previous build's entries are dropped, not merged.
    /// The id-0 notice slot is not touched: notices are written by the
    /// notice path and cleared, with everything else, by the interrupt.
    /// Returns the last assigned id — `None` when nothing survived — and
    /// the append messages to emit, one per survivor, in index order.
    pub fn view_containers(&mut self, filter: &ContainerFilter) -> (r: (
        Option<Indice>,
        Vec<PluginResponse>,
    ))
        requires
            old(self).wf(),
            old(self)@.containers.len() <= u32::MAX,
        ensures
            final(self).wf(),
            final(self)@.icon == old(self)@.icon,
            final(self)@.containers == old(self)@.containers,
            final(self)@.results.notice == old(self)@.results.notice,
            final(self)@.results.entries == spec_build(
                old(self)@.containers,
                filter@,
                old(self)@.icon,
            ),
            r.1.deep_view() == spec_appends(
                spec_build(old(self)@.containers, filter@, old(self)@.icon),
            ),
            r.0 == (if spec_build(old(self)@.containers, filter@, old(self)@.icon).len() == 0 {
                Option::<Indice>::None
            } else {
                Some(spec_build(old(self)@.containers, filter@, old(self)@.icon).len() as Indice)
            }),
    {
        let ghost cs = self@.containers;
        let mut entries: Vec<WrappedResult> = Vec::new();
        let mut out: Vec<PluginResponse> = Vec::new();
        let n = self.containers.len();
        let mut i: usize = 0;
        while i < n
            invariant
                n == self.containers@.len(),
                n <= u32::MAX,
                i <= n,
                cs == self.containers.deep_view(),
                entries@.len() == spec_build(cs.take(i as int), filter@, self.icon@).len(),
                out@.len() == entries@.len(),
                entries.deep_view() == spec_build(cs.take(i as int), filter@, self.icon@),
                out.deep_view() == spec_appends(entries.deep_view()),
            decreases n - i,
        {
            proof {
                assert(cs.take(i + 1).drop_last() =~= cs.take(i as int));
                assert(cs.take(i + 1).last() == cs[i as int]);
                lemma_build_len(cs.take(i as int), filter@, self.icon@);
            }
            let container = &self.containers[i];
            if state_in(filter, container.state) {
                let id = (entries.len() + 1) as Indice;
                let result = PluginSearchResult {
                    id,
                    name: container.name.clone(),
                    description: self.description(container),
                    icon: Some(self.icon.clone()),
                };
                let (action, context_options): (Option<Action>, Option<Vec<WrappedContext>>) =
                    match container.state.actions() {
                    None => (None, None),
                    Some(actions) => {
                        proof {
                            assert(actions.deep_view() =~= actions@);
                        }
                        (Some(Action::Context), Some(wrap_actions(&actions)))
                    },
                };
                let wrapped = WrappedResult {
                    action,
                    complete: None,
                    container_id: Some(container.id.clone()),
                    context_options,
                    result: result.clone(),
                };
                proof {
                    assert(wrapped@ =~~= spec_wrap(cs[i as int], id, self.icon@));
                }
                let ghost pre_entries = entries.deep_view();
                let ghost pre_out = out.deep_view();
                let ghost rv = result@;
                let ghost wv = spec_wrap(cs[i as int], id, self.icon@);
                entries.push(wrapped);
                out.push(PluginResponse::Append(result));
                proof {
                    assert(entries.deep_view() =~~= pre_entries.push(wv));
                    assert(entries.deep_view() =~~= spec_build(
                        cs.take(i + 1),
                        filter@,
                        self.icon@,
                    ));
                    assert(out.deep_view() =~~= pre_out.push(PluginResponseV::Append(rv)));
                    assert(rv =~~= wv.result);
                    assert(out.deep_view() =~~= spec_appends(entries.deep_view()));
                }
            } else {
                proof {
                    assert(entries.deep_view() =~~= spec_build(cs.take(i + 1), filter@, self.icon@));
                }
            }
            i = i + 1;
        }
        proof {
            assert(cs.take(n as int) =~= cs);
            lemma_build_len(cs, filter@, self.icon@);
            lemma_build_ids_contiguous(cs, filter@, self.icon@);
        }
        let count = entries.len();
        self.results.entries = entries;
        if count == 0 {
            (None, out)
        } else {
            (Some(count as Indice), out)
        }
    }
}

/// Build the context-menu entries for an action list, one per action, in
/// order, labelled with each action's display name.
fn wrap_actions(actions: &Vec<docker::Action>) -> (r: Vec<WrappedContext>)
    ensures
        r.deep_view() == spec_wrap_actions(actions@),
{
    let mut opts: Vec<WrappedContext> = Vec::new();
    let n = actions.len();
    let mut k: usize = 0;
    while k < n
        invariant
            n == actions@.len(),
            k <= n,
            opts@.len() == k,
            opts.deep_view() == spec_wrap_actions(actions@).take(k as int),
        decreases n - k,
    {
        let action = actions[k];
        let label = action.label();
        let entry = WrappedContext { name: String::from_str(label), exec_action: Some(action) };
        proof {
            assert(entry@ =~~= spec_wrap_action(actions@[k as int]));
        }
        let ghost ev = entry@;
        let ghost pre = opts.deep_view();
        opts.push(entry);
        proof {
            assert(opts.deep_view().len() == k + 1);
            assert(opts.deep_view()[k as int] == ev);
            assert forall|i: int| 0 <= i < k implies opts.deep_view()[i] == pre[i] by {}
            assert(opts.deep_view() =~= spec_wrap_actions(actions@).take(k + 1));
        }
        k = k + 1;
    }
    proof {
        assert(spec_wrap_actions(actions@).take(n as int) =~= spec_wrap_actions(actions@));
    }
    opts
}

/// The payload of the "no active containers" notice, under result id 0.
pub open spec fn spec_no_active_result() -> PluginSearchResultV {
    PluginSearchResultV {
        id: 0,
        name: "No active containers"@,
        description: "Would you like to start a recent one?"@,
        icon: Some("dialog-error"@),
    }
}

/// The payload of the "no visible containers" notice, under result id 0.
pub open spec fn spec_no_visible_result() -> PluginSearchResultV {
    PluginSearchResultV {
        id: 0,
        name: "No visible containers"@,
        description: "Would you like to see all containers?"@,
        icon: Some("dialog-error"@),
    }
}

/// A notice wrapped for the index: activating it completes the query to
/// the list-all command.
pub open spec fn spec_notice_wrapped(r: PluginSearchResultV) -> WrappedResultV {
    WrappedResultV {
        action: Some(Action::Complete),
        complete: Some("dla"@),
        container_id: None,
        context_options: None,
        result: r,
    }
}

/// The notice a filtered listing leaves in the index: "no active" when
/// nothing survived the filter or nothing is known at all, "no visible"
/// when some known containers were filtered away, none otherwise.
pub open spec fn spec_notice_of(viewed: int, total: int) -> Option<WrappedResultV> {
    if viewed == 0 || total == 0 {
        Some(spec_notice_wrapped(spec_no_active_result()))
    } else if viewed < total {
        Some(spec_notice_wrapped(spec_no_visible_result()))
    } else {
        None
    }
}

/// The notice an unfiltered listing leaves: "no active" only when the
/// store is empty.
pub open spec fn spec_all_notice(viewed: int) -> Option<WrappedResultV> {
    if viewed == 0 {
        Some(spec_notice_wrapped(spec_no_active_result()))
    } else {
        None
    }
}

/// The result index after a filtered listing: the built entries, plus the
/// notice the policy calls for; where none is due, the notice slot keeps
/// what it held (the listing clears nothing — clearing is the
/// interrupt's).
pub open spec fn spec_list_results(p: PluginV, f: Seq<State>) -> ResultMapV {
    let built = spec_build(p.containers, f, p.icon);
    ResultMapV {
        entries: built,
        notice: match spec_notice_of(built.len() as int, p.containers.len() as int) {
            Some(w) => Some(w),
            None => p.results.notice,
        },
    }
}

/// The messages a filtered listing emits: one append per built result,
/// then the notice's append, if one is due.
pub open spec fn spec_list_responses(p: PluginV, f: Seq<State>) -> Seq<PluginResponseV> {
    let built = spec_build(p.containers, f, p.icon);
    spec_appends(built) + (match spec_notice_of(built.len() as int, p.containers.len() as int) {
        Some(w) => seq![PluginResponseV::Append(w.result)],
        None => Seq::<PluginResponseV>::empty(),
    })
}

/// The result index after an unfiltered listing: a notice only when the
/// store is empty; otherwise the notice slot keeps what it held.
pub open spec fn spec_list_all_results(p: PluginV) -> ResultMapV {
    let built = spec_build(p.containers, spec_filter_all(), p.icon);
    ResultMapV {
        entries: built,
        notice: match spec_all_notice(built.len() as int) {
            Some(w) => Some(w),
            None => p.results.notice,
        },
    }
}

/// The messages an unfiltered listing emits.
pub open spec fn spec_list_all_responses(p: PluginV) -> Seq<PluginResponseV> {
    let built = spec_build(p.containers, spec_filter_all(), p.icon);
    spec_appends(built) + (match spec_all_notice(built.len() as int) {
        Some(w) => seq![PluginResponseV::Append(w.result)],
        None => Seq::<PluginResponseV>::empty(),
    })
}

/// The single-token commands that list with the default filter.
pub open spec fn spec_is_list_cmd(q: Seq<char>) -> bool {
    q == "dl"@ || q == "cl"@ || q == "dps"@ || q == "cps"@
}

/// The single-token commands that list every state.
pub open spec fn spec_is_all_cmd(q: Seq<char>) -> bool {
    q == "dla"@ || q == "cla"@
}

/// The commands the single-token path accepts.
pub open spec fn spec_known_cmd(q: Seq<char>) -> bool {
    spec_is_list_cmd(q) || spec_is_all_cmd(q)
}

/// Whether a query takes the single-command path: it has no space, or
/// nothing follows its first space.
pub open spec fn spec_single_query(q: Seq<char>) -> bool {
    match crate::text::spec_first_space(q) {
        None => true,
        Some(i) => i == q.len() - 1,
    }
}

/// The result index a query leaves behind, by dispatch path: a known
/// listing command builds with the default filter and falls back to the
/// notice policy; a list-all command builds with the all filter; a query
/// with a non-empty second token builds with the non-default filter.
pub open spec fn spec_query_results(p: PluginV, q: Seq<char>) -> ResultMapV {
    if spec_single_query(q) {
        if spec_is_list_cmd(q) {
            spec_list_results(p, spec_filter_default())
        } else {
            spec_list_all_results(p)
        }
    } else {
        spec_list_results(p, spec_filter_non_default())
    }
}

/// The messages a query emits, without the terminal finished message.
pub open spec fn spec_query_responses(p: PluginV, q: Seq<char>) -> Seq<PluginResponseV> {
    if spec_single_query(q) {
        if spec_is_list_cmd(q) {
            spec_list_responses(p, spec_filter_default())
        } else {
            spec_list_all_responses(p)
        }
    } else {
        spec_list_responses(p, spec_filter_non_default())
    }
}

impl Plugin {
    /// Put the "no active containers" notice under result id 0 and hand
    /// back its append message; the built entries stay as they are.
    pub fn no_active_notice(&mut self) -> (r: PluginResponse)
        ensures
            final(self)@.icon == old(self)@.icon,
            final(self)@.containers == old(self)@.containers,
            final(self)@.results.entries == old(self)@.results.entries,
            final(self)@.results.notice == Some(spec_notice_wrapped(spec_no_active_result())),
            r@ == PluginResponseV::Append(spec_no_active_result()),
    {
        let result = PluginSearchResult {
            id: 0,
            name: String::from_str("No active containers"),
            description: String::from_str("Would you like to start a recent one?"),
            icon: Some(String::from_str("dialog-error")),
        };
        let wrapped = WrappedResult {
            action: Some(Action::Complete),
            complete: Some(String::from_str("dla")),
            container_id: None,
            context_options: None,
            result: result.clone(),
        };
        proof {
            assert(result@ =~~= spec_no_active_result());
            assert(wrapped@ =~~= spec_notice_wrapped(spec_no_active_result()));
        }
        self.results.notice = Some(wrapped);
        PluginResponse::Append(result)
    }

    /// Put the "no visible containers" notice under result id 0 and hand
    /// back its append message; the built entries stay as they are.
    pub fn no_visible_notice(&mut self) -> (r: PluginResponse)
        ensures
            final(self)@.icon == old(self)@.icon,
            final(self)@.containers == old(self)@.containers,
            final(self)@.results.entries == old(self)@.results.entries,
            final(self)@.results.notice == Some(spec_notice_wrapped(spec_no_visible_result())),
            r@ == PluginResponseV::Append(spec_no_visible_result()),
    {
        let result = PluginSearchResult {
            id: 0,
            name: String::from_str("No visible containers"),
            description: String::from_str("Would you like to see all containers?"),
            icon: Some(String::from_str("dialog-error")),
        };
        let wrapped = WrappedResult {
            action: Some(Action::Complete),
            complete: Some(String::from_str("dla")),
            container_id: None,
            context_options: None,
            result: result.clone(),
        };
        proof {
            assert(result@ =~~= spec_no_visible_result());
            assert(wrapped@ =~~= spec_notice_wrapped(spec_no_visible_result()));
        }
        self.results.notice = Some(wrapped);
        PluginResponse::Append(result)
    }

    /// List with the default filter, then apply the notice policy: "no
    /// active" when nothing survived, "no visible" when the filter hid
    /// some of the known containers.
    pub fn list(&mut self) -> (out: Vec<PluginResponse>)
        requires
            old(self).wf(),
            old(self)@.containers.len() <= u32::MAX,
        ensures
            final(self).wf(),
            final(self)@.icon == old(self)@.icon,
            final(self)@.containers == old(self)@.containers,
            final(self)@.results == spec_list_results(old(self)@, spec_filter_default()),
            out.deep_view() == spec_list_responses(old(self)@, spec_filter_default()),
    {
        let filter = crate::docker::filter_default();
        self.listing(&filter)
    }

    /// List with the given filter and apply the filtered-listing notice
    /// policy.
    fn listing(&mut self, filter: &ContainerFilter) -> (out: Vec<PluginResponse>)
        requires
            old(self).wf(),
            old(self)@.containers.len() <= u32::MAX,
        ensures
            final(self).wf(),
            final(self)@.icon == old(self)@.icon,
            final(self)@.containers == old(self)@.containers,
            final(self)@.results == spec_list_results(old(self)@, filter@),
            out.deep_view() == spec_list_responses(old(self)@, filter@),
    {
        let ghost p = self@;
        let (count, mut out) = self.view_containers(filter);
        let ghost built = spec_build(p.containers, filter@, p.icon);
        match count {
            None => {
                let msg = self.no_active_notice();
                let ghost pre = out.deep_view();
                out.push(msg);
                proof {
                    assert(out.deep_view() =~= pre.push(
                        PluginResponseV::Append(spec_no_active_result()),
                    ));
                    assert(out.deep_view() =~= spec_list_responses(p, filter@));
                    assert(self@.results =~~= spec_list_results(p, filter@));
                }
            },
            Some(viewed) => {
                let total = self.containers.len() as Indice;
                proof {
                    lemma_build_len(p.containers, filter@, p.icon);
                }
                if total == 0 {
                    let msg = self.no_active_notice();
                    let ghost pre = out.deep_view();
                    out.push(msg);
                    proof {
                        assert(out.deep_view() =~= pre.push(
                            PluginResponseV::Append(spec_no_active_result()),
                        ));
                        assert(out.deep_view() =~= spec_list_responses(p, filter@));
                        assert(self@.results =~~= spec_list_results(p, filter@));
                    }
                } else if viewed < total {
                    let msg = self.no_visible_notice();
                    let ghost pre = out.deep_view();
                    out.push(msg);
                    proof {
                        assert(out.deep_view() =~= pre.push(
                            PluginResponseV::Append(spec_no_visible_result()),
                        ));
                        assert(out.deep_view() =~= spec_list_responses(p, filter@));
                        assert(self@.results =~~= spec_list_results(p, filter@));
                    }
                } else {
                    proof {
                        assert(out.deep_view() =~= spec_list_responses(p, filter@));
                        assert(self@.results =~~= spec_list_results(p, filter@));
                    }
                }
            },
        }
        out
    }

    /// List every state; only an empty store leaves a notice.
    pub fn list_all(&mut self) -> (out: Vec<PluginResponse>)
        requires
            old(self).wf(),
            old(self)@.containers.len() <= u32::MAX,
        ensures
            final(self).wf(),
            final(self)@.icon == old(self)@.icon,
            final(self)@.containers == old(self)@.containers,
            final(self)@.results == spec_list_all_results(old(self)@),
            out.deep_view() == spec_list_all_responses(old(self)@),
    {
        let ghost p = self@;
        let filter = crate::docker::filter_all();
        let (count, mut out) = self.view_containers(&filter);
        match count {
            None => {
                let msg = self.no_active_notice();
                let ghost pre = out.deep_view();
                out.push(msg);
                proof {
                    assert(out.deep_view() =~= pre.push(
                        PluginResponseV::Append(spec_no_active_result()),
                    ));
                    assert(out.deep_view() =~= spec_list_all_responses(p));
                    assert(self@.results =~~= spec_list_all_results(p));
                }
            },
            Some(_) => {
                proof {
                    assert(out.deep_view() =~= spec_list_all_responses(p));
                    assert(self@.results =~~= spec_list_all_results(p));
                }
            },
        }
        out
    }

    /// The multi-token query path: list the states the default view
    /// leaves out, with the same notice policy as the default listing.
    pub fn handle_query(&mut self, _query: &str) -> (out: Vec<PluginResponse>)
        requires
            old(self).wf(),
            old(self)@.containers.len() <= u32::MAX,
        ensures
            final(self).wf(),
            final(self)@.icon == old(self)@.icon,
            final(self)@.containers == old(self)@.containers,
            final(self)@.results == spec_list_results(old(self)@, spec_filter_non_default()),
            out.deep_view() == spec_list_responses(old(self)@, spec_filter_non_default()),
    {
        let filter = crate::docker::filter_non_default();
        self.listing(&filter)
    }

    /// The single-token command path: the listing commands build with the
    /// default filter, the list-all commands with every state.
    pub fn handle_single_cmd(&mut self, command: &str) -> (out: Vec<PluginResponse>)
        requires
            old(self).wf(),
            old(self)@.containers.len() <= u32::MAX,
            spec_known_cmd(command@),
        ensures
            final(self).wf(),
            final(self)@.icon == old(self)@.icon,
            final(self)@.containers == old(self)@.containers,
            spec_is_list_cmd(command@) ==> final(self)@.results == spec_list_results(
                old(self)@,
                spec_filter_default(),
            ) && out.deep_view() == spec_list_responses(old(self)@, spec_filter_default()),
            !spec_is_list_cmd(command@) ==> final(self)@.results == spec_list_all_results(
                old(self)@,
            ) && out.deep_view() == spec_list_all_responses(old(self)@),
    {
        if str_eq(command, "dl") || str_eq(command, "cl") || str_eq(command, "dps") || str_eq(
            command,
            "cps",
        ) {
            self.list()
        } else {
            self.list_all()
        }
    }

    /// Handle one query: dispatch on its shape, then close the response
    /// sequence with the finished message.
    pub fn search(&mut self, query: &str) -> (out: Vec<PluginResponse>)
        requires
            old(self).wf(),
            old(self)@.containers.len() <= u32::MAX,
            spec_single_query(query@) ==> spec_known_cmd(query@),
        ensures
            final(self).wf(),
            final(self)@.icon == old(self)@.icon,
            final(self)@.containers == old(self)@.containers,
            final(self)@.results == spec_query_results(old(self)@, query@),
            out.deep_view() == spec_query_responses(old(self)@, query@).push(
                PluginResponseV::Finished,
            ),
    {
        let ghost p = self@;
        let single = match crate::text::find_space(query) {
            None => true,
            Some(i) => {
                let qlen = query.unicode_len();
                i + 1 == qlen
            },
        };
        let mut out = if single {
            self.handle_single_cmd(query)
        } else {
            self.handle_query(query)
        };
        let ghost pre = out.deep_view();
        out.push(PluginResponse::Finished);
        proof {
            assert(out.deep_view() =~= pre.push(PluginResponseV::Finished));
        }
        out
    }

    /// The plugin's name, as the launcher host knows it.
    pub fn name(&self) -> (r: &'static str)
        ensures
            r@ == "docker"@,
    {
        "docker"
    }

    /// Cancel the current query's results: clear the whole result index,
    /// so that no activation can resolve against a superseded query.
    pub fn interrupt(&mut self)
        ensures
            final(self).wf(),
            final(self)@.icon == old(self)@.icon,
            final(self)@.containers == old(self)@.containers,
            final(self)@.results.entries.len() == 0,
            final(self)@.results.notice is None,
    {
        self.results = ResultMap::new();
    }
}

impl Default for Plugin {
    /// A fresh engine with the default icon name.
    fn default() -> (r: Plugin)
        ensures
            r@.icon == "docker-icon.png"@,
            r@.containers.len() == 0,
            r@.results.notice is None,
            r@.results.entries.len() == 0,
            r.wf(),
    {
        Plugin::new(String::from_str("docker-icon.png"))
    }
}

/// How one activation request ends.  The not-found and defect variants
/// are reported lookup failures with no side effect; the "no" variants
/// are explicit no-op conditions, not errors; the remaining two carry the
/// message to send or the operation to run.
pub enum Outcome {
    /// The result id is absent from the current index: reported, no side
    /// effect.
    NotFound,
    /// The result carries no primary action: a no-op, not an error.
    NoAction,
    /// The result stores no completion text: a no-op, not an error.
    NoCompletion,
    /// The result has no context menu: reported, no side effect.
    NoContext,
    /// The context id is absent from the result's menu: reported, no side
    /// effect.
    NoContextEntry,
    /// The result names no container, which a context activation needs: a
    /// defect, reported, no side effect.
    MissingContainerId,
    /// The menu entry carries no executable action: a no-op, not an error.
    NoContextAction,
    /// Send this message to the launcher host.
    Respond(PluginResponse),
    /// Run this action against this container.
    Invoke { container_id: String, action: docker::Action },
}

/// The mathematical value of an [`Outcome`].
#[verifier::ext_equal]
pub enum OutcomeV {
    NotFound,
    NoAction,
    NoCompletion,
    NoContext,
    NoContextEntry,
    MissingContainerId,
    NoContextAction,
    Respond(PluginResponseV),
    Invoke { container_id: Seq<char>, action: docker::Action },
}

impl View for Outcome {
    type V = OutcomeV;

    open spec fn view(&self) -> OutcomeV {
        match self {
            Outcome::NotFound => OutcomeV::NotFound,
            Outcome::NoAction => OutcomeV::NoAction,
            Outcome::NoCompletion => OutcomeV::NoCompletion,
            Outcome::NoContext => OutcomeV::NoContext,
            Outcome::NoContextEntry => OutcomeV::NoContextEntry,
            Outcome::MissingContainerId => OutcomeV::MissingContainerId,
            Outcome::NoContextAction => OutcomeV::NoContextAction,
            Outcome::Respond(m) => OutcomeV::Respond(m@),
            Outcome::Invoke { container_id, action } => OutcomeV::Invoke {
                container_id: container_id@,
                action: *action,
            },
        }
    }
}

/// The context-menu payload for a result: one `(context id, label)` pair
/// per entry, ids dense from 0 in menu order.
pub open spec fn spec_context_list(opts: Seq<WrappedContextV>) -> Seq<ContextOptionV> {
    Seq::new(opts.len(), |k: int| ContextOptionV { id: k as Indice, name: opts[k].name })
}

/// The context message sent for a result and its menu.
pub open spec fn spec_context_response(id: Indice, opts: Seq<WrappedContextV>) -> PluginResponseV {
    PluginResponseV::Context { id, options: spec_context_list(opts) }
}

/// How a completion request ends: the stored completion text when there
/// is one, otherwise the reason there is nothing to fill.
pub open spec fn spec_complete(m: ResultMapV, id: Indice) -> OutcomeV {
    match spec_get(m, id) {
        None => OutcomeV::NotFound,
        Some(w) => match w.complete {
            None => OutcomeV::NoCompletion,
            Some(s) => OutcomeV::Respond(PluginResponseV::Fill(s)),
        },
    }
}

/// How a context request ends: the result's context menu when it has one.
pub open spec fn spec_context(m: ResultMapV, id: Indice) -> OutcomeV {
    match spec_get(m, id) {
        None => OutcomeV::NotFound,
        Some(w) => match w.context_options {
            None => OutcomeV::NoContext,
            Some(opts) => OutcomeV::Respond(spec_context_response(id, opts)),
        },
    }
}

/// How a primary activation ends: by the result's declared action, either
/// the stored completion or the context menu.
pub open spec fn spec_activate(m: ResultMapV, id: Indice) -> OutcomeV {
    match spec_get(m, id) {
        None => OutcomeV::NotFound,
        Some(w) => match w.action {
            None => OutcomeV::NoAction,
            Some(Action::Complete) => spec_complete(m, id),
            Some(Action::Context) => match w.context_options {
                None => OutcomeV::NoContext,
                Some(opts) => OutcomeV::Respond(spec_context_response(id, opts)),
            },
        },
    }
}

/// How a context sub-activation ends: the checks run in order — result
/// looked up, container identity present, menu present, entry present,
/// action present — and the first failure is reported; success names the
/// operation to run.
pub open spec fn spec_activate_context(m: ResultMapV, result_id: Indice, context_id: Indice) -> OutcomeV {
    match spec_get(m, result_id) {
        None => OutcomeV::NotFound,
        Some(w) => if w.container_id is None {
            OutcomeV::MissingContainerId
        } else {
            match w.context_options {
                None => OutcomeV::NoContext,
                Some(opts) => if context_id >= opts.len() {
                    OutcomeV::NoContextEntry
                } else {
                    match opts[context_id as int].exec_action {
                        None => OutcomeV::NoContextAction,
                        Some(a) => OutcomeV::Invoke { container_id: w.container_id->Some_0, action: a },
                    }
                },
            }
        },
    }
}

impl Plugin {
    /// The context message for a result id and its menu entries, ids
    /// dense from 0 in menu order.
    pub fn view_context_options(&self, id: Indice, options: &Vec<WrappedContext>) -> (r: PluginResponse)
        ensures
            r@ == spec_context_response(id, options.deep_view()),
    {
        let mut pairs: Vec<ContextOption> = Vec::new();
        let n = options.len();
        let mut k: usize = 0;
        while k < n
            invariant
                n == options@.len(),
                k <= n,
                pairs@.len() == k,
                pairs.deep_view() == spec_context_list(options.deep_view()).take(k as int),
            decreases n - k,
        {
            let pair = ContextOption { id: k as Indice, name: options[k].name.clone() };
            proof {
                assert(pair@ =~~= spec_context_list(options.deep_view())[k as int]);
            }
            let ghost pre = pairs.deep_view();
            let ghost pv = pair@;
            pairs.push(pair);
            proof {
                assert(pairs.deep_view().len() == k + 1);
                assert(pairs.deep_view()[k as int] == pv);
                assert forall|i: int| 0 <= i < k implies pairs.deep_view()[i] == pre[i] by {}
                assert(pairs.deep_view() =~= spec_context_list(options.deep_view()).take(k + 1));
            }
            k = k + 1;
        }
        proof {
            assert(spec_context_list(options.deep_view()).take(n as int) =~= spec_context_list(
                options.deep_view(),
            ));
        }
        PluginResponse::Context { id, options: pairs }
    }

    /// Resolve a primary activation against the current index.
    pub fn activate(&self, id: Indice) -> (r: Outcome)
        ensures
            r@ == spec_activate(self@.results, id),
    {
        match self.results.get(id) {
            None => Outcome::NotFound,
            Some(w) => match w.action {
                None => Outcome::NoAction,
                Some(Action::Complete) => self.complete(id),
                Some(Action::Context) => match &w.context_options {
                    None => Outcome::NoContext,
                    Some(opts) => Outcome::Respond(self.view_context_options(id, opts)),
                },
            },
        }
    }

    /// Resolve a completion request against the current index.
    pub fn complete(&self, id: Indice) -> (r: Outcome)
        ensures
            r@ == spec_complete(self@.results, id),
    {
        match self.results.get(id) {
            None => Outcome::NotFound,
            Some(w) => match &w.complete {
                None => Outcome::NoCompletion,
                Some(s) => Outcome::Respond(PluginResponse::Fill(s.clone())),
            },
        }
    }

    /// Resolve a context request against the current index.
    pub fn context(&self, id: Indice) -> (r: Outcome)
        ensures
            r@ == spec_context(self@.results, id),
    {
        match self.results.get(id) {
            None => Outcome::NotFound,
            Some(w) => match &w.context_options {
                None => Outcome::NoContext,
                Some(opts) => Outcome::Respond(self.view_context_options(id, opts)),
            },
        }
    }

    /// Resolve a context sub-activation against the current index: checks
    /// in order, first failure reported, success names the operation.
    pub fn activate_context(&self, result_id: Indice, context_id: Indice) -> (r: Outcome)
        ensures
            r@ == spec_activate_context(self@.results, result_id, context_id),
    {
        match self.results.get(result_id) {
            None => Outcome::NotFound,
            Some(w) => match &w.container_id {
                None => Outcome::MissingContainerId,
                Some(cid) => match &w.context_options {
                    None => Outcome::NoContext,
                    Some(opts) => {
                        let idx = context_id as usize;
                        if idx >= opts.len() {
                            Outcome::NoContextEntry
                        } else {
                            match opts[idx].exec_action {
                                None => Outcome::NoContextAction,
                                Some(a) => Outcome::Invoke {
                                    container_id: cid.clone(),
                                    action: a,
                                },
                            }
                        }
                    },
                },
            },
        }
    }
}

/// In a sound index — entry `i` under id `i + 1`, the notice under id 0,
/// as every build leaves it — a lookup never resolves to a result that was
/// emitted under a different id: what id `i` finds carries id `i`.
pub proof fn lemma_lookup_sound(m: ResultMapV, id: Indice)
    requires
        m.notice matches Some(w) ==> w.result.id == 0,
        forall|i: int| 0 <= i < m.entries.len() ==> (#[trigger] m.entries[i]).result.id == i + 1,
    ensures
        spec_get(m, id) matches Some(w) ==> w.result.id == id,
        1 <= id <= m.entries.len() ==> spec_get(m, id) == Some(m.entries[id - 1]),
        id > m.entries.len() ==> (spec_get(m, id) is None || id == 0),
{
}

/// After an interrupt has cleared the result index, no activation can
/// resolve: any result id from before the interrupt — id 0 included — is
/// reported not-found, never dereferenced.
pub proof fn lemma_interrupt_clears_activations(m: ResultMapV, id: Indice)
    requires
        m.entries.len() == 0,
        m.notice is None,
    ensures
        spec_get(m, id) is None,
        spec_activate(m, id) == OutcomeV::NotFound,
        spec_complete(m, id) == OutcomeV::NotFound,
        spec_context(m, id) == OutcomeV::NotFound,
        forall|c: Indice| spec_activate_context(m, id, c) == OutcomeV::NotFound,
{
}

/// Rebuilding with an unchanged snapshot is idempotent: the build is a
/// function of the snapshot, the filter and the icon alone, so two builds
/// over the same store contents emit identical display payloads.
pub proof fn lemma_build_idempotent(p1: PluginV, p2: PluginV, f: Seq<State>)
    requires
        p1.containers == p2.containers,
        p1.icon == p2.icon,
    ensures
        spec_build(p1.containers, f, p1.icon) == spec_build(p2.containers, f, p2.icon),
        spec_appends(spec_build(p1.containers, f, p1.icon)) == spec_appends(
            spec_build(p2.containers, f, p2.icon),
        ),
{
}

/// The pairs sent for a context menu carry ids exactly `0 .. n-1`, in
/// menu order, each with its entry's label.
pub proof fn lemma_context_pairs_dense(opts: Seq<WrappedContextV>)
    requires
        opts.len() <= u32::MAX,
    ensures
        spec_context_list(opts).len() == opts.len(),
        forall|k: int|
            0 <= k < opts.len() ==> (#[trigger] spec_context_list(opts)[k]).id == k
                && spec_context_list(opts)[k].name == opts[k].name,
{
}

/// State-action correctness, end to end: after a build, activating an
/// assigned result id shows exactly the action table of the container
/// that the id was assigned to — or is a no-op, when no action is legal
/// in its state.  The notice slot plays no part.
pub proof fn lemma_activation_matches_state(
    cs: Seq<ContainerV>,
    f: Seq<State>,
    icon: Seq<char>,
    notice: Option<WrappedResultV>,
    id: Indice,
)
    requires
        cs.len() <= u32::MAX,
        1 <= id <= spec_build(cs, f, icon).len(),
    ensures
        ({
            let m = ResultMapV { notice, entries: spec_build(cs, f, icon) };
            let c = spec_filtered(cs, f)[id - 1];
            match spec_actions(c.state) {
                None => spec_activate(m, id) == OutcomeV::NoAction,
                Some(l) => spec_activate(m, id) == OutcomeV::Respond(
                    spec_context_response(id, spec_wrap_actions(l)),
                ),
            }
        }),
{
    lemma_build_matches_filtered(cs, f, icon);
}

/// Dispatch correctness for context sub-activations: after a build, a
/// context id under an assigned result id resolves to exactly the bound
/// container's action at that position of its state's table; a context id
/// past the table is reported absent, and a menu-less state reports that
/// it has no menu.
pub proof fn lemma_context_activation_matches_state(
    cs: Seq<ContainerV>,
    f: Seq<State>,
    icon: Seq<char>,
    notice: Option<WrappedResultV>,
    id: Indice,
    context_id: Indice,
)
    requires
        cs.len() <= u32::MAX,
        1 <= id <= spec_build(cs, f, icon).len(),
    ensures
        ({
            let m = ResultMapV { notice, entries: spec_build(cs, f, icon) };
            let c = spec_filtered(cs, f)[id - 1];
            match spec_actions(c.state) {
                None => spec_activate_context(m, id, context_id) == OutcomeV::NoContext,
                Some(l) => if context_id < l.len() {
                    spec_activate_context(m, id, context_id) == OutcomeV::Invoke {
                        container_id: c.id,
                        action: l[context_id as int],
                    }
                } else {
                    spec_activate_context(m, id, context_id) == OutcomeV::NoContextEntry
                },
            }
        }),
{
    lemma_build_matches_filtered(cs, f, icon);
}

} // verus!
