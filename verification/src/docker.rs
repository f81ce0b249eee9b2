//! The lifecycle model of a container: its closed set of states, the fixed
//! table of actions that are legal in each state, the glyph and icon shown
//! for it, and the ingestion of a raw runtime snapshot into [`Container`]
//! records.

use vstd::prelude::*;

use crate::text::{eq_ignore_ascii_case, lower_seq};

verus! {

/// Lifecycle state of a container, a closed enumeration.
#[derive(Clone, Copy, Debug, PartialEq, Eq, Structural)]
pub enum State {
    Created,
    Restarting,
    Running,
    Removing,
    Paused,
    Exited,
    Dead,
}

/// An operation that can be requested on a container.
#[derive(Clone, Copy, Debug, PartialEq, Eq, Structural)]
pub enum Action {
    Attach,
    Start,
    Stop,
    Kill,
    Restart,
    Pause,
    Unpause,
    Remove,
    Inspect,
    Exec,
    Logs,
}

impl DeepView for Action {
    type V = Action;

    open spec fn deep_view(&self) -> Action {
        *self
    }
}

impl DeepView for State {
    type V = State;

    open spec fn deep_view(&self) -> State {
        *self
    }
}

/// The fixed table of legal actions per lifecycle state, in display order.
/// `None` means no interactive action is legal (mid-transition states).
pub open spec fn spec_actions(s: State) -> Option<Seq<Action>> {
    match s {
        State::Created => Some(seq![Action::Attach, Action::Start, Action::Remove]),
        State::Restarting => None,
        State::Running => Some(
            seq![
                Action::Attach,
                Action::Stop,
                Action::Kill,
                Action::Restart,
                Action::Pause,
                Action::Unpause,
                Action::Remove,
                Action::Inspect,
                Action::Exec,
                Action::Logs,
            ],
        ),
        State::Removing => None,
        State::Paused => Some(seq![Action::Unpause, Action::Remove]),
        State::Exited => Some(seq![Action::Start, Action::Remove]),
        State::Dead => Some(seq![Action::Start, Action::Remove]),
    }
}

impl State {
    /// The ordered list of actions that are legal for a container in this
    /// state, or `None` when no interactive action is legal right now.
    pub fn actions(&self) -> (r: Option<Vec<Action>>)
        ensures
            r.deep_view() == spec_actions(*self),
    {
        match self {
            State::Created => Some(vec![Action::Attach, Action::Start, Action::Remove]),
            State::Restarting => None,
            State::Running => Some(
                vec![
                    Action::Attach,
                    Action::Stop,
                    Action::Kill,
                    Action::Restart,
                    Action::Pause,
                    Action::Unpause,
                    Action::Remove,
                    Action::Inspect,
                    Action::Exec,
                    Action::Logs,
                ],
            ),
            State::Removing => None,
            State::Paused => Some(vec![Action::Unpause, Action::Remove]),
            State::Exited => Some(vec![Action::Start, Action::Remove]),
            State::Dead => Some(vec![Action::Start, Action::Remove]),
        }
    }
}

/// Every action list in the table is non-empty: a state either legalises at
/// least one action or legalises none at all.
pub proof fn lemma_actions_nonempty(s: State)
    ensures
        spec_actions(s) matches Some(l) ==> l.len() >= 1,
{
}

/// The name of a lifecycle state, as displayed in a result description.
pub open spec fn spec_state_name(s: State) -> Seq<char> {
    match s {
        State::Created => "Created"@,
        State::Restarting => "Restarting"@,
        State::Running => "Running"@,
        State::Removing => "Removing"@,
        State::Paused => "Paused"@,
        State::Exited => "Exited"@,
        State::Dead => "Dead"@,
    }
}

/// The glyph prepended to a container's display name for this state.
pub open spec fn spec_unicode(s: State) -> Seq<char> {
    match s {
        State::Created => "\u{2714}"@,
        State::Restarting => "\u{231B}"@,
        State::Running => "\u{1F197}"@,
        State::Removing => "\u{267B}"@,
        State::Paused => "\u{23F8}"@,
        State::Exited => "\u{1F5D1}"@,
        State::Dead => "\u{2620}"@,
    }
}

/// The icon shown for a container in this state.
pub open spec fn spec_icon(s: State) -> Option<Seq<char>> {
    Some("./docker-icon.png"@)
}

impl State {
    /// The state's display name.
    pub fn name(&self) -> (r: &'static str)
        ensures
            r@ == spec_state_name(*self),
    {
        match self {
            State::Created => "Created",
            State::Restarting => "Restarting",
            State::Running => "Running",
            State::Removing => "Removing",
            State::Paused => "Paused",
            State::Exited => "Exited",
            State::Dead => "Dead",
        }
    }

    /// The glyph prepended to a container's display name, until a category
    /// icon can be supplied with each result.
    pub fn unicode(&self) -> (r: &'static str)
        ensures
            r@ == spec_unicode(*self),
    {
        match self {
            State::Created => "\u{2714}",
            State::Restarting => "\u{231B}",
            State::Running => "\u{1F197}",
            State::Removing => "\u{267B}",
            State::Paused => "\u{23F8}",
            State::Exited => "\u{1F5D1}",
            State::Dead => "\u{2620}",
        }
    }

    /// The icon reference for a container in this state.
    pub fn icon(&self) -> (r: Option<String>)
        ensures
            r.deep_view() == spec_icon(*self),
    {
        Some(String::from_str("./docker-icon.png"))
    }
}

/// Whether `s` names this state, ignoring ASCII case.
pub open spec fn spec_state_matches(s: Seq<char>, st: State) -> bool {
    lower_seq(s) == lower_seq(spec_state_name(st))
}

/// The state named by a runtime state string, matched against the
/// enumeration ignoring ASCII case; an unparseable string falls back to
/// `Dead` (an explicit defaulting policy, not an error).
pub open spec fn spec_parse_state(s: Seq<char>) -> State {
    if spec_state_matches(s, State::Created) {
        State::Created
    } else if spec_state_matches(s, State::Restarting) {
        State::Restarting
    } else if spec_state_matches(s, State::Running) {
        State::Running
    } else if spec_state_matches(s, State::Removing) {
        State::Removing
    } else if spec_state_matches(s, State::Paused) {
        State::Paused
    } else if spec_state_matches(s, State::Exited) {
        State::Exited
    } else {
        State::Dead
    }
}

/// Parse a runtime state string into a lifecycle state, ignoring ASCII
/// case and defaulting to `Dead`.
pub fn parse_state(s: &str) -> (r: State)
    ensures
        r == spec_parse_state(s@),
{
    if eq_ignore_ascii_case(s, "Created") {
        State::Created
    } else if eq_ignore_ascii_case(s, "Restarting") {
        State::Restarting
    } else if eq_ignore_ascii_case(s, "Running") {
        State::Running
    } else if eq_ignore_ascii_case(s, "Removing") {
        State::Removing
    } else if eq_ignore_ascii_case(s, "Paused") {
        State::Paused
    } else if eq_ignore_ascii_case(s, "Exited") {
        State::Exited
    } else {
        State::Dead
    }
}

/// The label of an action, as shown in a context menu.
pub open spec fn spec_label(a: Action) -> Seq<char> {
    match a {
        Action::Attach => "Attach"@,
        Action::Start => "Start"@,
        Action::Stop => "Stop"@,
        Action::Kill => "Kill"@,
        Action::Restart => "Restart"@,
        Action::Pause => "Pause"@,
        Action::Unpause => "Unpause"@,
        Action::Remove => "Remove"@,
        Action::Inspect => "Inspect"@,
        Action::Exec => "Exec"@,
        Action::Logs => "Logs"@,
    }
}

impl Action {
    /// The action's display label.
    pub fn label(&self) -> (r: &'static str)
        ensures
            r@ == spec_label(*self),
    {
        match self {
            Action::Attach => "Attach",
            Action::Start => "Start",
            Action::Stop => "Stop",
            Action::Kill => "Kill",
            Action::Restart => "Restart",
            Action::Pause => "Pause",
            Action::Unpause => "Unpause",
            Action::Remove => "Remove",
            Action::Inspect => "Inspect",
            Action::Exec => "Exec",
            Action::Logs => "Logs",
        }
    }
}

/// The set of states a build may show, in the order they are checked.
pub type ContainerFilter = Vec<State>;

/// Every lifecycle state: the "all" filter preset.
pub fn filter_all() -> (r: ContainerFilter)
    ensures
        r@ == spec_filter_all(),
{
    vec![
        State::Created,
        State::Restarting,
        State::Running,
        State::Removing,
        State::Paused,
        State::Exited,
        State::Dead,
    ]
}

/// The states shown by default: all but `Paused`, `Exited` and `Dead`.
pub fn filter_default() -> (r: ContainerFilter)
    ensures
        r@ == spec_filter_default(),
{
    vec![State::Created, State::Restarting, State::Running, State::Removing]
}

/// The states left out of the default view: `Paused`, `Exited` and `Dead`.
pub fn filter_non_default() -> (r: ContainerFilter)
    ensures
        r@ == spec_filter_non_default(),
{
    vec![State::Paused, State::Exited, State::Dead]
}

/// The "all" filter preset.
pub open spec fn spec_filter_all() -> Seq<State> {
    seq![
        State::Created,
        State::Restarting,
        State::Running,
        State::Removing,
        State::Paused,
        State::Exited,
        State::Dead,
    ]
}

/// The "default" filter preset.
pub open spec fn spec_filter_default() -> Seq<State> {
    seq![State::Created, State::Restarting, State::Running, State::Removing]
}

/// The "non-default" filter preset.
pub open spec fn spec_filter_non_default() -> Seq<State> {
    seq![State::Paused, State::Exited, State::Dead]
}

/// One observed container, as the snapshot store holds it.
pub struct Container {
    /// Display name: the state glyph, a space, then the container's name.
    pub name: String,
    /// Runtime-assigned identity, stable for the container's lifetime.
    pub id: String,
    /// The image the container runs.
    pub image: String,
    /// Lifecycle state at the time of the snapshot.
    pub state: State,
    /// Icon reference, if one is known.
    pub icon: Option<String>,
}

/// The mathematical value of a [`Container`].
#[verifier::ext_equal]
pub struct ContainerV {
    pub name: Seq<char>,
    pub id: Seq<char>,
    pub image: Seq<char>,
    pub state: State,
    pub icon: Option<Seq<char>>,
}

impl View for Container {
    type V = ContainerV;

    open spec fn view(&self) -> ContainerV {
        ContainerV {
            name: self.name@,
            id: self.id@,
            image: self.image@,
            state: self.state,
            icon: self.icon.deep_view(),
        }
    }
}

impl DeepView for Container {
    type V = ContainerV;

    open spec fn deep_view(&self) -> ContainerV {
        self.view()
    }
}

/// A point-in-time record of one container as the runtime reports it,
/// every field as the runtime may omit it.
pub struct ContainerSummary {
    pub id: Option<String>,
    pub names: Option<Vec<String>>,
    pub image: Option<String>,
    pub state: Option<String>,
}

/// The mathematical value of a [`ContainerSummary`].
#[verifier::ext_equal]
pub struct ContainerSummaryV {
    pub id: Option<Seq<char>>,
    pub names: Option<Seq<Seq<char>>>,
    pub image: Option<Seq<char>>,
    pub state: Option<Seq<char>>,
}

impl View for ContainerSummary {
    type V = ContainerSummaryV;

    open spec fn view(&self) -> ContainerSummaryV {
        ContainerSummaryV {
            id: self.id.deep_view(),
            names: self.names.deep_view(),
            image: self.image.deep_view(),
            state: self.state.deep_view(),
        }
    }
}

impl DeepView for ContainerSummary {
    type V = ContainerSummaryV;

    open spec fn deep_view(&self) -> ContainerSummaryV {
        self.view()
    }
}

/// The container name drawn from the runtime's name list: the first listed
/// name without its leading `/`.  A missing, empty or unusable name list
/// falls back to a placeholder, so one malformed record never blocks the
/// rest of the snapshot.
pub open spec fn spec_entity_name(names: Option<Seq<Seq<char>>>) -> Seq<char> {
    match names {
        Some(l) => if l.len() >= 1 && l[0].len() >= 1 {
            l[0].skip(1)
        } else {
            "Error"@
        },
        None => "Error"@,
    }
}

/// Extract the display name from the runtime's name list, dropping the
/// leading `/` that the runtime prefixes; defaults when the list is
/// missing or empty.
pub fn name(names: &Option<Vec<String>>) -> (r: String)
    ensures
        r@ == spec_entity_name(names.deep_view()),
{
    match names {
        Some(l) => {
            if l.len() >= 1 {
                let first: &str = l[0].as_str();
                let n = first.unicode_len();
                if n >= 1 {
                    String::from_str(first.substring_char(1, n))
                } else {
                    String::from_str("Error")
                }
            } else {
                String::from_str("Error")
            }
        },
        None => String::from_str("Error"),
    }
}

/// A missing string from the runtime reads as empty.
pub open spec fn spec_or_empty(s: Option<Seq<char>>) -> Seq<char> {
    match s {
        Some(t) => t,
        None => Seq::empty(),
    }
}

/// The container record built from one runtime summary: state parsed with
/// the `Dead` fallback, display name glyph-prefixed, image defaulting to
/// empty.
pub open spec fn spec_container_of(s: ContainerSummaryV) -> ContainerV {
    let st = spec_parse_state(spec_or_empty(s.state));
    ContainerV {
        name: spec_unicode(st) + " "@ + spec_entity_name(s.names),
        id: s.id.unwrap(),
        image: spec_or_empty(s.image),
        state: st,
        icon: spec_icon(st),
    }
}

/// The snapshot store contents after ingesting a runtime listing.
pub open spec fn spec_ingest(ss: Seq<ContainerSummaryV>) -> Seq<ContainerV> {
    ss.map_values(|s: ContainerSummaryV| spec_container_of(s))
}

/// Refresh the snapshot store from a runtime listing: a wholesale swap,
/// never a partial merge, so no stale container survives.  Every summary
/// must carry its identity, and — the store being a map keyed by identity
/// — no two may carry the same one; names, image and state may be missing
/// and are defaulted.  The stored records then have pairwise distinct
/// identities too.
pub fn docker_ps(containers: &mut Vec<Container>, summaries: &Vec<ContainerSummary>)
    requires
        forall|i: int| 0 <= i < summaries@.len() ==> (#[trigger] summaries@[i]@.id) is Some,
        forall|i: int, j: int|
            0 <= i < j < summaries@.len() ==> summaries@[i]@.id != summaries@[j]@.id,
    ensures
        final(containers).deep_view() == spec_ingest(summaries.deep_view()),
        forall|i: int, j: int|
            0 <= i < j < final(containers)@.len()
                ==> final(containers).deep_view()[i].id != final(containers).deep_view()[j].id,
{
    let mut fresh: Vec<Container> = Vec::new();
    let n = summaries.len();
    let mut i: usize = 0;
    while i < n
        invariant
            n == summaries@.len(),
            i <= n,
            forall|k: int| 0 <= k < n ==> (#[trigger] summaries@[k]@.id) is Some,
            fresh.deep_view() == spec_ingest(summaries.deep_view().take(i as int)),
        decreases n - i,
    {
        let summary = &summaries[i];
        let state = match &summary.state {
            Some(s) => parse_state(s.as_str()),
            None => {
                let parsed = parse_state("");
                proof {
                    reveal_strlit("");
                    assert(""@ =~= Seq::<char>::empty());
                }
                parsed
            },
        };
        proof {
            assert(state == spec_parse_state(spec_or_empty(summary@.state)));
        }
        let mut display = String::from_str(state.unicode());
        display.append(" ");
        let fixed = name(&summary.names);
        display.append(fixed.as_str());
        let id = match &summary.id {
            Some(s) => s.clone(),
            None => String::new(),
        };
        let image = match &summary.image {
            Some(s) => s.clone(),
            None => String::new(),
        };
        let record = Container { name: display, id, image, icon: state.icon(), state };
        proof {
            assert(record@ == spec_container_of(summary@));
        }
        let ghost pre = fresh.deep_view();
        fresh.push(record);
        proof {
            assert(fresh.deep_view() =~= pre.push(record@));
            assert(summaries.deep_view()[i as int] == summary@);
            assert(fresh.deep_view() =~= spec_ingest(summaries.deep_view().take(i + 1)));
        }
        i = i + 1;
    }
    proof {
        assert(summaries.deep_view().take(n as int) =~= summaries.deep_view());
    }
    *containers = fresh;
}

} // verus!
