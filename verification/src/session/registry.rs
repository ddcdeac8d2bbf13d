use vstd::prelude::*;
use vstd::pervasive::unreached;
use crate::session::message::TabId;
use crate::session::state::{State, StateView};

verus! {

/// The hasher of `ahash`, which the table of the tabs hashes with. Nothing
/// is claimed of it.
#[verifier::external_type_specification]
#[verifier::external_body]
pub struct ExRandomState(ahash::RandomState);

/// The states of a table as contracts see them. The table keeps each under
/// the number of its token.
pub open spec fn shown(states: Map<u64, State>) -> Map<TabId, StateView> {
    Map::new(|id: TabId| states.contains_key(id.0), |id: TabId| states[id.0]@)
}

/// Puts `state` under `id`, in place of what was there.
///
/// This is `HashMap::insert` on a table that hashes with `ahash`. The
/// contract claims that afterwards the table holds `state` under `id` and is
/// otherwise what it was.
#[verifier::external_body]
fn insert(states: &mut ahash::HashMap<u64, State>, id: u64, state: State)
    ensures
        final(states)@ == old(states)@.insert(id, state),
{
    states.insert(id, state);
}

/// Takes out what is under `id`.
///
/// This is `HashMap::remove` on a table that hashes with `ahash`. The
/// contract claims that afterwards the table holds nothing under `id` and is
/// otherwise what it was.
#[verifier::external_body]
fn remove(states: &mut ahash::HashMap<u64, State>, id: u64)
    ensures
        final(states)@ == old(states)@.remove(id),
{
    states.remove(&id);
}

/// What is under `id`.
///
/// This is `HashMap::get` on a table that hashes with `ahash`. The contract
/// claims that it finds what the table holds under `id`, and nothing where
/// the table holds nothing there.
#[verifier::external_body]
fn get(states: &ahash::HashMap<u64, State>, id: u64) -> (state: Option<&State>)
    ensures
        match state {
            Some(state) => states@.contains_key(id) && *state == states@[id],
            None => !states@.contains_key(id),
        },
{
    states.get(&id)
}

/// The tabs of a session as contracts see them.
pub struct Tabs {
    /// The tabs in the order in which the tab bar shows them.
    pub order: Seq<TabId>,
    /// The tab that has the focus.
    pub active: TabId,
    /// What each tab shows.
    pub states: Map<TabId, StateView>,
    /// How many tokens were handed out. They are the numbers below this one.
    pub minted: nat,
}

impl Tabs {
    /// What holds of the tabs of a session at all times: there is a tab; the
    /// tab bar shows each tab once; the tab that has the focus is one of
    /// them; and no token is in use that was not handed out.
    pub open spec fn wf(self) -> bool {
        &&& self.order.len() > 0
        &&& self.order.no_duplicates()
        &&& forall|id: TabId| self.states.contains_key(id) <==> self.order.contains(id)
        &&& self.states.contains_key(self.active)
        &&& forall|id: TabId| self.states.contains_key(id) ==> id.0 < self.minted
        &&& self.minted <= u64::MAX
    }

    /// One tab, which shows `state` and has the focus.
    pub open spec fn fresh(state: StateView) -> Tabs {
        Tabs { order: seq![TabId(0)], active: TabId(0), states: map![TabId(0) => state], minted: 1 }
    }

    /// Whether a token is left to hand out.
    pub open spec fn has_fresh_id(self) -> bool {
        self.minted < u64::MAX
    }

    /// The token that is handed out next.
    pub open spec fn next_id(self) -> TabId {
        TabId(self.minted as u64)
    }

    /// A new tab at the end of the tab bar, which shows `state` and has the
    /// focus.
    pub open spec fn add_tab(self, state: StateView) -> Tabs {
        Tabs {
            order: self.order.push(self.next_id()),
            active: self.next_id(),
            states: self.states.insert(self.next_id(), state),
            minted: self.minted + 1,
        }
    }

    /// The focus on `id`, where that is a tab.
    pub open spec fn activate(self, id: TabId) -> Tabs {
        if self.states.contains_key(id) {
            Tabs { active: id, ..self }
        } else {
            self
        }
    }

    /// Whether `id` can be closed: it is a tab, and not the only one.
    pub open spec fn can_remove(self, id: TabId) -> bool {
        self.states.contains_key(id) && self.order.len() > 1
    }

    /// The tab that has the focus once `id` is closed. Where `id` has it, the
    /// focus goes to the first tab of the tab bar, or to the second where
    /// `id` is the first.
    pub open spec fn heir(self, id: TabId) -> TabId {
        if self.active != id {
            self.active
        } else if self.order[0] == id {
            self.order[1]
        } else {
            self.order[0]
        }
    }

    /// The tabs without `id`, where it can be closed.
    pub open spec fn remove(self, id: TabId) -> Tabs {
        if self.can_remove(id) {
            Tabs {
                order: self.order.remove(self.order.index_of(id)),
                active: self.heir(id),
                states: self.states.remove(id),
                ..self
            }
        } else {
            self
        }
    }

    /// The tabs with `state` shown where `id` is, where that is a tab.
    pub open spec fn replace(self, id: TabId, state: StateView) -> Tabs {
        if self.states.contains_key(id) {
            Tabs { states: self.states.insert(id, state), ..self }
        } else {
            self
        }
    }

    /// Whether the tab that has the focus may be overwritten.
    pub open spec fn overwritable(self) -> bool {
        self.states[self.active] is Home
    }

    /// Whether something can be opened: the tab that has the focus gives way,
    /// or there is a token for a new tab.
    pub open spec fn can_open(self) -> bool {
        self.overwritable() || self.has_fresh_id()
    }

    /// The tabs once `state` is opened. It takes the place of the home
    /// screen where that has the focus: same tab, same place in the tab bar.
    /// Anything else stays, and `state` gets a new tab.
    pub open spec fn open(self, state: StateView) -> Tabs {
        if self.overwritable() {
            self.replace(self.active, state)
        } else if self.has_fresh_id() {
            self.add_tab(state)
        } else {
            self
        }
    }
}

/// The tabs of a session: what each shows, their order in the tab bar, and
/// which one has the focus.
pub struct Registry {
    order: Vec<TabId>,
    active: TabId,
    minted: u64,
    states: ahash::HashMap<u64, State>,
}

impl View for Registry {
    type V = Tabs;

    closed spec fn view(&self) -> Tabs {
        Tabs {
            order: self.order@,
            active: self.active,
            states: shown(self.states@),
            minted: self.minted as nat,
        }
    }
}

impl Registry {
    /// One tab, which shows `state` and has the focus.
    pub fn new(state: State) -> (registry: Self)
        ensures
            registry@ == Tabs::fresh(state@),
            registry@.wf(),
    {
        let mut states: ahash::HashMap<u64, State> = ahash::HashMap::default();
        let mut order: Vec<TabId> = Vec::new();
        order.push(TabId(0));
        insert(&mut states, 0, state);
        let registry = Registry { order, active: TabId(0), minted: 1, states };
        proof {
            assert(registry@.states =~= map![TabId(0) => state@]);
            assert(registry@.order =~= seq![TabId(0)]);
            assert(registry@.order[0] == TabId(0));
            assert forall|id: TabId| registry@.states.contains_key(id) implies registry@.order.contains(
                id,
            ) by {
                assert(registry@.order[0] == id);
            }
        }
        registry
    }

    /// Whether a token is left for a new tab.
    pub fn has_fresh_id(&self) -> (yes: bool)
        ensures
            yes == self@.has_fresh_id(),
    {
        self.minted < u64::MAX
    }

    /// Adds a tab at the end of the tab bar, which shows `state` and gets the
    /// focus. Returns its token.
    pub fn add_tab(&mut self, state: State) -> (id: TabId)
        requires
            old(self)@.wf(),
            old(self)@.has_fresh_id(),
        ensures
            final(self)@ == old(self)@.add_tab(state@),
            final(self)@.wf(),
            id == old(self)@.next_id(),
            !old(self)@.states.contains_key(id),
    {
        let id = TabId(self.minted);
        let ghost before = self@;
        self.order.push(id);
        insert(&mut self.states, id.0, state);
        self.active = id;
        self.minted = self.minted + 1;
        proof {
            assert(self@.states =~= before.states.insert(id, state@));
            lemma_add_tab_keeps(before, state@);
        }
        id
    }

    /// Gives the focus to `id`. Does nothing where `id` is no tab.
    pub fn activate(&mut self, id: TabId)
        requires
            old(self)@.wf(),
        ensures
            final(self)@ == old(self)@.activate(id),
            final(self)@.wf(),
    {
        if get(&self.states, id.0).is_some() {
            self.active = id;
        }
    }

    /// Where `id` stands in the tab bar, if it is a tab.
    pub fn position(&self, id: TabId) -> (position: Option<usize>)
        requires
            self@.wf(),
        ensures
            match position {
                Some(position) => position < self@.order.len() && self@.order[position as int] == id
                    && position == self@.order.index_of(id),
                None => !self@.states.contains_key(id),
            },
    {
        let mut i: usize = 0;
        while i < self.order.len()
            invariant
                i <= self.order.len(),
                self@.wf(),
                forall|j: int| 0 <= j < i ==> self.order@[j] != id,
            decreases self.order.len() - i,
        {
            if self.order[i] == id {
                proof {
                    assert(self@.order[i as int] == id);
                    let k = self@.order.index_of(id);
                    assert(0 <= k < self@.order.len() && self@.order[k] == id);
                }
                return Some(i);
            }
            i += 1;
        }
        proof {
            if self@.states.contains_key(id) {
                assert(self@.order.contains(id));
                let k = choose|k: int| 0 <= k < self@.order.len() && self@.order[k] == id;
                assert(self.order@[k] != id);
            }
        }
        None
    }

    /// Closes `id`, unless it is the only tab or no tab at all. Where `id`
    /// has the focus, the focus goes to the first tab of the tab bar, or to
    /// the second where `id` is the first. Says whether the tab was closed.
    pub fn remove(&mut self, id: TabId) -> (removed: bool)
        requires
            old(self)@.wf(),
        ensures
            final(self)@ == old(self)@.remove(id),
            final(self)@.wf(),
            removed == old(self)@.can_remove(id),
    {
        if self.order.len() < 2 {
            return false;
        }
        let position = match self.position(id) {
            Some(position) => position,
            None => {
                return false;
            },
        };
        let ghost before = self@;
        proof {
            assert(before.order.contains(before.order[position as int]));
            assert(before.can_remove(id));
        }
        if self.active == id {
            self.active = if position == 0 {
                self.order[1]
            } else {
                self.order[0]
            };
        }
        remove(&mut self.states, id.0);
        self.order.remove(position);
        proof {
            assert(self@.states =~= before.states.remove(id));
            lemma_remove_keeps(before, id);
        }
        true
    }

    /// Shows `state` where `id` is. Does nothing where `id` is no tab.
    pub fn replace(&mut self, id: TabId, state: State)
        requires
            old(self)@.wf(),
        ensures
            final(self)@ == old(self)@.replace(id, state@),
            final(self)@.wf(),
    {
        if get(&self.states, id.0).is_some() {
            let ghost before = self@;
            insert(&mut self.states, id.0, state);
            proof {
                assert(self@.states =~= before.states.insert(id, state@));
                lemma_replace_keeps(before, id, state@);
            }
        }
    }

    /// Opens `state`. It takes the place of the home screen where that has
    /// the focus; otherwise it gets a new tab, unless no token is left for
    /// one. Says whether it was opened.
    pub fn open(&mut self, state: State) -> (opened: bool)
        requires
            old(self)@.wf(),
        ensures
            final(self)@ == old(self)@.open(state@),
            final(self)@.wf(),
            opened == old(self)@.can_open(),
    {
        if self.current().can_overwrite() {
            let id = self.active;
            self.replace(id, state);
            true
        } else if self.has_fresh_id() {
            self.add_tab(state);
            true
        } else {
            false
        }
    }

    /// What `id` shows, if it is a tab.
    pub fn get(&self, id: TabId) -> (state: Option<&State>)
        ensures
            match state {
                Some(state) => self@.states.contains_key(id) && state@ == self@.states[id],
                None => !self@.states.contains_key(id),
            },
    {
        get(&self.states, id.0)
    }

    /// What the tab shows that has the focus.
    pub fn current(&self) -> (state: &State)
        requires
            self@.wf(),
        ensures
            state@ == self@.states[self@.active],
    {
        match get(&self.states, self.active.0) {
            Some(state) => state,
            None => unreached(),
        }
    }

    /// The tab that has the focus.
    pub fn active(&self) -> (id: TabId)
        ensures
            id == self@.active,
    {
        self.active
    }

    /// The tabs in the order of the tab bar.
    pub fn order(&self) -> (order: &[TabId])
        ensures
            order@ == self@.order,
    {
        self.order.as_slice()
    }

    /// How many tabs there are.
    pub fn len(&self) -> (len: usize)
        ensures
            len == self@.order.len(),
    {
        self.order.len()
    }
}

/// A new tab leaves the tabs in order.
pub proof fn lemma_add_tab_keeps(tabs: Tabs, state: StateView)
    requires
        tabs.wf(),
        tabs.has_fresh_id(),
    ensures
        tabs.add_tab(state).wf(),
        !tabs.states.contains_key(tabs.next_id()),
{
    let id = tabs.next_id();
    let after = tabs.add_tab(state);
    assert forall|i: int, j: int| 0 <= i < after.order.len() && 0 <= j < after.order.len() && i != j
        implies after.order[i] != after.order[j] by {
        if i < tabs.order.len() {
            assert(tabs.order.contains(tabs.order[i]));
        }
        if j < tabs.order.len() {
            assert(tabs.order.contains(tabs.order[j]));
        }
    }
    assert forall|other: TabId| after.states.contains_key(other) <==> after.order.contains(
        other,
    ) by {
        if after.order.contains(other) {
            let k = choose|k: int| 0 <= k < after.order.len() && after.order[k] == other;
            if k < tabs.order.len() {
                assert(tabs.order.contains(tabs.order[k]));
            }
        }
        if after.states.contains_key(other) && other != id {
            assert(tabs.states.contains_key(other));
            assert(tabs.order.contains(other));
            let k = choose|k: int| 0 <= k < tabs.order.len() && tabs.order[k] == other;
            assert(after.order[k] == other);
        }
        if other == id {
            assert(after.order[tabs.order.len() as int] == id);
        }
    }
}

/// Closing a tab leaves the tabs in order.
pub proof fn lemma_remove_keeps(tabs: Tabs, id: TabId)
    requires
        tabs.wf(),
    ensures
        tabs.remove(id).wf(),
{
    if tabs.can_remove(id) {
        let after = tabs.remove(id);
        assert(tabs.order.contains(id));
        let p = tabs.order.index_of(id);
        assert forall|i: int| 0 <= i < after.order.len() implies after.order[i] == (if i < p {
            tabs.order[i]
        } else {
            tabs.order[i + 1]
        }) by {}
        assert(after.order.no_duplicates());
        assert forall|other: TabId| after.states.contains_key(other) <==> after.order.contains(
            other,
        ) by {
            if after.order.contains(other) {
                let k = choose|k: int| 0 <= k < after.order.len() && after.order[k] == other;
                let m = if k < p {
                    k
                } else {
                    k + 1
                };
                assert(tabs.order[m] == other);
                assert(tabs.order.contains(other));
            }
            if after.states.contains_key(other) {
                assert(tabs.states.contains_key(other));
                assert(tabs.order.contains(other));
                let m = choose|m: int| 0 <= m < tabs.order.len() && tabs.order[m] == other;
                let k = if m < p {
                    m
                } else {
                    m - 1
                };
                assert(after.order[k] == other);
            }
        }
        assert(tabs.order.contains(tabs.order[0]));
        assert(tabs.order.contains(tabs.order[1]));
        assert(after.states.contains_key(after.active));
    }
}

/// Showing something else in a tab leaves the tabs in order.
pub proof fn lemma_replace_keeps(tabs: Tabs, id: TabId, state: StateView)
    requires
        tabs.wf(),
    ensures
        tabs.replace(id, state).wf(),
        tabs.replace(id, state).order == tabs.order,
        tabs.replace(id, state).active == tabs.active,
{
    let after = tabs.replace(id, state);
    assert forall|other: TabId| after.states.contains_key(other) <==> after.order.contains(
        other,
    ) by {
        assert(after.states.contains_key(other) == tabs.states.contains_key(other));
    }
}

/// Opening something leaves the tabs in order.
pub proof fn lemma_open_keeps(tabs: Tabs, state: StateView)
    requires
        tabs.wf(),
    ensures
        tabs.open(state).wf(),
{
    if tabs.overwritable() {
        lemma_replace_keeps(tabs, tabs.active, state);
    } else if tabs.has_fresh_id() {
        lemma_add_tab_keeps(tabs, state);
    }
}

/// Something done to the tabs: a tab is added, or one is closed.
pub enum Op {
    AddTab(StateView),
    Remove(TabId),
}

/// The tabs after `op`. A tab for which no token is left is not added.
pub open spec fn apply(tabs: Tabs, op: Op) -> Tabs {
    match op {
        Op::AddTab(state) => if tabs.has_fresh_id() {
            tabs.add_tab(state)
        } else {
            tabs
        },
        Op::Remove(id) => tabs.remove(id),
    }
}

/// The tabs after each of `ops` in turn.
pub open spec fn run(tabs: Tabs, ops: Seq<Op>) -> Tabs
    decreases ops.len(),
{
    if ops.len() == 0 {
        tabs
    } else {
        apply(run(tabs, ops.drop_last()), ops.last())
    }
}

/// Whatever tabs are added and closed, in whatever order and however many:
/// afterwards there is a tab, and the tab that has the focus is one of the
/// tabs. As a part of a run is a run, this holds after each step.
pub proof fn lemma_always_a_live_tab(tabs: Tabs, ops: Seq<Op>)
    requires
        tabs.wf(),
    ensures
        run(tabs, ops).wf(),
        run(tabs, ops).order.len() > 0,
        run(tabs, ops).states.contains_key(run(tabs, ops).active),
    decreases ops.len(),
{
    if ops.len() > 0 {
        let before = run(tabs, ops.drop_last());
        lemma_always_a_live_tab(tabs, ops.drop_last());
        match ops.last() {
            Op::AddTab(state) => {
                if before.has_fresh_id() {
                    lemma_add_tab_keeps(before, state);
                }
            },
            Op::Remove(id) => {
                lemma_remove_keeps(before, id);
            },
        }
    }
}

/// Closing the tab that has the focus hands the focus on: to the second tab
/// of the tab bar where the first is closed, to the first where any other is
/// closed. The tab in question is the one that stood there before.
pub proof fn lemma_focus_after_close(tabs: Tabs, id: TabId)
    requires
        tabs.wf(),
        tabs.order.len() >= 2,
        tabs.states.contains_key(id),
        tabs.active == id,
    ensures
        tabs.order[0] == id ==> tabs.remove(id).active == tabs.order[1],
        tabs.order[0] != id ==> tabs.remove(id).active == tabs.order[0],
        tabs.remove(id).order[0] == tabs.remove(id).active,
        !tabs.remove(id).states.contains_key(id),
{
    assert(tabs.order.contains(id));
    let p = tabs.order.index_of(id);
    if tabs.order[0] == id {
        assert(p == 0);
    }
    assert(tabs.remove(id).order[0] == (if p == 0 {
        tabs.order[1]
    } else {
        tabs.order[0]
    }));
}

/// Closing a tab that has not the focus leaves the focus where it is.
pub proof fn lemma_focus_stays(tabs: Tabs, id: TabId)
    requires
        tabs.wf(),
        tabs.active != id,
    ensures
        tabs.remove(id).active == tabs.active,
{
}

/// Opening something over the home screen keeps the number of tabs, their
/// order and the focus; only what the tab shows is new.
pub proof fn lemma_open_over_home(tabs: Tabs, state: StateView)
    requires
        tabs.wf(),
        tabs.states[tabs.active] is Home,
    ensures
        tabs.open(state).order == tabs.order,
        tabs.open(state).active == tabs.active,
        tabs.open(state).states == tabs.states.insert(tabs.active, state),
{
}

/// Opening something while a document has the focus adds one tab, at the end
/// of the tab bar. It shows what was opened and has the focus, and all
/// other tabs show what they showed.
pub proof fn lemma_open_beside_document(tabs: Tabs, state: StateView)
    requires
        tabs.wf(),
        tabs.states[tabs.active] is Editor,
        tabs.has_fresh_id(),
    ensures
        tabs.open(state).order.len() == tabs.order.len() + 1,
        tabs.open(state).order == tabs.order.push(tabs.open(state).active),
        tabs.open(state).states[tabs.open(state).active] == state,
        forall|id: TabId| #[trigger]
            tabs.states.contains_key(id) ==> tabs.open(state).states.contains_key(id)
                && tabs.open(state).states[id] == tabs.states[id],
{
    lemma_add_tab_keeps(tabs, state);
}

} // verus!
