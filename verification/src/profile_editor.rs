use vstd::prelude::*;

use crate::config::{chosen_modes, modes_from_flags, Action, ActionView, Profile, ProfileView};
use crate::mode::Mode;
use crate::runtime::has_mode;
use crate::text::{blank, is_blank, same_text};

verus! {

/// Keys that tell list rows apart: no key twice, each below the next one handed out.
pub open spec fn distinct_below(keys: Seq<usize>, next: usize) -> bool {
    &&& forall|i: int, j: int| 0 <= i < j < keys.len() ==> keys[i] != keys[j]
    &&& forall|i: int| 0 <= i < keys.len() ==> keys[i] < next
}

/// The first place of `key` among the keys, if it has one.
pub fn key_position(keys: &Vec<usize>, key: usize) -> (r: Option<usize>)
    ensures
        match r {
            Some(i) => i < keys@.len() && keys@[i as int] == key
                && forall|k: int| 0 <= k < i ==> keys@[k] != key,
            None => !keys@.contains(key),
        },
{
    let mut i: usize = 0;
    while i < keys.len()
        invariant
            i <= keys@.len(),
            forall|k: int| 0 <= k < i ==> keys@[k] != key,
        decreases keys@.len() - i,
    {
        if keys[i] == key {
            return Some(i);
        }
        i = i + 1;
    }
    None
}

/// The keys `start`, `start + 1`, ... for `count` new rows.
pub open spec fn fresh_keys(start: usize, count: int) -> Seq<usize> {
    Seq::new(count as nat, |i: int| (start + i) as usize)
}

/// Whether place `j` of the tags is the last place where its tag stands.
pub open spec fn last_place(tags: Seq<usize>, j: int) -> bool {
    forall|k: int| j < k < tags.len() ==> tags[k] != tags[j]
}

/// Whether `key` stands among the first `m` keys.
pub open spec fn among(keys: Seq<usize>, m: int, key: usize) -> bool {
    exists|p: int| 0 <= p < m && #[trigger] keys[p] == key
}

/// The place of `key` among the first `m` keys.
pub open spec fn place_of(keys: Seq<usize>, m: int, key: usize) -> int {
    choose|p: int| 0 <= p < m && #[trigger] keys[p] == key
}

/// The places of the first `m` rows in the order given by the first `j`
/// tags: a row comes where its key stands last among the tags.
pub open spec fn order_places(keys: Seq<usize>, m: int, tags: Seq<usize>, j: int) -> Seq<int>
    decreases j,
{
    if j <= 0 {
        Seq::empty()
    } else if last_place(tags, j - 1) && among(keys, m, tags[j - 1]) {
        order_places(keys, m, tags, j - 1).push(place_of(keys, m, tags[j - 1]))
    } else {
        order_places(keys, m, tags, j - 1)
    }
}

/// The number of rows shown: one for each action that has a key.
pub open spec fn row_count(keys: Seq<usize>, actions: Seq<ActionView>) -> int {
    if keys.len() < actions.len() { keys.len() as int } else { actions.len() as int }
}

proof fn order_places_facts(keys: Seq<usize>, m: int, tags: Seq<usize>, j: int)
    requires
        0 <= j <= tags.len(),
        0 <= m <= keys.len(),
        forall|a: int, b: int| 0 <= a < b < keys.len() ==> keys[a] != keys[b],
    ensures
        forall|i: int| 0 <= i < order_places(keys, m, tags, j).len() ==> {
            let p = #[trigger] order_places(keys, m, tags, j)[i];
            &&& 0 <= p < m
            &&& exists|w: int| 0 <= w < j && last_place(tags, w) && #[trigger] tags[w] == keys[p]
        },
        order_places(keys, m, tags, j).no_duplicates(),
        forall|w: int| 0 <= w < j && last_place(tags, w) && among(keys, m, #[trigger] tags[w])
            ==> order_places(keys, m, tags, j).contains(place_of(keys, m, tags[w])),
    decreases j,
{
    if j > 0 {
        order_places_facts(keys, m, tags, j - 1);
        let rest = order_places(keys, m, tags, j - 1);
        let t = tags[j - 1];
        if last_place(tags, j - 1) && among(keys, m, t) {
            let p = place_of(keys, m, t);
            let ps = rest.push(p);
            assert(ps == order_places(keys, m, tags, j));
            assert(0 <= p < m && keys[p] == t);
            assert forall|i: int| 0 <= i < ps.len() implies {
                let q = #[trigger] ps[i];
                &&& 0 <= q < m
                &&& exists|w: int| 0 <= w < j && last_place(tags, w) && #[trigger] tags[w] == keys[q]
            } by {
                if i < rest.len() {
                    assert(ps[i] == rest[i]);
                } else {
                    assert(tags[j - 1] == keys[p]);
                }
            }
            assert forall|a: int, b: int| 0 <= a < ps.len() && 0 <= b < ps.len() && a != b implies ps[a] != ps[b] by {
                if a < rest.len() && b < rest.len() {
                    assert(ps[a] == rest[a] && ps[b] == rest[b]);
                } else if a < rest.len() {
                    let q = rest[a];
                    assert(ps[a] == q);
                    let w = choose|w: int| 0 <= w < j - 1 && last_place(tags, w) && #[trigger] tags[w] == keys[q];
                    if q == p {
                        assert(tags[w] == tags[j - 1]);
                    }
                } else {
                    let q = rest[b];
                    assert(ps[b] == q);
                    let w = choose|w: int| 0 <= w < j - 1 && last_place(tags, w) && #[trigger] tags[w] == keys[q];
                    if q == p {
                        assert(tags[w] == tags[j - 1]);
                    }
                }
            }
            assert forall|w: int| 0 <= w < j && last_place(tags, w) && among(keys, m, #[trigger] tags[w])
                implies ps.contains(place_of(keys, m, tags[w])) by {
                if w < j - 1 {
                    let i = choose|i: int| 0 <= i < rest.len() && rest[i] == place_of(keys, m, tags[w]);
                    assert(ps[i] == rest[i]);
                } else {
                    assert(ps[rest.len() as int] == p);
                }
            }
        } else {
            assert(rest == order_places(keys, m, tags, j));
            assert forall|w: int| 0 <= w < j && last_place(tags, w) && among(keys, m, #[trigger] tags[w])
                implies rest.contains(place_of(keys, m, tags[w])) by {
                if w == j - 1 {
                    assert(false);
                }
            }
        }
    }
}

/// Reordering the rows by tags that name every row's key keeps every row,
/// each once: the places that come out are the places of the rows, each
/// exactly once, in some order.
pub proof fn reordering_keeps_each_row(keys: Seq<usize>, m: int, tags: Seq<usize>)
    requires
        0 <= m <= keys.len(),
        forall|a: int, b: int| 0 <= a < b < keys.len() ==> keys[a] != keys[b],
        forall|p: int| 0 <= p < m ==> tags.contains(#[trigger] keys[p]),
    ensures
        order_places(keys, m, tags, tags.len() as int).len() == m,
        order_places(keys, m, tags, tags.len() as int).no_duplicates(),
        forall|p: int| 0 <= p < m <==> order_places(keys, m, tags, tags.len() as int).contains(p),
{
    let ps = order_places(keys, m, tags, tags.len() as int);
    order_places_facts(keys, m, tags, tags.len() as int);
    assert forall|p: int| 0 <= p < m implies ps.contains(p) by {
        let key = keys[p];
        tags.index_of_last_ensures(key);
        let w = tags.index_of_last(key)->0;
        assert(last_place(tags, w));
        assert(among(keys, m, tags[w]));
        let q = place_of(keys, m, tags[w]);
        assert(keys[q] == keys[p]);
        if q != p {
            if q < p {
                assert(keys[q] != keys[p]);
            } else {
                assert(keys[p] != keys[q]);
            }
        }
    }
    assert forall|p: int| ps.contains(p) implies 0 <= p < m by {
        let i = choose|i: int| 0 <= i < ps.len() && ps[i] == p;
        assert(0 <= ps[i] < m);
    }
    assert(ps.to_set() =~= vstd::set_lib::set_int_range(0, m));
    ps.unique_seq_to_set();
    vstd::set_lib::lemma_int_range(0, m);
}

/// The editor of one configuration: the profile as stored, the name it is
/// stored under (`None` for a new one), the name typed, the modes ticked, a
/// key for each action's row, the next key, the action being edited (with
/// the place it replaces) and the error shown.
pub struct ProfileEditor {
    pub profile: Profile,
    pub key: Option<String>,
    pub name: String,
    pub when: Vec<Mode>,
    pub keys: Vec<usize>,
    pub next: usize,
    pub editing: Option<(Option<usize>, Action)>,
    pub error: String,
}

impl ProfileEditor {
    /// The rows' keys are told apart.
    pub open spec fn wf(&self) -> bool {
        distinct_below(self.keys@, self.next)
    }

    /// Whether the place of `key` among the rows' keys, where it has one, holds an action.
    pub open spec fn shows_action(&self, key: usize) -> bool {
        forall|i: int| 0 <= i < self.keys@.len() && self.keys@[i] == key ==> i < self.profile@.actions.len()
    }

    /// An editor of `profile`, stored under `name` (`None` for a new one):
    /// its actions get the keys 0, 1, ...
    pub fn new(name: Option<String>, profile: Profile) -> (r: ProfileEditor)
        requires
            profile@.actions.len() <= usize::MAX,
        ensures
            r.wf(),
            r.profile@ == profile@,
            r.key == name,
            r.name@ == profile@.name,
            r.when@ == profile@.when,
            r.keys@ == fresh_keys(0, profile@.actions.len() as int),
            r.next == profile@.actions.len(),
            r.editing is None,
            r.error@.len() == 0,
    {
        let count = profile.actions.len();
        let mut keys: Vec<usize> = Vec::new();
        let mut i: usize = 0;
        while i < count
            invariant
                i <= count,
                keys@ == fresh_keys(0, i as int),
            decreases count - i,
        {
            keys.push(i);
            i = i + 1;
            assert(keys@ =~= fresh_keys(0, i as int));
        }
        ProfileEditor {
            name: profile.name.clone(),
            when: profile.when.clone(),
            profile,
            key: name,
            keys,
            next: count,
            editing: None,
            error: String::new(),
        }
    }

    /// The profile to store for the name typed; `None` where there is nothing
    /// to store: a new profile, or a name unchanged.
    pub fn commit_name(&self) -> (r: Option<Profile>)
        ensures
            self.key is None || self.name@ == self.profile@.name ==> r is None,
            self.key is Some && self.name@ != self.profile@.name ==> (r matches Some(p)
                && p@ == (ProfileView { name: self.name@, ..self.profile@ })),
    {
        if self.key.is_none() || same_text(self.name.as_str(), self.profile.name.as_str()) {
            return None;
        }
        let mut profile = self.profile.clone();
        profile.name = self.name.clone();
        Some(profile)
    }

    /// `profile` was stored: it is the profile edited now, under its name, and
    /// the error is cleared.
    pub fn saved(&mut self, profile: Profile)
        ensures
            final(self).profile@ == profile@,
            final(self).key matches Some(k) && k@ == profile@.name,
            final(self).error@.len() == 0,
            final(self).name == old(self).name,
            final(self).when == old(self).when,
            final(self).keys == old(self).keys,
            final(self).next == old(self).next,
            final(self).editing == old(self).editing,
    {
        self.key = Some(profile.name.clone());
        self.profile = profile;
        self.error = String::new();
    }

    /// Storing failed: its error is shown.
    pub fn failed(&mut self, error: String)
        ensures
            final(self).error@ == error@,
            final(self).profile == old(self).profile,
            final(self).key == old(self).key,
            final(self).name == old(self).name,
            final(self).when == old(self).when,
            final(self).keys == old(self).keys,
            final(self).next == old(self).next,
            final(self).editing == old(self).editing,
    {
        self.error = error;
    }

    /// Ticks or unticks `mode`; the profile to store then runs on the modes ticked.
    pub fn set_when(&mut self, mode: Mode, enabled: bool) -> (r: Profile)
        ensures
            final(self).when@ == chosen_modes(
                if mode == Mode::Light { enabled } else { old(self).when@.contains(Mode::Light) },
                if mode == Mode::Dark { enabled } else { old(self).when@.contains(Mode::Dark) },
            ),
            r@ == (ProfileView { when: final(self).when@, ..old(self).profile@ }),
            final(self).profile == old(self).profile,
            final(self).key == old(self).key,
            final(self).name == old(self).name,
            final(self).keys == old(self).keys,
            final(self).next == old(self).next,
            final(self).editing == old(self).editing,
            final(self).error == old(self).error,
    {
        let light = if mode == Mode::Light { enabled } else { has_mode(&self.when, Mode::Light) };
        let dark = if mode == Mode::Dark { enabled } else { has_mode(&self.when, Mode::Dark) };
        self.when = modes_from_flags(light, dark);
        let mut profile = self.profile.clone();
        profile.when = modes_from_flags(light, dark);
        profile
    }

    /// Starts editing a new action, to be added at the end.
    pub fn add(&mut self, action: Action)
        ensures
            final(self).editing matches Some((None, a)) && a@ == action@,
            final(self).profile == old(self).profile,
            final(self).keys == old(self).keys,
            final(self).next == old(self).next,
            final(self).error == old(self).error,
    {
        self.editing = Some((None, action));
    }

    /// Starts editing the action whose row has `key`; nothing happens where no row has it.
    pub fn edit(&mut self, key: usize)
        requires
            old(self).shows_action(key),
        ensures
            !old(self).keys@.contains(key) ==> final(self).editing == old(self).editing,
            forall|i: int| 0 <= i < old(self).keys@.len() && old(self).keys@[i] == key
                && (forall|k: int| 0 <= k < i ==> old(self).keys@[k] != key)
                ==> (final(self).editing matches Some((Some(j), a)) && j == i
                    && a@ == old(self).profile@.actions[i]),
            final(self).profile == old(self).profile,
            final(self).keys == old(self).keys,
            final(self).next == old(self).next,
            final(self).error == old(self).error,
    {
        match key_position(&self.keys, key) {
            Some(i) => {
                let action = self.profile.actions[i].clone();
                self.editing = Some((Some(i), action));
            },
            None => {},
        }
    }

    /// Going back: stops editing an action where one is edited, and says
    /// whether nothing was (then the editor itself is left).
    pub fn back(&mut self) -> (r: bool)
        ensures
            r == old(self).editing is None,
            final(self).editing is None,
            final(self).profile == old(self).profile,
            final(self).keys == old(self).keys,
            final(self).next == old(self).next,
            final(self).error == old(self).error,
    {
        let none = self.editing.is_none();
        self.editing = None;
        none
    }

    /// Whether a new profile can be created: its name is not blank.
    pub fn can_create(&self) -> (r: bool)
        ensures
            r == !blank(self.name@),
    {
        !is_blank(self.name.as_str())
    }

    /// The new profile to store: the name typed, and nothing else.
    pub fn create(&self) -> (r: Profile)
        ensures
            r@ == (ProfileView { name: self.name@, when: Seq::empty(), actions: Seq::empty() }),
    {
        let mut profile = Profile::default();
        profile.name = self.name.clone();
        profile
    }

    /// The action editor closed: the profile is reloaded from what is stored
    /// (`None` where it is gone), and rows that it added get new keys.
    pub fn close_action(&mut self, stored: Option<Profile>)
        requires
            old(self).wf(),
            stored matches Some(p) ==> old(self).next + p@.actions.len() <= usize::MAX,
        ensures
            final(self).wf(),
            final(self).editing is None,
            final(self).error == old(self).error,
            stored is None ==> final(self).profile == old(self).profile && final(self).keys == old(self).keys
                && final(self).next == old(self).next,
            stored matches Some(p) ==> {
                let extra = if p@.actions.len() > old(self).keys@.len() {
                    p@.actions.len() - old(self).keys@.len()
                } else {
                    0
                };
                &&& final(self).profile@ == p@
                &&& final(self).keys@ == old(self).keys@ + fresh_keys(old(self).next, extra)
                &&& final(self).next == old(self).next + extra
            },
    {
        self.editing = None;
        match stored {
            Some(profile) => {
                let ghost keys0 = self.keys@;
                let ghost next0 = self.next;
                let ghost error0 = self.error;
                while self.keys.len() < profile.actions.len()
                    invariant
                        keys0.len() <= self.keys@.len(),
                        self.keys@.len() <= profile@.actions.len() || self.keys@.len() == keys0.len(),
                        self.next == next0 + (self.keys@.len() - keys0.len()),
                        next0 + profile@.actions.len() <= usize::MAX,
                        self.keys@ == keys0 + fresh_keys(next0, self.keys@.len() - keys0.len()),
                        distinct_below(self.keys@, self.next),
                        self.editing is None,
                        self.error == error0,
                    decreases profile@.actions.len() - self.keys@.len(),
                {
                    let ghost before = self.keys@;
                    self.keys.push(self.next);
                    self.next = self.next + 1;
                    assert(self.keys@ =~= keys0 + fresh_keys(next0, self.keys@.len() - keys0.len()));
                    assert forall|i: int| 0 <= i < self.keys@.len() implies self.keys@[i] < self.next by {
                        if i < before.len() {
                            assert(self.keys@[i] == before[i]);
                        }
                    }
                    assert forall|i: int, j: int| 0 <= i < j < self.keys@.len() implies self.keys@[i] != self.keys@[j] by {
                        if j < before.len() {
                            assert(self.keys@[i] == before[i] && self.keys@[j] == before[j]);
                        } else {
                            assert(self.keys@[i] == before[i]);
                        }
                    }
                }
                self.profile = profile;
            },
            None => {},
        }
    }

    /// The place of the action whose row has `key`, with the profile to store
    /// without it; `None` where no row has the key.
    pub fn remove(&self, key: usize) -> (r: Option<(usize, Profile)>)
        requires
            self.shows_action(key),
        ensures
            !self.keys@.contains(key) ==> r is None,
            forall|i: int| 0 <= i < self.keys@.len() && self.keys@[i] == key
                && (forall|k: int| 0 <= k < i ==> self.keys@[k] != key)
                ==> (r matches Some((j, p)) && j == i
                    && p@ == (ProfileView { actions: self.profile@.actions.remove(i), ..self.profile@ })),
    {
        match key_position(&self.keys, key) {
            Some(i) => match self.profile.without_action(i) {
                Some(profile) => Some((i, profile)),
                None => None,
            },
            None => None,
        }
    }

    /// The profile without action `index` was stored: its row goes too.
    pub fn removed(&mut self, index: usize, profile: Profile)
        requires
            old(self).wf(),
            index < old(self).keys@.len(),
        ensures
            final(self).wf(),
            final(self).profile@ == profile@,
            final(self).key matches Some(k) && k@ == profile@.name,
            final(self).keys@ == old(self).keys@.remove(index as int),
            final(self).next == old(self).next,
            final(self).error@.len() == 0,
    {
        self.saved(profile);
        self.keys.remove(index);
        assert forall|i: int, j: int| 0 <= i < j < self.keys@.len() implies self.keys@[i] != self.keys@[j] by {
            let (a, b) = (if i < index { i } else { i + 1 }, if j < index { j } else { j + 1 });
            assert(self.keys@[i] == old(self).keys@[a] && self.keys@[j] == old(self).keys@[b]);
        }
        assert forall|i: int| 0 <= i < self.keys@.len() implies self.keys@[i] < self.next by {
            let a = if i < index { i } else { i + 1 };
            assert(self.keys@[i] == old(self).keys@[a]);
        }
    }
    /// The rows reordered by `tags`, the keys of the rows in their new order:
    /// a row comes where its key stands last among the tags. Gives the keys
    /// in that order and the profile to store with its actions so ordered.
    /// Every row's key must be among the tags.
    pub fn reorder(&self, tags: &Vec<usize>) -> (r: (Vec<usize>, Profile))
        requires
            self.wf(),
            forall|p: int| 0 <= p < row_count(self.keys@, self.profile@.actions)
                ==> tags@.contains(#[trigger] self.keys@[p]),
        ensures
            ({
                let ps = order_places(self.keys@, row_count(self.keys@, self.profile@.actions), tags@, tags@.len() as int);
                &&& r.0@ == ps.map_values(|p: int| self.keys@[p])
                &&& r.1@ == (ProfileView { actions: ps.map_values(|p: int| self.profile@.actions[p]), ..self.profile@ })
                &&& r.0@.len() == row_count(self.keys@, self.profile@.actions)
                &&& distinct_below(r.0@, self.next)
            }),
    {
        let m: usize = if self.keys.len() < self.profile.actions.len() { self.keys.len() } else { self.profile.actions.len() };
        let ghost keys = self.keys@;
        let ghost actions = self.profile@.actions;
        let mut order: Vec<usize> = Vec::new();
        let mut moved: Vec<Action> = Vec::new();
        let mut j: usize = 0;
        while j < tags.len()
            invariant
                j <= tags@.len(),
                m == row_count(keys, actions),
                keys == self.keys@,
                actions == self.profile@.actions,
                self.wf(),
                order@ == order_places(keys, m as int, tags@, j as int).map_values(|p: int| keys[p]),
                moved.deep_view() == order_places(keys, m as int, tags@, j as int).map_values(|p: int| actions[p]),
            decreases tags@.len() - j,
        {
            let tag = tags[j];
            let mut last = true;
            let mut k: usize = j + 1;
            while k < tags.len()
                invariant
                    j < tags@.len(),
                    j + 1 <= k <= tags@.len(),
                    tag == tags@[j as int],
                    last <==> forall|q: int| j < q < k ==> tags@[q] != tags@[j as int],
                decreases tags@.len() - k,
            {
                if tags[k] == tag {
                    last = false;
                }
                k = k + 1;
            }
            let ghost before = order_places(keys, m as int, tags@, j as int);
            if last {
                match key_position(&self.keys, tag) {
                    Some(p) => {
                        if p < m {
                            assert(among(keys, m as int, tag));
                            let ghost q = place_of(keys, m as int, tag);
                            assert(q == p) by {
                                if q < p {
                                    assert(keys[q] != tag);
                                } else if q > p {
                                    assert(keys[p as int] != keys[q]);
                                }
                            }
                            order.push(self.keys[p]);
                            let ghost moved0 = moved.deep_view();
                            let action = self.profile.actions[p].clone();
                            assert(action@ == actions[p as int]);
                            moved.push(action);
                            assert(moved.deep_view() =~= moved0.push(actions[p as int]));
                            assert(order_places(keys, m as int, tags@, j + 1) == before.push(p as int));
                            assert(order@ =~= before.push(p as int).map_values(|p: int| keys[p]));
                            assert(moved.deep_view() =~= before.push(p as int).map_values(|p: int| actions[p]));
                        } else {
                            assert(!among(keys, m as int, tag)) by {
                                if among(keys, m as int, tag) {
                                    let w = choose|w: int| 0 <= w < m && #[trigger] keys[w] == tag;
                                    assert(keys[w] != tag);
                                }
                            }
                            assert(order_places(keys, m as int, tags@, j + 1) == before);
                        }
                    },
                    None => {
                        assert(!among(keys, m as int, tag)) by {
                            if among(keys, m as int, tag) {
                                let w = choose|w: int| 0 <= w < m && #[trigger] keys[w] == tag;
                                assert(keys.contains(tag));
                            }
                        }
                        assert(order_places(keys, m as int, tags@, j + 1) == before);
                    },
                }
            } else {
                assert(!last_place(tags@, j as int));
                assert(order_places(keys, m as int, tags@, j + 1) == before);
            }
            j = j + 1;
        }
        proof {
            reordering_keeps_each_row(keys, m as int, tags@);
            let ps = order_places(keys, m as int, tags@, tags@.len() as int);
            assert forall|a: int, b: int| 0 <= a < b < order@.len() implies order@[a] != order@[b] by {
                assert(ps.contains(ps[a]) && ps.contains(ps[b]));
                assert(order@[a] == keys[ps[a]] && order@[b] == keys[ps[b]]);
                assert(ps[a] != ps[b]);
                if ps[a] < ps[b] {
                    assert(keys[ps[a]] != keys[ps[b]]);
                } else {
                    assert(keys[ps[b]] != keys[ps[a]]);
                }
            }
            assert forall|i: int| 0 <= i < order@.len() implies order@[i] < self.next by {
                assert(ps.contains(ps[i]));
                assert(order@[i] == keys[ps[i]]);
            }
        }
        let mut profile = self.profile.clone();
        profile.actions = moved;
        (order, profile)
    }

    /// The reordered profile was stored: the rows take the keys in their new order.
    pub fn reordered(&mut self, keys: Vec<usize>, profile: Profile)
        requires
            distinct_below(keys@, old(self).next),
        ensures
            final(self).wf(),
            final(self).profile@ == profile@,
            final(self).key matches Some(k) && k@ == profile@.name,
            final(self).keys == keys,
            final(self).next == old(self).next,
            final(self).error@.len() == 0,
    {
        self.saved(profile);
        self.keys = keys;
    }
}

} // verus!
