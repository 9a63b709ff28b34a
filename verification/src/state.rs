use vstd::prelude::*;

use crate::addr::Addr;

verus! {

/// Global contract settings, written once at instantiation.
pub struct Config {
    /// The sole identity authorized to submit field-update operations.
    pub admin: Addr,
    /// The constant added to every computed score.
    pub base_score: u64,
}

/// The mathematical content of a [`Config`].
#[verifier::ext_equal]
pub struct ConfigView {
    pub admin: Seq<char>,
    pub base_score: u64,
}

impl View for Config {
    type V = ConfigView;

    open spec fn view(&self) -> ConfigView {
        ConfigView { admin: self.admin@, base_score: self.base_score }
    }
}

impl Clone for Config {
    fn clone(&self) -> (r: Self)
        ensures
            r == *self,
    {
        Config { admin: self.admin.clone(), base_score: self.base_score }
    }
}

/// One user's tracked activity values plus the derived score.
///
/// `credit_score` is valid only as of the last score calculation for the
/// user: a metric update leaves it stale until it is recomputed.
#[derive(Clone, Copy, Debug, PartialEq, Eq, Structural)]
pub struct UserMetrics {
    /// Liquidity amount provided by the user.
    pub liquidity: u128,
    /// Number of transactions made by the user.
    pub transaction_count: u64,
    /// Total value of assets held by the user.
    pub assets_held: u128,
    /// Number of protocol interactions by the user.
    pub protocol_usage_count: u64,
    /// The score as of its last calculation.
    pub credit_score: u64,
}

/// The record a user has before any update: every field zero.
pub open spec fn zero_metrics() -> UserMetrics {
    UserMetrics {
        liquidity: 0,
        transaction_count: 0,
        assets_held: 0,
        protocol_usage_count: 0,
        credit_score: 0,
    }
}

impl Default for UserMetrics {
    fn default() -> (r: Self)
        ensures
            r == zero_metrics(),
    {
        UserMetrics {
            liquidity: 0,
            transaction_count: 0,
            assets_held: 0,
            protocol_usage_count: 0,
            credit_score: 0,
        }
    }
}

/// The mathematical content of a [`ContractState`]: the one optional config
/// record and the user records as a map keyed by identity.
#[verifier::ext_equal]
pub struct StateView {
    pub config: Option<ConfigView>,
    pub users: Map<Seq<char>, UserMetrics>,
}

/// The map an association list denotes: later entries would win, but the
/// store keeps keys distinct, so each key has the one entry that holds it.
spec fn map_of(entries: Seq<(Addr, UserMetrics)>) -> Map<Seq<char>, UserMetrics>
    decreases entries.len(),
{
    if entries.len() == 0 {
        Map::empty()
    } else {
        map_of(entries.drop_last()).insert(entries.last().0@, entries.last().1)
    }
}

/// No two entries share a key.
spec fn distinct_keys(entries: Seq<(Addr, UserMetrics)>) -> bool {
    forall|i: int, j: int|
        0 <= i < j < entries.len() ==> (#[trigger] entries[i].0@) != (#[trigger] entries[j].0@)
}

proof fn lemma_map_of_contains(entries: Seq<(Addr, UserMetrics)>, key: Seq<char>)
    ensures
        map_of(entries).contains_key(key) <==> exists|i: int|
            0 <= i < entries.len() && (#[trigger] entries[i].0@) == key,
    decreases entries.len(),
{
    if entries.len() > 0 {
        let prefix = entries.drop_last();
        lemma_map_of_contains(prefix, key);
        let last = entries.len() - 1;
        if entries[last].0@ == key {
            assert(0 <= last < entries.len() && entries[last].0@ == key);
        } else {
            if map_of(entries).contains_key(key) {
                let i = choose|i: int| 0 <= i < prefix.len() && (#[trigger] prefix[i].0@) == key;
                assert(entries[i].0@ == key);
            }
            if exists|i: int| 0 <= i < entries.len() && (#[trigger] entries[i].0@) == key {
                let i = choose|i: int| 0 <= i < entries.len() && (#[trigger] entries[i].0@) == key;
                assert(prefix[i].0@ == key);
            }
        }
    }
}

proof fn lemma_map_of_index(entries: Seq<(Addr, UserMetrics)>, i: int)
    requires
        distinct_keys(entries),
        0 <= i < entries.len(),
    ensures
        map_of(entries).contains_key(entries[i].0@),
        map_of(entries)[entries[i].0@] == entries[i].1,
    decreases entries.len(),
{
    let last = entries.len() - 1;
    if i < last {
        let prefix = entries.drop_last();
        assert forall|a: int, b: int| 0 <= a < b < prefix.len() implies (#[trigger] prefix[a].0@)
            != (#[trigger] prefix[b].0@) by {
            assert(entries[a].0@ != entries[b].0@);
        }
        lemma_map_of_index(prefix, i);
        assert(entries[last].0@ != entries[i].0@);
    }
}

proof fn lemma_map_of_update(entries: Seq<(Addr, UserMetrics)>, i: int, user: Addr, m: UserMetrics)
    requires
        distinct_keys(entries),
        0 <= i < entries.len(),
        entries[i].0@ == user@,
    ensures
        map_of(entries.update(i, (user, m))) == map_of(entries).insert(user@, m),
        distinct_keys(entries.update(i, (user, m))),
    decreases entries.len(),
{
    let t = entries.update(i, (user, m));
    let last = entries.len() - 1;
    assert forall|a: int, b: int| 0 <= a < b < t.len() implies (#[trigger] t[a].0@)
        != (#[trigger] t[b].0@) by {
        assert(t[a].0@ == entries[a].0@);
        assert(t[b].0@ == entries[b].0@);
        assert(entries[a].0@ != entries[b].0@);
    }
    if i == last {
        assert(t.drop_last() =~= entries.drop_last());
        assert(map_of(t) =~= map_of(entries).insert(user@, m));
    } else {
        let prefix = entries.drop_last();
        assert forall|a: int, b: int| 0 <= a < b < prefix.len() implies (#[trigger] prefix[a].0@)
            != (#[trigger] prefix[b].0@) by {
            assert(entries[a].0@ != entries[b].0@);
        }
        assert(t.drop_last() =~= prefix.update(i, (user, m)));
        lemma_map_of_update(prefix, i, user, m);
        assert(t.last() == entries.last());
        assert(entries[last].0@ != user@);
        assert(map_of(t) =~= map_of(entries).insert(user@, m));
    }
}

proof fn lemma_map_of_push(entries: Seq<(Addr, UserMetrics)>, user: Addr, m: UserMetrics)
    requires
        distinct_keys(entries),
        forall|i: int| 0 <= i < entries.len() ==> (#[trigger] entries[i].0@) != user@,
    ensures
        map_of(entries.push((user, m))) == map_of(entries).insert(user@, m),
        distinct_keys(entries.push((user, m))),
{
    let t = entries.push((user, m));
    assert(t.drop_last() =~= entries);
    assert(map_of(t) =~= map_of(entries).insert(user@, m));
    assert forall|a: int, b: int| 0 <= a < b < t.len() implies (#[trigger] t[a].0@)
        != (#[trigger] t[b].0@) by {
        if b < t.len() - 1 {
            assert(entries[a].0@ != entries[b].0@);
        } else {
            assert(entries[a].0@ != user@);
        }
    }
}

/// The two persistent stores of one contract instance, held in memory: the
/// config record and the per-user metrics records.
pub struct ContractState {
    config: Option<Config>,
    users: Vec<(Addr, UserMetrics)>,
}

impl View for ContractState {
    type V = StateView;

    closed spec fn view(&self) -> StateView {
        StateView {
            config: match self.config {
                Some(c) => Some(c@),
                None => None,
            },
            users: map_of(self.users@),
        }
    }
}

impl ContractState {
    /// The store's representation invariant: user records are keyed
    /// uniquely, so each identity denotes at most one entry.
    pub closed spec fn wf(&self) -> bool {
        distinct_keys(self.users@)
    }

    /// A fresh instance: no config record, no user records.
    pub fn new() -> (s: Self)
        ensures
            s.wf(),
            s@.config is None,
            s@.users == Map::<Seq<char>, UserMetrics>::empty(),
    {
        let s = ContractState { config: None, users: Vec::new() };
        proof {
            assert(s@.users =~= Map::<Seq<char>, UserMetrics>::empty());
        }
        s
    }

    /// Reads the config record, if one was ever saved.
    pub fn load_config(&self) -> (r: Option<Config>)
        ensures
            match r {
                Some(c) => self@.config == Some(c@),
                None => self@.config is None,
            },
    {
        match &self.config {
            Some(c) => Some(c.clone()),
            None => None,
        }
    }

    /// Overwrites the config record; user records are untouched.
    pub fn save_config(&mut self, config: Config)
        requires
            old(self).wf(),
        ensures
            final(self).wf(),
            final(self)@.config == Some(config@),
            final(self)@.users == old(self)@.users,
    {
        self.config = Some(config);
    }

    /// The index of the user's entry, if the user has a record.
    fn find_user(&self, user: &Addr) -> (r: Option<usize>)
        ensures
            match r {
                Some(j) => j < self.users@.len() && self.users@[j as int].0@ == user@,
                None => forall|t: int|
                    0 <= t < self.users@.len() ==> (#[trigger] self.users@[t].0@) != user@,
            },
    {
        let n = self.users.len();
        let mut j: usize = 0;
        while j < n
            invariant
                0 <= j <= n,
                n == self.users@.len(),
                forall|t: int| 0 <= t < j ==> (#[trigger] self.users@[t].0@) != user@,
            decreases n - j,
        {
            if self.users[j].0 == *user {
                return Some(j);
            }
            j += 1;
        }
        None
    }

    /// Reads the user's record, or `None` if the user has none.
    pub fn may_load_user(&self, user: &Addr) -> (r: Option<UserMetrics>)
        requires
            self.wf(),
        ensures
            self@.users.contains_key(user@) ==> r == Some(self@.users[user@]),
            !self@.users.contains_key(user@) ==> r is None,
    {
        match self.find_user(user) {
            Some(j) => {
                proof {
                    lemma_map_of_index(self.users@, j as int);
                }
                Some(self.users[j].1)
            },
            None => {
                proof {
                    lemma_map_of_contains(self.users@, user@);
                }
                None
            },
        }
    }

    /// Writes the user's full record, creating or overwriting its entry;
    /// the config record and every other user's record are untouched.
    pub fn save_user(&mut self, user: &Addr, metrics: UserMetrics)
        requires
            old(self).wf(),
        ensures
            final(self).wf(),
            final(self)@.config == old(self)@.config,
            final(self)@.users == old(self)@.users.insert(user@, metrics),
    {
        match self.find_user(user) {
            Some(j) => {
                proof {
                    lemma_map_of_update(self.users@, j as int, *user, metrics);
                }
                self.users.set(j, (user.clone(), metrics));
            },
            None => {
                proof {
                    lemma_map_of_push(self.users@, *user, metrics);
                }
                self.users.push((user.clone(), metrics));
            },
        }
    }
}

} // verus!
