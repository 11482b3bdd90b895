use vstd::prelude::*;

verus! {

/// The contract's operating parameters.
#[derive(Debug, PartialEq, Eq)]
pub struct Config {
    pub owner: String,
    pub ticket_price: u128,
    pub reward_percentage: u8,
    pub admin_percentage: u8,
    pub shoot_duration: u8,
}

#[derive(Debug, PartialEq, Eq)]
struct DeadlineEntry {
    player: String,
    deadline: u64,
}

/// The eligibility ledger: for each player who ever shot, the second at which
/// their shooting window closes. Entries are overwritten, never removed.
#[derive(Debug, PartialEq, Eq)]
pub struct ShootDeadlines {
    entries: Vec<DeadlineEntry>,
}

spec fn entries_map(s: Seq<DeadlineEntry>) -> Map<Seq<char>, u64>
    decreases s.len(),
{
    if s.len() == 0 {
        Map::empty()
    } else {
        entries_map(s.drop_last()).insert(s.last().player@, s.last().deadline)
    }
}

spec fn unique_players(s: Seq<DeadlineEntry>) -> bool {
    forall|i: int, j: int| 0 <= i < j < s.len() ==> s[i].player@ != s[j].player@
}

proof fn lemma_entries_map_index(s: Seq<DeadlineEntry>, i: int)
    requires
        unique_players(s),
        0 <= i < s.len(),
    ensures
        entries_map(s).contains_key(s[i].player@),
        entries_map(s)[s[i].player@] == s[i].deadline,
    decreases s.len(),
{
    if i < s.len() - 1 {
        lemma_entries_map_index(s.drop_last(), i);
    }
}

proof fn lemma_entries_map_absent(s: Seq<DeadlineEntry>, k: Seq<char>)
    requires
        forall|i: int| 0 <= i < s.len() ==> s[i].player@ != k,
    ensures
        !entries_map(s).contains_key(k),
    decreases s.len(),
{
    if s.len() > 0 {
        lemma_entries_map_absent(s.drop_last(), k);
    }
}

proof fn lemma_entries_map_update(s: Seq<DeadlineEntry>, i: int, e: DeadlineEntry)
    requires
        unique_players(s),
        0 <= i < s.len(),
        e.player@ == s[i].player@,
    ensures
        entries_map(s.update(i, e)) == entries_map(s).insert(e.player@, e.deadline),
    decreases s.len(),
{
    let t = s.update(i, e);
    if i == s.len() - 1 {
        assert(t.drop_last() =~= s.drop_last());
        assert(!entries_map(s.drop_last()).contains_key(e.player@)) by {
            lemma_entries_map_absent(s.drop_last(), e.player@);
        }
        assert(entries_map(t) =~= entries_map(s).insert(e.player@, e.deadline));
    } else {
        assert(t.drop_last() =~= s.drop_last().update(i, e));
        lemma_entries_map_update(s.drop_last(), i, e);
        assert(entries_map(t) =~= entries_map(s).insert(e.player@, e.deadline));
    }
}

impl ShootDeadlines {
    /// Each player appears at most once.
    pub closed spec fn wf(&self) -> bool {
        unique_players(self.entries@)
    }

    /// Each player's recorded deadline.
    pub closed spec fn view(&self) -> Map<Seq<char>, u64> {
        entries_map(self.entries@)
    }

    /// An empty ledger.
    pub fn new() -> (r: ShootDeadlines)
        ensures
            r.wf(),
            r.view() == Map::<Seq<char>, u64>::empty(),
    {
        ShootDeadlines { entries: Vec::new() }
    }

    /// The deadline recorded for `player`, if any.
    pub fn lookup(&self, player: &String) -> (r: Option<u64>)
        requires
            self.wf(),
        ensures
            r == (if self.view().contains_key(player@) {
                Some(self.view()[player@])
            } else {
                None
            }),
    {
        let mut i: usize = 0;
        while i < self.entries.len()
            invariant
                i <= self.entries@.len(),
                unique_players(self.entries@),
                forall|j: int| 0 <= j < i ==> self.entries@[j].player@ != player@,
            decreases self.entries@.len() - i,
        {
            if self.entries[i].player == *player {
                proof {
                    lemma_entries_map_index(self.entries@, i as int);
                }
                return Some(self.entries[i].deadline);
            }
            i = i + 1;
        }
        proof {
            lemma_entries_map_absent(self.entries@, player@);
        }
        None
    }

    /// Records `deadline` for `player`, replacing what was there.
    pub fn record_shoot(&mut self, player: String, deadline: u64)
        requires
            old(self).wf(),
        ensures
            final(self).wf(),
            final(self).view() == old(self).view().insert(player@, deadline),
    {
        let mut i: usize = 0;
        while i < self.entries.len()
            invariant
                i <= self.entries@.len(),
                self.entries@ == old(self).entries@,
                unique_players(self.entries@),
                forall|j: int| 0 <= j < i ==> self.entries@[j].player@ != player@,
            decreases self.entries@.len() - i,
        {
            if self.entries[i].player == player {
                let e = DeadlineEntry { player, deadline };
                proof {
                    lemma_entries_map_update(self.entries@, i as int, e);
                }
                self.entries.set(i, e);
                return;
            }
            i = i + 1;
        }
        let e = DeadlineEntry { player, deadline };
        proof {
            assert(self.entries@.push(e).drop_last() =~= self.entries@);
        }
        self.entries.push(e);
    }
}

} // verus!

verus! {

/// Everything the contract keeps between operations.
#[derive(Debug, PartialEq, Eq)]
pub struct GameState {
    pub config: Config,
    /// The denomination of tickets, of the pool and of payouts; fixed at creation.
    pub main_denom: String,
    pub deadlines: ShootDeadlines,
}

impl GameState {
    pub open spec fn wf(&self) -> bool {
        self.deadlines.wf()
    }
}

} // verus!
