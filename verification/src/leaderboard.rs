//! The global leaderboard: entries derived from player statistics,
//! ranked by wins, then win rate, then total games, all descending, and
//! capped at the top 100.  The ranking is a pure function of the entry
//! sequence, so rebuilding it from unchanged statistics is deterministic
//! and idempotent.

use vstd::prelude::*;
use vstd::seq_lib::group_to_multiset_ensures;
use vstd::seq_lib::to_multiset_insert;
use crate::chain::ChainId;

verus! {

/// The leaderboard never holds more than this many entries.
pub const MAX_LEADERBOARD_LEN: usize = 100;

/// One row of the global leaderboard, a projection of one player's
/// statistics.
#[derive(Clone, Debug)]
pub struct LeaderboardEntry {
    pub chain_id: ChainId,
    pub player_name: Option<String>,
    pub wins: u64,
    pub losses: u64,
    pub total_games: u64,
}

impl LeaderboardEntry {
    /// Every counted game was won or lost.
    pub open spec fn wf(self) -> bool {
        self.total_games == self.wins + self.losses
    }

    pub fn new(chain_id: ChainId) -> (r: LeaderboardEntry)
        ensures
            r.chain_id == chain_id,
            r.player_name is None,
            r.wins == 0 && r.losses == 0 && r.total_games == 0,
            r.wf(),
    {
        LeaderboardEntry {
            chain_id,
            player_name: None,
            wins: 0,
            losses: 0,
            total_games: 0,
        }
    }

    pub fn new_with_name(chain_id: ChainId, player_name: Option<String>) -> (r: LeaderboardEntry)
        ensures
            r.chain_id == chain_id,
            r.player_name == player_name,
            r.wins == 0 && r.losses == 0 && r.total_games == 0,
            r.wf(),
    {
        LeaderboardEntry {
            chain_id,
            player_name,
            wins: 0,
            losses: 0,
            total_games: 0,
        }
    }

    /// Count one more game into the row.
    pub fn add_game(&mut self, won: bool)
        requires
            old(self).wf(),
            old(self).total_games < u64::MAX,
        ensures
            final(self).total_games == old(self).total_games + 1,
            won ==> final(self).wins == old(self).wins + 1 && final(self).losses == old(self).losses,
            !won ==> final(self).losses == old(self).losses + 1 && final(self).wins == old(self).wins,
            final(self).chain_id == old(self).chain_id,
            final(self).player_name == old(self).player_name,
            final(self).wf(),
    {
        self.total_games = self.total_games + 1;
        if won {
            self.wins = self.wins + 1;
        } else {
            self.losses = self.losses + 1;
        }
    }
}

/// Denominator of an entry's win rate; one game stands in for none so
/// that a player without games has rate zero exactly.
pub open spec fn rate_den(e: LeaderboardEntry) -> int {
    if e.total_games == 0 {
        1
    } else {
        e.total_games as int
    }
}

/// `a` ranks strictly below `b`: fewer wins; or equal wins and a
/// strictly lower win rate (compared exactly, by cross-multiplying the
/// two rates' fractions); or equal wins and rate and fewer total games.
pub open spec fn ranks_below(a: LeaderboardEntry, b: LeaderboardEntry) -> bool {
    ||| a.wins < b.wins
    ||| (a.wins == b.wins && a.wins as int * rate_den(b) < b.wins as int * rate_den(a))
    ||| (a.wins == b.wins && a.wins as int * rate_den(b) == b.wins as int * rate_den(a)
            && a.total_games < b.total_games)
}

/// Descending order: no entry ranks strictly below a later one.
pub open spec fn sorted_desc(s: Seq<LeaderboardEntry>) -> bool {
    forall|i: int, j: int| 0 <= i <= j < s.len() ==> !ranks_below(s[i], s[j])
}

/// Where `e` lands in an already ranked sequence: after every entry that
/// does not rank below it, so that earlier arrivals keep their place
/// among equals.
pub open spec fn insert_ranked(s: Seq<LeaderboardEntry>, e: LeaderboardEntry) -> Seq<LeaderboardEntry>
    decreases s.len(),
{
    if s.len() == 0 {
        seq![e]
    } else if ranks_below(s[0], e) {
        seq![e] + s
    } else {
        seq![s[0]] + insert_ranked(s.drop_first(), e)
    }
}

/// Rank a sequence of entries in descending order by insertion.
pub open spec fn sort_ranked(s: Seq<LeaderboardEntry>) -> Seq<LeaderboardEntry>
    decreases s.len(),
{
    if s.len() == 0 {
        Seq::empty()
    } else {
        insert_ranked(sort_ranked(s.drop_last()), s.last())
    }
}

/// The ranked top of a sequence of entries: sorted descending, cut to
/// the leaderboard cap.
pub open spec fn spec_rank_entries(s: Seq<LeaderboardEntry>) -> Seq<LeaderboardEntry> {
    let t = sort_ranked(s);
    if t.len() <= MAX_LEADERBOARD_LEN as int {
        t
    } else {
        t.subrange(0, MAX_LEADERBOARD_LEN as int)
    }
}

/// The strict ranking is transitive.
pub proof fn lemma_ranks_below_trans(a: LeaderboardEntry, b: LeaderboardEntry, c: LeaderboardEntry)
    requires
        ranks_below(a, b),
        ranks_below(b, c),
    ensures
        ranks_below(a, c),
{
}

/// Inserting grows the sequence by one, and adds no entry but `e`.
pub proof fn lemma_insert_ranked_elems(s: Seq<LeaderboardEntry>, e: LeaderboardEntry)
    ensures
        insert_ranked(s, e).len() == s.len() + 1,
        forall|i: int|
            0 <= i < insert_ranked(s, e).len()
                ==> insert_ranked(s, e)[i] == e || s.contains(#[trigger] insert_ranked(s, e)[i]),
    decreases s.len(),
{
    if s.len() == 0 {
    } else if ranks_below(s[0], e) {
    } else {
        lemma_insert_ranked_elems(s.drop_first(), e);
        let r = insert_ranked(s, e);
        let u = insert_ranked(s.drop_first(), e);
        assert forall|i: int| 0 <= i < r.len() implies r[i] == e || s.contains(#[trigger] r[i]) by {
            if i == 0 {
                assert(r[i] == s[0]);
            } else {
                assert(r[i] == u[i - 1]);
                if u[i - 1] != e {
                    let k = choose|k: int| 0 <= k < s.drop_first().len() && s.drop_first()[k] == u[i - 1];
                    assert(s[k + 1] == u[i - 1]);
                }
            }
        }
    }
}

/// Inserting into a ranked sequence keeps it ranked.
pub proof fn lemma_insert_ranked_sorted(s: Seq<LeaderboardEntry>, e: LeaderboardEntry)
    requires
        sorted_desc(s),
    ensures
        sorted_desc(insert_ranked(s, e)),
    decreases s.len(),
{
    let r = insert_ranked(s, e);
    if s.len() == 0 {
    } else if ranks_below(s[0], e) {
        assert forall|i: int, j: int| 0 <= i <= j < r.len() implies !ranks_below(r[i], r[j]) by {
            if i == 0 && j > 0 {
                if ranks_below(e, s[j - 1]) {
                    lemma_ranks_below_trans(s[0], e, s[j - 1]);
                }
            }
        }
    } else {
        assert(sorted_desc(s.drop_first())) by {
            assert forall|i: int, j: int|
                0 <= i <= j < s.drop_first().len() implies !ranks_below(
                s.drop_first()[i],
                s.drop_first()[j],
            ) by {
                assert(s.drop_first()[i] == s[i + 1]);
                assert(s.drop_first()[j] == s[j + 1]);
            }
        }
        lemma_insert_ranked_sorted(s.drop_first(), e);
        lemma_insert_ranked_elems(s.drop_first(), e);
        let u = insert_ranked(s.drop_first(), e);
        assert forall|i: int, j: int| 0 <= i <= j < r.len() implies !ranks_below(r[i], r[j]) by {
            if i == 0 && j > 0 {
                assert(r[j] == u[j - 1]);
                if u[j - 1] != e {
                    let k = choose|k: int|
                        0 <= k < s.drop_first().len() && s.drop_first()[k] == u[j - 1];
                    assert(s[k + 1] == u[j - 1]);
                }
            } else if i > 0 {
                assert(r[i] == u[i - 1] && r[j] == u[j - 1]);
            }
        }
    }
}

/// Inserting adds exactly the new entry to the sequence's contents.
pub proof fn lemma_insert_ranked_multiset(s: Seq<LeaderboardEntry>, e: LeaderboardEntry)
    ensures
        insert_ranked(s, e).to_multiset() == s.to_multiset().insert(e),
    decreases s.len(),
{
    broadcast use group_to_multiset_ensures;

    if s.len() == 0 {
        assert(seq![e] =~= Seq::<LeaderboardEntry>::empty().insert(0, e));
        to_multiset_insert(Seq::<LeaderboardEntry>::empty(), 0, e);
    } else if ranks_below(s[0], e) {
        assert(seq![e] + s =~= s.insert(0, e));
        to_multiset_insert(s, 0, e);
    } else {
        lemma_insert_ranked_multiset(s.drop_first(), e);
        let u = insert_ranked(s.drop_first(), e);
        assert(seq![s[0]] + u =~= u.insert(0, s[0]));
        to_multiset_insert(u, 0, s[0]);
        assert(s =~= s.drop_first().insert(0, s[0]));
        to_multiset_insert(s.drop_first(), 0, s[0]);
        assert(s.drop_first().to_multiset().insert(e).insert(s[0]) =~= s.drop_first().to_multiset().insert(s[0]).insert(e));
    }
}

/// Ranking sorts: the result is in descending order and holds exactly
/// the entries that went in.
pub proof fn lemma_sort_ranked_ensures(s: Seq<LeaderboardEntry>)
    ensures
        sorted_desc(sort_ranked(s)),
        sort_ranked(s).to_multiset() == s.to_multiset(),
        sort_ranked(s).len() == s.len(),
    decreases s.len(),
{
    broadcast use group_to_multiset_ensures;

    if s.len() == 0 {
        assert(sort_ranked(s).to_multiset() =~= s.to_multiset());
    } else {
        lemma_sort_ranked_ensures(s.drop_last());
        lemma_insert_ranked_sorted(sort_ranked(s.drop_last()), s.last());
        lemma_insert_ranked_elems(sort_ranked(s.drop_last()), s.last());
        lemma_insert_ranked_multiset(sort_ranked(s.drop_last()), s.last());
        assert(s =~= s.drop_last().push(s.last()));
        assert(s.drop_last().push(s.last()).to_multiset() =~= s.drop_last().to_multiset().insert(s.last()));
    }
}

/// The ranked top is itself in descending order, never longer than the
/// cap, and never longer than its input.
pub proof fn lemma_rank_entries_ensures(s: Seq<LeaderboardEntry>)
    ensures
        sorted_desc(spec_rank_entries(s)),
        spec_rank_entries(s).len() <= MAX_LEADERBOARD_LEN as int,
        spec_rank_entries(s).len() <= s.len(),
        forall|i: int|
            0 <= i < spec_rank_entries(s).len() ==> s.to_multiset().count(#[trigger] spec_rank_entries(s)[i]) > 0,
{
    broadcast use group_to_multiset_ensures;

    lemma_sort_ranked_ensures(s);
    let t = sort_ranked(s);
    assert forall|i: int| 0 <= i < spec_rank_entries(s).len() implies s.to_multiset().count(
        #[trigger] spec_rank_entries(s)[i],
    ) > 0 by {
        assert(spec_rank_entries(s)[i] == t[i]);
        assert(t.contains(t[i]));
    }
}

/// Whether `a` ranks strictly below `b`.
pub fn entry_ranks_below(a: &LeaderboardEntry, b: &LeaderboardEntry) -> (r: bool)
    ensures
        r == ranks_below(*a, *b),
{
    if a.wins != b.wins {
        return a.wins < b.wins;
    }
    let da: u128 = if a.total_games == 0 { 1 } else { a.total_games as u128 };
    let db: u128 = if b.total_games == 0 { 1 } else { b.total_games as u128 };
    proof {
        vstd::arithmetic::mul::lemma_mul_upper_bound(
            a.wins as int,
            u64::MAX as int,
            db as int,
            u64::MAX as int,
        );
        vstd::arithmetic::mul::lemma_mul_upper_bound(
            b.wins as int,
            u64::MAX as int,
            da as int,
            u64::MAX as int,
        );
    }
    let left: u128 = (a.wins as u128) * db;
    let right: u128 = (b.wins as u128) * da;
    if left != right {
        return left < right;
    }
    a.total_games < b.total_games
}

/// Insert one entry into an already ranked vector, after every entry
/// that does not rank below it.
fn insert_entry_ranked(out: &mut Vec<LeaderboardEntry>, e: LeaderboardEntry)
    ensures
        final(out)@ == insert_ranked(old(out)@, e),
{
    let mut j: usize = 0;
    while j < out.len() && !entry_ranks_below(&out[j], &e)
        invariant
            j <= out@.len(),
            out@ == old(out)@,
            forall|k: int| 0 <= k < j ==> !ranks_below(#[trigger] out@[k], e),
        decreases out@.len() - j,
    {
        j = j + 1;
    }
    out.insert(j, e);
    proof {
        lemma_insert_ranked_at(old(out)@, e, j as int);
    }
}

/// Under the position conditions of the ranked insertion, inserting is
/// plain sequence insertion at that position.
proof fn lemma_insert_ranked_at(s: Seq<LeaderboardEntry>, e: LeaderboardEntry, j: int)
    requires
        0 <= j <= s.len(),
        forall|k: int| 0 <= k < j ==> !ranks_below(#[trigger] s[k], e),
        j < s.len() ==> ranks_below(s[j], e),
    ensures
        insert_ranked(s, e) == s.insert(j, e),
    decreases j,
{
    if s.len() == 0 {
        assert(insert_ranked(s, e) =~= s.insert(0, e));
    } else if j == 0 {
        assert(insert_ranked(s, e) =~= s.insert(0, e));
    } else {
        assert(!ranks_below(s[0], e));
        assert forall|k: int| 0 <= k < j - 1 implies !ranks_below(#[trigger] s.drop_first()[k], e) by {
            assert(s.drop_first()[k] == s[k + 1]);
        }
        assert(j - 1 < s.drop_first().len() ==> ranks_below(s.drop_first()[j - 1], e));
        lemma_insert_ranked_at(s.drop_first(), e, j - 1);
        assert(insert_ranked(s, e) =~= s.insert(j, e));
    }
}

/// Rank a vector of entries in descending order and cut it to the cap.
pub fn rank_entries(entries: Vec<LeaderboardEntry>) -> (r: Vec<LeaderboardEntry>)
    ensures
        r@ == spec_rank_entries(entries@),
        r@.len() <= MAX_LEADERBOARD_LEN as int,
{
    let ghost orig = entries@;
    let mut rest = entries;
    let mut out: Vec<LeaderboardEntry> = Vec::new();
    while rest.len() > 0
        invariant
            rest@ == orig.skip(orig.len() - rest@.len()),
            out@ == sort_ranked(orig.take(orig.len() - rest@.len())),
            rest@.len() <= orig.len(),
        decreases rest@.len(),
    {
        let ghost k = orig.len() - rest@.len();
        let e = rest.remove(0);
        proof {
            assert(e == orig[k]);
            assert(rest@ =~= orig.skip(k + 1));
            let t = orig.take(k + 1);
            assert(t.drop_last() =~= orig.take(k));
            assert(t.last() == orig[k]);
        }
        insert_entry_ranked(&mut out, e);
    }
    proof {
        assert(orig.take(orig.len() as int) =~= orig);
        lemma_sort_ranked_ensures(orig);
    }
    let mut out = out;
    out.truncate(MAX_LEADERBOARD_LEN);
    proof {
        if sort_ranked(orig).len() <= MAX_LEADERBOARD_LEN as int {
            assert(out@ =~= spec_rank_entries(orig));
        }
    }
    out
}

} // verus!
