use rock_paper_scissors::ChainId;
use rock_paper_scissors::LeaderboardEntry;
use rock_paper_scissors::leaderboard::rank_entries;

fn entry(id: u64, wins: u64, total_games: u64) -> LeaderboardEntry {
    LeaderboardEntry {
        chain_id: ChainId::new(id),
        player_name: None,
        wins,
        losses: total_games - wins,
        total_games,
    }
}

#[test]
fn entry_counts_wins_and_losses() {
    let mut e = LeaderboardEntry::new(ChainId::new(1));
    e.add_game(true);
    e.add_game(false);
    e.add_game(true);
    assert_eq!(e.wins, 2);
    assert_eq!(e.losses, 1);
    assert_eq!(e.total_games, 3);

    let named = LeaderboardEntry::new_with_name(ChainId::new(2), Some(String::from("Ada")));
    assert_eq!(named.player_name.as_deref(), Some("Ada"));
    assert_eq!(named.total_games, 0);
}

#[test]
fn scenario_equal_wins_rank_by_win_rate_then_games() {
    // A: 10 wins of 12 games; B: 10 wins of 15; C: 9 wins of 9.
    let ranked = rank_entries(vec![entry(2, 10, 15), entry(3, 9, 9), entry(1, 10, 12)]);
    let ids: Vec<u64> = ranked.iter().map(|e| e.chain_id.value).collect();
    assert_eq!(ids, vec![1, 2, 3]);
}

#[test]
fn more_wins_rank_first_regardless_of_rate() {
    // A perfect record with fewer wins still ranks below more wins.
    let ranked = rank_entries(vec![entry(1, 3, 3), entry(2, 4, 40)]);
    let ids: Vec<u64> = ranked.iter().map(|e| e.chain_id.value).collect();
    assert_eq!(ids, vec![2, 1]);
}

#[test]
fn equal_wins_and_rate_rank_by_total_games() {
    // Both have rate zero: no wins. More games ranks first.
    let ranked = rank_entries(vec![entry(1, 0, 2), entry(2, 0, 5)]);
    let ids: Vec<u64> = ranked.iter().map(|e| e.chain_id.value).collect();
    assert_eq!(ids, vec![2, 1]);
}

#[test]
fn a_player_without_games_has_rate_zero() {
    let ranked = rank_entries(vec![entry(1, 0, 0), entry(2, 1, 10)]);
    let ids: Vec<u64> = ranked.iter().map(|e| e.chain_id.value).collect();
    assert_eq!(ids, vec![2, 1]);
}

#[test]
fn equal_keys_keep_their_arrival_order() {
    let ranked = rank_entries(vec![entry(7, 2, 4), entry(8, 2, 4), entry(9, 2, 4)]);
    let ids: Vec<u64> = ranked.iter().map(|e| e.chain_id.value).collect();
    assert_eq!(ids, vec![7, 8, 9]);
}

#[test]
fn ranking_truncates_to_one_hundred_entries() {
    let mut entries = Vec::new();
    for i in 0..105u64 {
        entries.push(entry(i, i, i));
    }
    let ranked = rank_entries(entries);
    assert_eq!(ranked.len(), 100);
    // Descending by wins: 104 down to 5.
    assert_eq!(ranked[0].wins, 104);
    assert_eq!(ranked[99].wins, 5);
}

#[test]
fn ranking_twice_from_unchanged_entries_is_identical() {
    let build = || vec![entry(1, 10, 12), entry(2, 10, 15), entry(3, 9, 9), entry(4, 0, 0)];
    let first = rank_entries(build());
    let second = rank_entries(build());
    assert_eq!(first.len(), second.len());
    for (a, b) in first.iter().zip(second.iter()) {
        assert_eq!(a.chain_id, b.chain_id);
        assert_eq!(a.wins, b.wins);
        assert_eq!(a.losses, b.losses);
        assert_eq!(a.total_games, b.total_games);
        assert_eq!(a.player_name, b.player_name);
    }
}
