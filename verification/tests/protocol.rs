use rock_paper_scissors::ApplicationParameters;
use rock_paper_scissors::ChainId;
use rock_paper_scissors::Choice;
use rock_paper_scissors::GameError;
use rock_paper_scissors::GameMessage;
use rock_paper_scissors::Operation;
use rock_paper_scissors::OutboundMessage;
use rock_paper_scissors::RockPaperScissorsState;
use rock_paper_scissors::RoundResult;

fn coord_id() -> ChainId {
    ChainId::new(100)
}

fn x_id() -> ChainId {
    ChainId::new(1)
}

fn y_id() -> ChainId {
    ChainId::new(2)
}

fn configured(chain: ChainId) -> RockPaperScissorsState {
    let params = ApplicationParameters { leaderboard_chain_id: Some(coord_id()) };
    RockPaperScissorsState::instantiate(&params, chain)
}

/// Coordinator with room "r1" joined by x_id() and y_id().
fn room_with_two_players(private: bool) -> RockPaperScissorsState {
    let mut coord = configured(coord_id());
    coord
        .execute_operation(
            coord_id(),
            0,
            Operation::CreateRoom { room_id: String::from("r1"), private },
        )
        .unwrap();
    for player in [x_id(), y_id()] {
        let out = coord.execute_message(
            coord_id(),
            0,
            GameMessage::JoinRoom {
                room_id: String::from("r1"),
                player_chain: player,
                player_name: None,
            },
            false,
        );
        assert!(matches!(
            out[0].message,
            GameMessage::PlayerJoined { success: true, .. }
        ));
    }
    coord
}

fn submit(coord: &mut RockPaperScissorsState, player: ChainId, choice: Choice) -> Vec<OutboundMessage> {
    coord.execute_message(
        coord_id(),
        9,
        GameMessage::SubmitChoice { room_id: String::from("r1"), player_chain: player, choice },
        false,
    )
}

#[test]
fn instantiate_marks_only_the_coordinator() {
    let coord = configured(coord_id());
    assert!(coord.is_leaderboard_chain);
    let player = configured(x_id());
    assert!(!player.is_leaderboard_chain);
    assert_eq!(player.leaderboard_chain_id, Some(coord_id()));
}

#[test]
fn setup_leaderboard_is_one_time() {
    let params = ApplicationParameters { leaderboard_chain_id: None };
    let mut node = RockPaperScissorsState::instantiate(&params, x_id());
    assert!(!node.is_leaderboard_chain);
    let r = node.execute_operation(x_id(), 0, Operation::SetupLeaderboard { leaderboard_chain_id: x_id() });
    assert!(r.is_ok());
    assert!(node.is_leaderboard_chain);
    let r = node.execute_operation(x_id(), 0, Operation::SetupLeaderboard { leaderboard_chain_id: y_id() });
    assert_eq!(r.unwrap_err(), GameError::LeaderboardAlreadyConfigured);
    assert_eq!(node.leaderboard_chain_id, Some(x_id()));
}

#[test]
fn create_room_is_coordinator_only() {
    let mut player = configured(x_id());
    let r = player.execute_operation(
        x_id(),
        0,
        Operation::CreateRoom { room_id: String::from("r1"), private: false },
    );
    assert_eq!(r.unwrap_err(), GameError::NotLeaderboardChain);
    assert!(player.rooms.is_empty());
}

#[test]
fn create_room_rejects_a_duplicate_id() {
    let mut coord = configured(coord_id());
    coord
        .execute_operation(coord_id(), 0, Operation::CreateRoom { room_id: String::from("r1"), private: false })
        .unwrap();
    let r = coord.execute_operation(
        coord_id(),
        1,
        Operation::CreateRoom { room_id: String::from("r1"), private: true },
    );
    assert_eq!(r.unwrap_err(), GameError::RoomAlreadyExists);
    assert_eq!(coord.rooms.len(), 1);
    assert_eq!(coord.available_rooms, vec![String::from("r1")]);
}

#[test]
fn join_and_submit_require_a_configured_coordinator() {
    let params = ApplicationParameters { leaderboard_chain_id: None };
    let mut node = RockPaperScissorsState::instantiate(&params, x_id());
    let r = node.execute_operation(x_id(), 0, Operation::JoinRoom { room_id: String::from("r1") });
    assert_eq!(r.unwrap_err(), GameError::LeaderboardNotConfigured);
    let r = node.execute_operation(
        x_id(),
        0,
        Operation::SubmitChoice { room_id: String::from("r1"), choice: Choice::Rock },
    );
    assert_eq!(r.unwrap_err(), GameError::LeaderboardNotConfigured);
}

#[test]
fn join_command_sends_the_request_to_the_coordinator() {
    let mut player = configured(x_id());
    player
        .execute_operation(x_id(), 0, Operation::SetPlayerName { name: String::from("Xavier") })
        .unwrap();
    let out = player
        .execute_operation(x_id(), 0, Operation::JoinRoom { room_id: String::from("r1") })
        .unwrap();
    assert_eq!(out.len(), 1);
    assert_eq!(out[0].destination, coord_id());
    match &out[0].message {
        GameMessage::JoinRoom { room_id, player_chain, player_name } => {
            assert_eq!(room_id, "r1");
            assert_eq!(*player_chain, x_id());
            assert_eq!(player_name.as_deref(), Some("Xavier"));
        }
        other => panic!("unexpected message {:?}", other),
    }
}

#[test]
fn join_replies_success_false_for_a_missing_room() {
    let mut coord = configured(coord_id());
    let out = coord.execute_message(
        coord_id(),
        0,
        GameMessage::JoinRoom {
            room_id: String::from("nowhere"),
            player_chain: x_id(),
            player_name: None,
        },
        false,
    );
    assert_eq!(out.len(), 1);
    assert_eq!(out[0].destination, x_id());
    assert!(matches!(
        out[0].message,
        GameMessage::PlayerJoined { success: false, .. }
    ));
}

#[test]
fn join_fills_the_room_and_removes_it_from_the_discoverable_list() {
    let coord = room_with_two_players(false);
    assert_eq!(coord.rooms.len(), 1);
    let room = &coord.rooms[0];
    assert_eq!(room.player1, Some(x_id()));
    assert_eq!(room.player2, Some(y_id()));
    assert!(coord.available_rooms.is_empty());

    // A third identity can no longer join.
    let mut coord = coord;
    let out = coord.execute_message(
        coord_id(),
        0,
        GameMessage::JoinRoom {
            room_id: String::from("r1"),
            player_chain: ChainId::new(3),
            player_name: None,
        },
        false,
    );
    assert!(matches!(
        out[0].message,
        GameMessage::PlayerJoined { success: false, .. }
    ));
    assert_eq!(coord.rooms[0].player1, Some(x_id()));
    assert_eq!(coord.rooms[0].player2, Some(y_id()));
}

#[test]
fn player_joined_updates_the_local_mirror() {
    let mut player = configured(x_id());
    player.execute_message(
        x_id(),
        0,
        GameMessage::PlayerJoined { room_id: String::from("r1"), player_chain: x_id(), success: true },
        false,
    );
    assert_eq!(player.my_rooms, vec![String::from("r1")]);
    assert_eq!(player.my_current_room.as_deref(), Some("r1"));

    // A failed join, or someone else's echo, changes nothing.
    player.execute_message(
        x_id(),
        0,
        GameMessage::PlayerJoined { room_id: String::from("r2"), player_chain: x_id(), success: false },
        false,
    );
    player.execute_message(
        x_id(),
        0,
        GameMessage::PlayerJoined { room_id: String::from("r3"), player_chain: y_id(), success: true },
        false,
    );
    assert_eq!(player.my_rooms, vec![String::from("r1")]);
    assert_eq!(player.my_current_room.as_deref(), Some("r1"));
}

#[test]
fn scenario_three_round_sweep_finishes_with_winner_x() {
    let mut coord = room_with_two_players(false);

    // Round 1: x_id()=Rock, y_id()=Scissors.
    assert!(submit(&mut coord, x_id(), Choice::Rock).is_empty());
    let out = submit(&mut coord, y_id(), Choice::Scissors);
    assert_eq!(out.len(), 2);
    match &out[0].message {
        GameMessage::RoundCompleted {
            player1_choice,
            player2_choice,
            round_winner,
            round_result,
            game_result,
            ..
        } => {
            assert_eq!(*player1_choice, Choice::Rock);
            assert_eq!(*player2_choice, Choice::Scissors);
            assert_eq!(*round_winner, Some(x_id()));
            assert_eq!(*round_result, RoundResult::Win);
            assert_eq!(game_result.player1_wins, 1);
        }
        other => panic!("unexpected message {:?}", other),
    }
    assert_eq!(coord.rooms[0].game_result.player1_wins, 1);
    assert_eq!(coord.rooms[0].round_number, 2);

    // Round 2: x_id()=Paper, y_id()=Rock.
    submit(&mut coord, x_id(), Choice::Paper);
    submit(&mut coord, y_id(), Choice::Rock);
    assert_eq!(coord.rooms[0].game_result.player1_wins, 2);
    assert_eq!(coord.rooms[0].round_number, 3);

    // Round 3: x_id()=Scissors, y_id()=Paper.
    submit(&mut coord, x_id(), Choice::Scissors);
    let out = submit(&mut coord, y_id(), Choice::Paper);
    assert_eq!(coord.rooms[0].game_result.player1_wins, 3);
    assert!(coord.rooms[0].game_result.is_finished);
    assert_eq!(coord.rooms[0].game_result.winner, Some(x_id()));
    assert_eq!(coord.rooms[0].round_number, 3);

    // Fan-out: two round notices, then two completion notices.
    assert_eq!(out.len(), 4);
    assert_eq!(out[0].destination, x_id());
    assert_eq!(out[1].destination, y_id());
    match &out[2].message {
        GameMessage::GameFinished { winner, final_result, .. } => {
            assert_eq!(*winner, x_id());
            assert!(final_result.is_finished);
        }
        other => panic!("unexpected message {:?}", other),
    }
    assert_eq!(out[3].destination, y_id());

    // A public game updates both players' stats and the leaderboard.
    assert_eq!(coord.player_stats.len(), 2);
    let xs = coord.player_stats.iter().find(|s| s.chain_id == x_id()).unwrap();
    assert_eq!((xs.games_played, xs.games_won, xs.games_lost), (1, 1, 0));
    let ys = coord.player_stats.iter().find(|s| s.chain_id == y_id()).unwrap();
    assert_eq!((ys.games_played, ys.games_won, ys.games_lost), (1, 0, 1));
    assert_eq!(coord.global_leaderboard.len(), 2);
    assert_eq!(coord.global_leaderboard[0].chain_id, x_id());
    assert_eq!(coord.global_leaderboard[1].chain_id, y_id());
}

#[test]
fn scenario_a_bounced_submit_choice_changes_nothing() {
    let mut coord = room_with_two_players(false);
    submit(&mut coord, x_id(), Choice::Rock);
    let before_choice = coord.rooms[0].player1_choice;
    let before_round = coord.rooms[0].round_number;

    let out = coord.execute_message(
        coord_id(),
        9,
        GameMessage::SubmitChoice {
            room_id: String::from("r1"),
            player_chain: y_id(),
            choice: Choice::Scissors,
        },
        true,
    );
    assert!(out.is_empty());
    assert_eq!(coord.rooms[0].player1_choice, before_choice);
    assert_eq!(coord.rooms[0].player2_choice, None);
    assert_eq!(coord.rooms[0].round_number, before_round);
    assert_eq!(coord.rooms[0].game_result.player1_wins, 0);
    assert_eq!(coord.rooms[0].game_result.draws, 0);
}

#[test]
fn coordinator_only_messages_are_ignored_elsewhere() {
    let mut player = configured(x_id());
    let out = player.execute_message(
        x_id(),
        0,
        GameMessage::SubmitChoice {
            room_id: String::from("r1"),
            player_chain: x_id(),
            choice: Choice::Rock,
        },
        false,
    );
    assert!(out.is_empty());
    let out = player.execute_message(
        x_id(),
        0,
        GameMessage::UpdateLeaderboard { player_chain: x_id(), won: true },
        false,
    );
    assert!(out.is_empty());
    assert!(player.player_stats.is_empty());
    let out = player.execute_message(
        x_id(),
        0,
        GameMessage::UpdatePlayerName { player_chain: y_id(), player_name: String::from("Yve") },
        false,
    );
    assert!(out.is_empty());
    assert!(player.player_names.is_empty());
}

#[test]
fn private_rooms_do_not_touch_the_leaderboard() {
    let mut coord = room_with_two_players(true);
    for (a, b) in [
        (Choice::Rock, Choice::Scissors),
        (Choice::Paper, Choice::Rock),
        (Choice::Scissors, Choice::Paper),
    ] {
        submit(&mut coord, x_id(), a);
        submit(&mut coord, y_id(), b);
    }
    assert!(coord.rooms[0].game_result.is_finished);
    assert!(coord.player_stats.is_empty());
    assert!(coord.global_leaderboard.is_empty());
}

#[test]
fn game_finished_updates_the_participant_mirror() {
    let mut player = configured(x_id());
    player.execute_message(
        x_id(),
        0,
        GameMessage::PlayerJoined { room_id: String::from("r1"), player_chain: x_id(), success: true },
        false,
    );
    let final_result = rock_paper_scissors::GameResult {
        player1_wins: 3,
        player2_wins: 1,
        draws: 0,
        winner: Some(x_id()),
        is_finished: true,
    };
    player.execute_message(
        x_id(),
        77,
        GameMessage::GameFinished { room_id: String::from("r1"), winner: x_id(), final_result },
        false,
    );
    let st = player.my_stats.unwrap();
    assert_eq!((st.games_played, st.games_won, st.games_lost), (1, 1, 0));
    assert_eq!(st.current_streak, 1);
    assert_eq!(st.last_game_timestamp, 77);
    assert!(player.my_rooms.is_empty());
    assert!(player.my_current_room.is_none());
}

#[test]
fn update_leaderboard_message_bumps_stats_directly() {
    let mut coord = configured(coord_id());
    coord.execute_message(coord_id(), 5, GameMessage::UpdateLeaderboard { player_chain: x_id(), won: true }, false);
    coord.execute_message(coord_id(), 6, GameMessage::UpdateLeaderboard { player_chain: x_id(), won: true }, false);
    coord.execute_message(coord_id(), 7, GameMessage::UpdateLeaderboard { player_chain: y_id(), won: false }, false);
    assert_eq!(coord.player_stats.len(), 2);
    let xs = coord.player_stats.iter().find(|s| s.chain_id == x_id()).unwrap();
    assert_eq!((xs.games_won, xs.current_streak, xs.best_streak), (2, 2, 2));
    assert_eq!(coord.global_leaderboard.len(), 2);
    assert_eq!(coord.global_leaderboard[0].chain_id, x_id());
}

#[test]
fn player_names_reach_the_directory_and_the_leaderboard() {
    let mut coord = configured(coord_id());
    coord.execute_message(
        coord_id(),
        0,
        GameMessage::UpdatePlayerName { player_chain: x_id(), player_name: String::from("Xavier") },
        false,
    );
    // Last writer wins.
    coord.execute_message(
        coord_id(),
        0,
        GameMessage::UpdatePlayerName { player_chain: x_id(), player_name: String::from("Xena") },
        false,
    );
    assert_eq!(coord.player_names.len(), 1);
    assert_eq!(coord.player_names[0].name, "Xena");

    coord.execute_message(coord_id(), 5, GameMessage::UpdateLeaderboard { player_chain: x_id(), won: true }, false);
    assert_eq!(coord.global_leaderboard[0].player_name.as_deref(), Some("Xena"));

    // The coordinator setting its own name writes the directory directly.
    coord
        .execute_operation(coord_id(), 0, Operation::SetPlayerName { name: String::from("Boss") })
        .unwrap();
    assert_eq!(coord.my_player_name.as_deref(), Some("Boss"));
    assert_eq!(coord.player_names.len(), 2);
}

#[test]
fn reset_clears_rooms_stats_and_leaderboard_together() {
    let mut coord = room_with_two_players(false);
    for (a, b) in [
        (Choice::Rock, Choice::Scissors),
        (Choice::Paper, Choice::Rock),
        (Choice::Scissors, Choice::Paper),
    ] {
        submit(&mut coord, x_id(), a);
        submit(&mut coord, y_id(), b);
    }
    assert!(!coord.player_stats.is_empty());
    coord.execute_operation(coord_id(), 0, Operation::ResetLeaderboard).unwrap();
    assert!(coord.rooms.is_empty());
    assert!(coord.available_rooms.is_empty());
    assert!(coord.player_stats.is_empty());
    assert!(coord.global_leaderboard.is_empty());
    assert_eq!(coord.room_counter, 0);

    let mut player = configured(x_id());
    let r = player.execute_operation(x_id(), 0, Operation::ResetLeaderboard);
    assert_eq!(r.unwrap_err(), GameError::NotLeaderboardChain);
}

#[test]
fn pure_read_operations_change_nothing() {
    let mut coord = room_with_two_players(false);
    let rooms_before = coord.rooms.len();
    for op in [
        Operation::GetAvailableRooms,
        Operation::GetRoom { room_id: String::from("r1") },
        Operation::GetLeaderboard,
        Operation::GetMyStats,
    ] {
        let out = coord.execute_operation(coord_id(), 0, op).unwrap();
        assert!(out.is_empty());
    }
    assert_eq!(coord.rooms.len(), rooms_before);

    let stats = coord.game_stats();
    assert_eq!(stats.total_rooms, 1);
    assert_eq!(stats.active_rooms, 0);
    assert_eq!(stats.finished_games, 0);
    assert_eq!(stats.total_players, 0);
    assert!(coord.get_room(&String::from("r1")).is_some());
    assert!(coord.get_room(&String::from("r2")).is_none());
}

#[test]
fn open_room_listing_hides_full_and_private_rooms() {
    let mut coord = configured(coord_id());
    for (id, private) in [("r1", false), ("r2", false), ("r3", true)] {
        coord
            .execute_operation(
                coord_id(),
                0,
                Operation::CreateRoom { room_id: String::from(id), private },
            )
            .unwrap();
    }
    // Only public rooms enter the discoverable list at all.
    assert_eq!(coord.available_rooms, vec![String::from("r1"), String::from("r2")]);
    let open: Vec<String> = coord.open_available_rooms().iter().map(|r| r.room_id.clone()).collect();
    assert_eq!(open, vec![String::from("r1"), String::from("r2")]);

    // Filling r1 removes it from the discoverable list.
    for player in [x_id(), y_id()] {
        coord.execute_message(
            coord_id(),
            0,
            GameMessage::JoinRoom {
                room_id: String::from("r1"),
                player_chain: player,
                player_name: None,
            },
            false,
        );
    }
    let open: Vec<String> = coord.open_available_rooms().iter().map(|r| r.room_id.clone()).collect();
    assert_eq!(open, vec![String::from("r2")]);

    // A half-full room stays listed but a full one is filtered even if
    // its id were still present.
    coord.execute_message(
        coord_id(),
        0,
        GameMessage::JoinRoom { room_id: String::from("r2"), player_chain: x_id(), player_name: None },
        false,
    );
    let open: Vec<String> = coord.open_available_rooms().iter().map(|r| r.room_id.clone()).collect();
    assert_eq!(open, vec![String::from("r2")]);
}

#[test]
fn player_stats_lookup_follows_recorded_games() {
    let mut coord = configured(coord_id());
    assert!(coord.get_player_stats(x_id()).is_none());
    coord.execute_message(coord_id(), 3, GameMessage::UpdateLeaderboard { player_chain: x_id(), won: true }, false);
    let st = coord.get_player_stats(x_id()).unwrap();
    assert_eq!((st.games_played, st.games_won, st.last_game_timestamp), (1, 1, 3));
}

#[test]
fn join_with_a_name_fills_the_room_slot_and_the_directory() {
    let mut coord = configured(coord_id());
    coord
        .execute_operation(coord_id(), 0, Operation::CreateRoom { room_id: String::from("r1"), private: false })
        .unwrap();
    coord.execute_message(
        coord_id(),
        0,
        GameMessage::JoinRoom {
            room_id: String::from("r1"),
            player_chain: x_id(),
            player_name: Some(String::from("Xavier")),
        },
        false,
    );
    assert_eq!(coord.rooms[0].player1_name.as_deref(), Some("Xavier"));
    assert_eq!(coord.player_names.len(), 1);
    assert_eq!(coord.player_names[0].name, "Xavier");
    assert_eq!(coord.lookup_player_name(x_id()).as_deref(), Some("Xavier"));
}
