use pioneer_bot::objective::Objective;
use pioneer_bot::pioneer_bot::{
    MoveError, PioneerBot, Plan, TentAttempt, TentOutcome, TradeOutcome, ExploreGoal, tent_outcome,
    first_suitable, collect_budget, should_pick_up, is_nearly_full, is_running_low,
};
use pioneer_bot::walker::{BridgeStep, PutOutcome};
use pioneer_bot::world::{Backpack, Content, DayTime, Weather};

fn backpack(size: usize, rock: usize, tree: usize, fish: usize, coin: usize, other: usize) -> Backpack {
    Backpack { size, rock, tree, fish, coin, tent: 0, other }
}

#[test]
fn new_bot_is_idle_and_running() {
    let bot = PioneerBot::new(true, false);
    assert_eq!(bot.objective(), Objective::Idle);
    assert_eq!(bot.next(), Objective::Idle);
    assert_eq!(bot.destination(), None);
    assert!(bot.is_running());
    assert!(bot.uses_gui());
    assert!(!bot.uses_audio());
}

#[test]
fn low_energy_while_exploring_goes_charging() {
    let mut bot = PioneerBot::new(false, false);
    bot.set_objective(Objective::Exploring);
    bot.apply_overrides(false, 100);
    assert_eq!(bot.objective(), Objective::Charging(250));
    assert_eq!(bot.next(), Objective::Exploring);
}

#[test]
fn enough_energy_changes_nothing() {
    let mut bot = PioneerBot::new(false, false);
    bot.set_objective(Objective::Exploring);
    bot.apply_overrides(false, 150);
    assert_eq!(bot.objective(), Objective::Exploring);
    assert_eq!(bot.next(), Objective::Idle);
}

#[test]
fn night_override_fires_once() {
    let mut bot = PioneerBot::new(false, false);
    bot.set_objective(Objective::Exploring);
    bot.set_next(Objective::Depositing);
    bot.apply_overrides(true, 500);
    assert_eq!(bot.objective(), Objective::Sleeping);
    assert_eq!(bot.next(), Objective::Depositing);
    bot.apply_overrides(true, 10);
    assert_eq!(bot.objective(), Objective::Sleeping);
    assert_eq!(bot.next(), Objective::Depositing);
}

#[test]
fn night_spares_agent_heading_to_sleep() {
    let mut bot = PioneerBot::new(false, false);
    bot.set_objective(Objective::Moving(false));
    bot.set_next(Objective::Sleeping);
    bot.apply_overrides(true, 500);
    assert_eq!(bot.objective(), Objective::Moving(false));
}

#[test]
fn energy_override_spares_resting_agent() {
    let mut bot = PioneerBot::new(false, false);
    bot.set_objective(Objective::Charging(300));
    bot.apply_overrides(false, 10);
    assert_eq!(bot.objective(), Objective::Charging(300));
    assert_eq!(bot.next(), Objective::Idle);

    bot.set_objective(Objective::Exploring);
    bot.set_next(Objective::Waiting(DayTime::Morning));
    bot.apply_overrides(false, 10);
    assert_eq!(bot.objective(), Objective::Exploring);
    assert_eq!(bot.next(), Objective::Waiting(DayTime::Morning));
}

#[test]
fn nearly_full_backpack_sells_most_valuable() {
    let mut bot = PioneerBot::new(false, false);
    bot.set_objective(Objective::Praying);
    let bp = backpack(20, 1, 2, 0, 0, 14);
    let plan = bot.decide(None, Weather::Sunny, Some(Weather::Sunny), &bp, 0);
    assert_eq!(plan, Plan::Trade(Content::Market));
    assert_eq!(bot.next(), Objective::Selling(Content::Tree));
    bot.set_best_destination(Some(Weather::Sunny), Some((3, 4)), Some((1, 1)), true);
    assert_eq!(bot.destination(), Some((3, 4)));
    assert_eq!(bot.objective(), Objective::Moving(true));
}

#[test]
fn coins_outnumbering_goods_go_to_the_bank() {
    let mut bot = PioneerBot::new(false, false);
    let bp = backpack(10, 1, 0, 0, 8, 0);
    let plan = bot.decide(None, Weather::Rainy, None, &bp, 0);
    assert_eq!(plan, Plan::Trade(Content::Bank));
    assert_eq!(bot.next(), Objective::Depositing);
}

#[test]
fn pilot_choice_bypasses_planner() {
    let mut bot = PioneerBot::new(false, false);
    bot.set_objective(Objective::Praying);
    bot.set_next(Objective::Exploring);
    bot.set_destination((5, 5));
    let bp = backpack(10, 0, 0, 0, 0, 0);
    let plan = bot.decide(Some(5), Weather::TropicalMonsoon, None, &bp, 0);
    assert_eq!(plan, Plan::Adopted);
    assert_eq!(bot.objective(), Objective::Gathering(Content::Fish));
    assert_eq!(bot.next(), Objective::Idle);
    assert_eq!(bot.destination(), None);
}

#[test]
fn adopting_pilot_choice() {
    let mut bot = PioneerBot::new(false, false);
    bot.set_objective(Objective::Praying);
    bot.set_next(Objective::Exploring);
    bot.set_destination((1, 1));
    assert!(!bot.adopt_pilot_choice(0));
    assert_eq!(bot.objective(), Objective::Praying);
    assert_eq!(bot.next(), Objective::Exploring);
    assert_eq!(bot.destination(), None);
    assert!(bot.adopt_pilot_choice(8));
    assert_eq!(bot.objective(), Objective::Depositing);
    assert_eq!(bot.next(), Objective::Idle);
}

#[test]
fn random_decision_adopts_pilot_choice() {
    let mut bot = PioneerBot::new(false, false);
    let bp = backpack(10, 0, 0, 0, 0, 0);
    assert_eq!(bot.decide_at_random(Some(9), Weather::Sunny, None, &bp), Plan::Adopted);
    assert_eq!(bot.objective(), Objective::Exploring);
    assert_eq!(bot.next(), Objective::Idle);
}

#[test]
fn pilot_without_choice_leaves_it_to_planner() {
    let mut bot = PioneerBot::new(false, false);
    let bp = backpack(10, 0, 0, 0, 0, 0);
    let plan = bot.decide(Some(0), Weather::TrentinoSnow, None, &bp, 0);
    assert_eq!(plan, Plan::Sleep);
    assert_eq!(bot.objective(), Objective::Sleeping);
}

#[test]
fn storm_tomorrow_seeks_shelter() {
    let mut bot = PioneerBot::new(false, false);
    let bp = backpack(10, 0, 0, 0, 0, 0);
    let plan = bot.decide(None, Weather::Sunny, Some(Weather::TropicalMonsoon), &bp, 0);
    assert_eq!(plan, Plan::Shelter);
    assert_eq!(bot.next(), Objective::Waiting(DayTime::Night));
    bot.seek_shelter(None, Some((7, 8)), Some((1, 1)), None);
    assert_eq!(bot.destination(), Some((7, 8)));
    assert_eq!(bot.objective(), Objective::Moving(true));
    bot.seek_shelter(None, None, None, Some((2, 2)));
    assert_eq!(bot.objective(), Objective::Moving(false));
    bot.seek_shelter(None, None, None, None);
    assert_eq!(bot.objective(), Objective::Exploring);
}

#[test]
fn empty_backpack_gathers_with_random_tie_break() {
    let mut bot = PioneerBot::new(false, false);
    let bp = backpack(10, 0, 0, 0, 0, 0);
    let plan = bot.decide(None, Weather::Sunny, Some(Weather::Rainy), &bp, 4);
    assert_eq!(plan, Plan::Gather(Content::Tree));
    assert_eq!(bot.next(), Objective::Gathering(Content::Tree));
    let bp = backpack(20, 3, 1, 3, 0, 0);
    let plan = bot.decide(None, Weather::Sunny, None, &bp, 1);
    assert_eq!(plan, Plan::Gather(Content::Fish));
}

#[test]
fn middling_backpack_explores() {
    let mut bot = PioneerBot::new(false, false);
    let bp = backpack(10, 7, 0, 0, 0, 0);
    let plan = bot.decide(None, Weather::Sunny, None, &bp, 0);
    assert_eq!(plan, Plan::Explore);
    assert_eq!(bot.objective(), Objective::Exploring);
}

#[test]
fn random_decision_follows_the_planner() {
    let mut bot = PioneerBot::new(false, false);
    let bp = backpack(10, 9, 0, 0, 0, 0);
    let plan = bot.decide_at_random(None, Weather::Sunny, None, &bp);
    assert_eq!(plan, Plan::Trade(Content::Market));
}

#[test]
fn backpack_thresholds() {
    assert!(is_nearly_full(&backpack(10, 8, 0, 0, 0, 0)));
    assert!(!is_nearly_full(&backpack(10, 7, 0, 0, 0, 0)));
    assert!(is_running_low(&backpack(10, 6, 0, 0, 0, 0)));
    assert!(!is_running_low(&backpack(10, 7, 0, 0, 0, 0)));
}

#[test]
fn best_destination_avoids_depleted_closest() {
    let mut bot = PioneerBot::new(false, false);
    bot.sell_step(Content::Rock, 5, TradeOutcome::Traded(2, Some((1, 1)), None));
    assert!(bot.is_bankrupt((1, 1)));
    bot.set_best_destination(Some(Weather::Rainy), Some((9, 9)), Some((1, 1)), false);
    assert_eq!(bot.destination(), Some((9, 9)));
    assert_eq!(bot.objective(), Objective::Moving(false));
    bot.set_best_destination(None, Some((9, 9)), Some((4, 4)), true);
    assert_eq!(bot.destination(), Some((4, 4)));
    assert_eq!(bot.objective(), Objective::Moving(true));
    bot.set_best_destination(None, Some((9, 9)), None, true);
    assert_eq!(bot.objective(), Objective::Exploring);
}

#[test]
fn best_destination_never_picks_depleted_place() {
    let mut bot = PioneerBot::new(false, false);
    bot.sell_step(Content::Rock, 5, TradeOutcome::Traded(2, Some((1, 1)), None));
    bot.set_destination((0, 0));
    bot.set_best_destination(Some(Weather::Rainy), Some((1, 1)), Some((1, 1)), false);
    assert_eq!(bot.objective(), Objective::Exploring);
    assert_eq!(bot.destination(), Some((0, 0)));
    bot.set_best_destination(Some(Weather::Sunny), Some((1, 1)), Some((4, 4)), false);
    assert_eq!(bot.objective(), Objective::Exploring);
    bot.set_best_destination(Some(Weather::Sunny), Some((6, 6)), Some((4, 4)), false);
    assert_eq!(bot.destination(), Some((6, 6)));
}

#[test]
fn arrival_pins_new_location() {
    let mut bot = PioneerBot::new(false, false);
    bot.set_objective(Objective::Moving(true));
    bot.set_next(Objective::Selling(Content::Fish));
    bot.on_path_error(MoveError::AlreadyAtDestination, (2, 3));
    assert_eq!(bot.objective(), Objective::Selling(Content::Fish));
    assert_eq!(bot.next(), Objective::Idle);
    assert!(bot.is_pinned((2, 3)));
}

#[test]
fn moving_without_destination_asks_for_one() {
    let mut bot = PioneerBot::new(false, false);
    bot.set_objective(Objective::Moving(true));
    bot.set_next(Objective::Depositing);
    assert!(bot.on_path_error(MoveError::NoDestination, (2, 3)));
    assert_eq!(bot.objective(), Objective::Moving(true));
    assert_eq!(bot.next(), Objective::Depositing);
    assert!(!bot.is_pinned((2, 3)));
    bot.head_to((7, 7));
    assert_eq!(bot.objective(), Objective::Moving(false));
    assert_eq!(bot.destination(), Some((7, 7)));
}

#[test]
fn path_failure_resumes_without_pin() {
    let mut bot = PioneerBot::new(false, false);
    bot.set_objective(Objective::Moving(true));
    bot.set_next(Objective::Exploring);
    assert!(!bot.on_path_error(MoveError::NoAvailableMove, (2, 3)));
    assert_eq!(bot.objective(), Objective::Exploring);
    assert!(!bot.is_pinned((2, 3)));
}

#[test]
fn destination_round_trip() {
    let mut once = PioneerBot::new(false, false);
    once.set_destination((4, 6));
    let mut twice = PioneerBot::new(false, false);
    twice.set_destination((4, 6));
    twice.clear_destination();
    assert_eq!(twice.destination(), None);
    twice.set_destination((4, 6));
    assert_eq!(once.destination(), twice.destination());
    assert_eq!(once.objective(), twice.objective());
}

#[test]
fn waiting_ends_at_target_time() {
    let mut bot = PioneerBot::new(false, false);
    bot.set_objective(Objective::Waiting(DayTime::Morning));
    bot.set_next(Objective::Praying);
    assert!(!bot.wait_step(DayTime::Night, 0));
    assert_eq!(bot.objective(), Objective::Waiting(DayTime::Morning));
    assert!(bot.wait_step(DayTime::Morning, 0));
    assert_eq!(bot.objective(), Objective::Praying);
    assert_eq!(bot.next(), Objective::Idle);
}

#[test]
fn charging_ends_at_level() {
    let mut bot = PioneerBot::new(false, false);
    bot.set_objective(Objective::Charging(250));
    bot.set_next(Objective::Exploring);
    bot.charge_step(249);
    assert_eq!(bot.objective(), Objective::Charging(250));
    bot.charge_step(250);
    assert_eq!(bot.objective(), Objective::Exploring);
}

#[test]
fn sleeping_settles_until_other_half_of_day() {
    let mut bot = PioneerBot::new(false, false);
    bot.set_objective(Objective::Sleeping);
    bot.sleep_step(TentOutcome::Failed, DayTime::Night);
    assert_eq!(bot.objective(), Objective::Sleeping);
    bot.sleep_step(TentOutcome::Settled, DayTime::Night);
    assert_eq!(bot.objective(), Objective::Waiting(DayTime::Morning));
    assert_eq!(bot.next(), Objective::Praying);
    bot.sleep_step(TentOutcome::Settled, DayTime::Morning);
    assert_eq!(bot.objective(), Objective::Waiting(DayTime::Night));
    bot.sleep_step(TentOutcome::Spot((3, 3)), DayTime::Night);
    assert_eq!(bot.objective(), Objective::Moving(false));
    assert_eq!(bot.next(), Objective::Sleeping);
    assert_eq!(bot.destination(), Some((3, 3)));
}

#[test]
fn tent_attempts_settle_the_night() {
    assert!(matches!(tent_outcome(TentAttempt::CraftFailed), TentOutcome::Settled));
    assert!(matches!(tent_outcome(TentAttempt::Put(true)), TentOutcome::Settled));
    assert!(matches!(tent_outcome(TentAttempt::Put(false)), TentOutcome::Failed));
    assert!(matches!(tent_outcome(TentAttempt::Scanned(Some((1, 2)))), TentOutcome::Spot((1, 2))));
    assert!(matches!(tent_outcome(TentAttempt::Scanned(None)), TentOutcome::Failed));
    assert!(matches!(tent_outcome(TentAttempt::ScanUnfinished), TentOutcome::Settled));
}

#[test]
fn first_suitable_skips_false_reports() {
    let tiles = vec![(false, (0, 0)), (true, (4, 5)), (true, (6, 7))];
    assert_eq!(first_suitable(&tiles), Some((4, 5)));
    assert_eq!(first_suitable(&vec![(false, (0, 0))]), None);
}

#[test]
fn gathering_continues_or_sells() {
    let mut bot = PioneerBot::new(false, false);
    bot.set_objective(Objective::Gathering(Content::Rock));
    let bp = backpack(10, 3, 0, 0, 0, 0);
    bot.gather_step(Content::Rock, &bp, false, None, Some((2, 2)));
    assert_eq!(bot.objective(), Objective::Moving(false));
    assert_eq!(bot.next(), Objective::Gathering(Content::Rock));
    assert_eq!(bot.destination(), Some((2, 2)));

    bot.set_objective(Objective::Gathering(Content::Rock));
    bot.gather_step(Content::Rock, &bp, false, Some(Weather::Sunny), None);
    assert_eq!(bot.objective(), Objective::Exploring);

    bot.set_objective(Objective::Gathering(Content::Rock));
    bot.gather_step(Content::Rock, &bp, false, Some(Weather::TrentinoSnow), Some((2, 2)));
    assert_eq!(bot.objective(), Objective::Selling(Content::Rock));
    assert_eq!(bot.next(), Objective::Idle);

    bot.set_objective(Objective::Gathering(Content::Rock));
    bot.gather_step(Content::Rock, &bp, true, Some(Weather::TrentinoSnow), Some((5, 2)));
    assert_eq!(bot.objective(), Objective::Moving(false));
    assert_eq!(bot.destination(), Some((5, 2)));
    assert_eq!(bot.next(), Objective::Gathering(Content::Rock));

    let full = backpack(10, 2, 3, 1, 2, 0);
    bot.gather_step(Content::Rock, &full, false, None, Some((2, 2)));
    assert_eq!(bot.objective(), Objective::Selling(Content::Tree));
    assert_eq!(bot.next(), Objective::Idle);
}

#[test]
fn collect_budget_is_space_left() {
    assert_eq!(collect_budget(&backpack(10, 3, 0, 0, 0, 0), Content::Rock), Some(7));
    assert_eq!(collect_budget(&backpack(10, 3, 0, 0, 0, 0), Content::Fish), None);
    assert_eq!(collect_budget(&backpack(10, 8, 0, 0, 0, 0), Content::Tree), None);
}

#[test]
fn pick_up_one_time_in_four_with_room() {
    assert!(should_pick_up(8, &backpack(10, 3, 0, 0, 0, 0)));
    assert!(!should_pick_up(9, &backpack(10, 3, 0, 0, 0, 0)));
    assert!(!should_pick_up(8, &backpack(3, 3, 0, 0, 0, 0)));
}

#[test]
fn selling_full_sale_resumes_queue() {
    let mut bot = PioneerBot::new(false, false);
    bot.set_objective(Objective::Selling(Content::Tree));
    bot.set_next(Objective::Exploring);
    bot.sell_step(Content::Tree, 4, TradeOutcome::Traded(4, Some((1, 2)), None));
    assert_eq!(bot.objective(), Objective::Exploring);
    assert_eq!(bot.next(), Objective::Idle);
    assert!(!bot.is_bankrupt((1, 2)));
}

#[test]
fn selling_partial_sale_marks_market_depleted() {
    let mut bot = PioneerBot::new(false, false);
    bot.set_objective(Objective::Selling(Content::Tree));
    bot.sell_step(Content::Tree, 4, TradeOutcome::Traded(1, Some((1, 2)), Some((8, 8))));
    assert!(bot.is_bankrupt((1, 2)));
    assert_eq!(bot.destination(), Some((8, 8)));
    assert_eq!(bot.objective(), Objective::Moving(true));
    assert_eq!(bot.next(), Objective::Selling(Content::Tree));

    bot.sell_step(Content::Tree, 4, TradeOutcome::Traded(1, Some((1, 2)), Some((1, 2))));
    assert_eq!(bot.destination(), None);
    assert_eq!(bot.objective(), Objective::Exploring);

    bot.sell_step(Content::Tree, 4, TradeOutcome::Traded(1, Some((5, 5)), Some((1, 2))));
    assert!(bot.is_bankrupt((5, 5)));
    assert_eq!(bot.destination(), None);
    assert_eq!(bot.objective(), Objective::Exploring);
}

#[test]
fn selling_without_market_nearby() {
    let mut bot = PioneerBot::new(false, false);
    bot.sell_step(Content::Fish, 2, TradeOutcome::NoneNearby(Some((5, 5))));
    assert_eq!(bot.destination(), Some((5, 5)));
    assert_eq!(bot.next(), Objective::Selling(Content::Fish));
    bot.sell_step(Content::Fish, 2, TradeOutcome::NoneNearby(None));
    assert_eq!(bot.objective(), Objective::Exploring);
    assert_eq!(bot.destination(), None);
    bot.sell_step(Content::Fish, 2, TradeOutcome::NoSpace);
    assert_eq!(bot.objective(), Objective::Depositing);
    bot.sell_step(Content::Fish, 2, TradeOutcome::Failed);
    assert_eq!(bot.objective(), Objective::Exploring);
}

#[test]
fn depositing_outcomes() {
    let mut bot = PioneerBot::new(false, false);
    bot.set_objective(Objective::Depositing);
    bot.set_next(Objective::Praying);
    bot.deposit_step(6, TradeOutcome::NoEnergy, 40);
    assert_eq!(bot.objective(), Objective::Charging(140));
    assert_eq!(bot.next(), Objective::Depositing);

    bot.deposit_step(6, TradeOutcome::Traded(6, None, None), 40);
    assert_eq!(bot.objective(), Objective::Depositing);
    assert_eq!(bot.next(), Objective::Idle);

    bot.deposit_step(6, TradeOutcome::Traded(2, Some((3, 3)), Some((3, 3))), 40);
    assert!(bot.is_bankrupt((3, 3)));
    assert_eq!(bot.objective(), Objective::Exploring);

    bot.deposit_step(6, TradeOutcome::NoneNearby(Some((7, 1))), 40);
    assert_eq!(bot.destination(), Some((7, 1)));
    assert_eq!(bot.objective(), Objective::Moving(true));
    assert_eq!(bot.next(), Objective::Depositing);

    bot.deposit_step(6, TradeOutcome::NoSpace, 40);
    assert_eq!(bot.objective(), Objective::Exploring);
}

#[test]
fn blind_walk_needs_recent_revisit_and_even_roll() {
    let mut bot = PioneerBot::new(false, false);
    bot.on_ready((1, 1));
    bot.on_moved((1, 2));
    assert!(bot.should_blind_walk(Some((1, 1)), 4));
    assert!(!bot.should_blind_walk(Some((1, 1)), 5));
    assert!(!bot.should_blind_walk(Some((5, 5)), 4));
    assert!(!bot.should_blind_walk(None, 4));
    assert!(bot.start_blind_walk(0).is_none());
    bot.set_destination((9, 9));
    let walk = bot.start_blind_walk(6).unwrap();
    assert_eq!(walk.dest, (9, 9));
    assert_eq!(walk.steps_left, 3);
    bot.on_moved((1, 3));
    bot.blind_walk_done((2, 3));
    assert!(bot.was_recently_at((1, 1)));
    assert!(!bot.was_recently_at((1, 2)));
    assert!(!bot.was_recently_at((1, 3)));
    assert!(bot.was_recently_at((2, 3)));
}

#[test]
fn resource_in_reach_is_taken() {
    let mut bot = PioneerBot::new(false, false);
    bot.set_objective(Objective::Moving(true));
    bot.set_next(Objective::Gathering(Content::Fish));
    bot.set_destination((4, 4));
    bot.reached_resource((3, 4));
    assert_eq!(bot.objective(), Objective::Gathering(Content::Fish));
    assert_eq!(bot.destination(), None);
    assert!(bot.is_pinned((3, 4)));
}

#[test]
fn bridge_building_decisions() {
    let mut bot = PioneerBot::new(false, false);
    bot.set_objective(Objective::Moving(false));
    bot.set_next(Objective::Gathering(Content::Fish));
    bot.set_destination((4, 4));
    assert_eq!(bot.bridge(1, PutOutcome::NotEnoughContent, 5), BridgeStep::Retry(2));
    assert_eq!(bot.bridge(2, PutOutcome::MustDestroyFirst(true), 5), BridgeStep::Retry(2));
    assert_eq!(bot.bridge(2, PutOutcome::Placed, 5), BridgeStep::Built);
    assert_eq!(bot.objective(), Objective::Moving(false));
    assert_eq!(bot.bridge(3, PutOutcome::NotEnoughEnergy, 5), BridgeStep::NeedEnergy);
    assert_eq!(bot.objective(), Objective::Charging(300));
    assert_eq!(bot.bridge(6, PutOutcome::NotEnoughContent, 5), BridgeStep::NeedRocks);
    assert_eq!(bot.objective(), Objective::Exploring);
    assert_eq!(bot.next(), Objective::Gathering(Content::Rock));
    assert_eq!(bot.destination(), None);
    assert_eq!(bot.bridge(1, PutOutcome::MustDestroyFirst(false), 5), BridgeStep::Abandon);
    assert_eq!(bot.objective(), Objective::Praying);
    assert_eq!(bot.bridge(1, PutOutcome::Failed, 5), BridgeStep::GiveUp);
    assert_eq!(bot.next(), Objective::Idle);
}

#[test]
fn backtracking_goes_to_oldest_position() {
    let mut bot = PioneerBot::new(false, false);
    assert_eq!(bot.backtrack((0, 0)), None);
    bot.on_ready((1, 1));
    bot.on_moved((1, 2));
    bot.on_moved((1, 3));
    assert_eq!(bot.backtrack((1, 3)), Some((1, 1)));
    assert_eq!(bot.destination(), Some((1, 1)));
    assert!(bot.was_recently_at((1, 3)));
    assert!(!bot.was_recently_at((1, 2)));
}

#[test]
fn exploring_heads_for_unpinned_landmark() {
    let mut bot = PioneerBot::new(false, false);
    bot.set_objective(Objective::Exploring);
    assert_eq!(bot.exploration_goal(), ExploreGoal::Landmarks);
    assert_eq!(bot.gathering_target(), None);
    bot.set_objective(Objective::Moving(true));
    bot.on_path_error(MoveError::AlreadyAtDestination, (2, 2));
    bot.set_objective(Objective::Exploring);
    let found = vec![(Content::Rock, (0, 1)), (Content::Market, (2, 2)), (Content::Bank, (6, 6))];
    assert!(bot.explore_step(&found));
    assert_eq!(bot.destination(), Some((6, 6)));
    assert_eq!(bot.objective(), Objective::Moving(true));
}

#[test]
fn exploring_for_resource_takes_first_find() {
    let mut bot = PioneerBot::new(false, false);
    bot.set_objective(Objective::Exploring);
    bot.set_next(Objective::Gathering(Content::Tree));
    assert_eq!(bot.exploration_goal(), ExploreGoal::Resource(Content::Tree));
    assert_eq!(bot.gathering_target(), Some(Content::Tree));
    assert!(!bot.explore_step(&vec![]));
    assert_eq!(bot.objective(), Objective::Exploring);
    assert!(!bot.explore_step(&vec![(Content::Rock, (2, 2))]));
    assert_eq!(bot.objective(), Objective::Exploring);
    assert!(bot.explore_step(&vec![(Content::Rock, (2, 2)), (Content::Tree, (3, 1)), (Content::Tree, (4, 1))]));
    assert_eq!(bot.destination(), Some((3, 1)));
    assert_eq!(bot.objective(), Objective::Moving(false));
    bot.head_to((9, 9));
    assert_eq!(bot.destination(), Some((9, 9)));
    assert_eq!(bot.objective(), Objective::Moving(false));
}

#[test]
fn idle_ends_game_or_moves_on() {
    let mut bot = PioneerBot::new(false, false);
    bot.sell_step(Content::Rock, 2, TradeOutcome::Traded(1, Some((1, 1)), None));
    assert_eq!(bot.active_trade_kinds(&vec![(1, 1)], &vec![(2, 2)]), 1);
    assert_eq!(bot.active_trade_kinds(&vec![(1, 1), (5, 5)], &vec![(2, 2)]), 2);
    assert_eq!(bot.active_trade_kinds(&vec![], &vec![]), 0);

    bot.set_objective(Objective::Idle);
    bot.set_next(Objective::Idle);
    assert!(!bot.idle_step(12, 4, 0));
    assert_eq!(bot.objective(), Objective::Praying);
    bot.set_objective(Objective::Idle);
    bot.set_next(Objective::Exploring);
    assert!(!bot.idle_step(13, 4, 2));
    assert_eq!(bot.objective(), Objective::Exploring);
    assert!(bot.is_running());
    assert!(bot.idle_step(13, 4, 1));
    assert!(!bot.is_running());
}

#[test]
fn terminate_stops_the_run() {
    let mut bot = PioneerBot::new(false, false);
    bot.terminate();
    assert!(!bot.is_running());
}
