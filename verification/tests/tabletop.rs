use rpg_core::tabletop::{
    carrying_capacity, modifier, move_capacity, passive_score, point_buy_attempt_decrease,
    point_buy_attempt_increase, point_buy_cost, skill_stat, AdvantageStatus, Alignment, Class,
    FromStringError, Race, Size, Skill, Stat, NUMBER_OF_STATS, POINT_BUY_MAX, POINT_BUY_MIN,
    POINT_BUY_POINTS,
};

#[test]
fn test_modifier() {
    assert_eq!(modifier(1), -5);
    assert_eq!(modifier(2), -4);
    assert_eq!(modifier(3), -4);
    assert_eq!(modifier(4), -3);
    assert_eq!(modifier(5), -3);
    assert_eq!(modifier(6), -2);
    assert_eq!(modifier(7), -2);
    assert_eq!(modifier(8), -1);
    assert_eq!(modifier(9), -1);
    assert_eq!(modifier(10), 0);
    assert_eq!(modifier(11), 0);
    assert_eq!(modifier(12), 1);
    assert_eq!(modifier(13), 1);
    assert_eq!(modifier(14), 2);
    assert_eq!(modifier(15), 2);
    assert_eq!(modifier(16), 3);
    assert_eq!(modifier(17), 3);
    assert_eq!(modifier(18), 4);
    assert_eq!(modifier(19), 4);
    assert_eq!(modifier(20), 5);
    assert_eq!(modifier(21), 5);
    assert_eq!(modifier(22), 6);
    assert_eq!(modifier(23), 6);
    assert_eq!(modifier(24), 7);
    assert_eq!(modifier(25), 7);
    assert_eq!(modifier(26), 8);
    assert_eq!(modifier(27), 8);
    assert_eq!(modifier(28), 9);
    assert_eq!(modifier(29), 9);
    assert_eq!(modifier(30), 10);
}

#[test]
fn test_passive_score() {
    assert_eq!(passive_score(0, AdvantageStatus::Normal), 10);
    assert_eq!(passive_score(1, AdvantageStatus::Normal), 11);
    assert_eq!(passive_score(0, AdvantageStatus::Advantage), 15);
    assert_eq!(passive_score(0, AdvantageStatus::Disadvantage), 5);
    assert_eq!(passive_score(-1, AdvantageStatus::Normal), 9);
    assert_eq!(passive_score(0, AdvantageStatus::Disadvantage), 5);
    assert_eq!(passive_score(-5, AdvantageStatus::Disadvantage), 0);
    assert_eq!(passive_score(10, AdvantageStatus::Advantage), 25);
}

#[test]
fn test_carrying_capacity() {
    assert_eq!(carrying_capacity(1, Size::Tiny), 7);
    assert_eq!(carrying_capacity(3, Size::Tiny), 22);
    assert_eq!(carrying_capacity(10, Size::Tiny), 75);
    assert_eq!(carrying_capacity(15, Size::Tiny), 112);
    assert_eq!(carrying_capacity(20, Size::Tiny), 150);
    assert_eq!(carrying_capacity(30, Size::Tiny), 225);

    assert_eq!(carrying_capacity(1, Size::Small), 15);
    assert_eq!(carrying_capacity(3, Size::Small), 45);
    assert_eq!(carrying_capacity(10, Size::Small), 150);
    assert_eq!(carrying_capacity(15, Size::Small), 225);
    assert_eq!(carrying_capacity(20, Size::Small), 300);
    assert_eq!(carrying_capacity(30, Size::Small), 450);

    assert_eq!(carrying_capacity(1, Size::Medium), 15);
    assert_eq!(carrying_capacity(3, Size::Medium), 45);
    assert_eq!(carrying_capacity(10, Size::Medium), 150);
    assert_eq!(carrying_capacity(15, Size::Medium), 225);
    assert_eq!(carrying_capacity(20, Size::Medium), 300);
    assert_eq!(carrying_capacity(30, Size::Medium), 450);

    assert_eq!(carrying_capacity(1, Size::Large), 30);
    assert_eq!(carrying_capacity(3, Size::Large), 90);
    assert_eq!(carrying_capacity(10, Size::Large), 300);
    assert_eq!(carrying_capacity(15, Size::Large), 450);
    assert_eq!(carrying_capacity(20, Size::Large), 600);
    assert_eq!(carrying_capacity(30, Size::Large), 900);

    assert_eq!(carrying_capacity(1, Size::Huge), 60);
    assert_eq!(carrying_capacity(3, Size::Huge), 180);
    assert_eq!(carrying_capacity(10, Size::Huge), 600);
    assert_eq!(carrying_capacity(15, Size::Huge), 900);
    assert_eq!(carrying_capacity(20, Size::Huge), 1200);
    assert_eq!(carrying_capacity(30, Size::Huge), 1800);

    assert_eq!(carrying_capacity(1, Size::Gargantuan), 120);
    assert_eq!(carrying_capacity(3, Size::Gargantuan), 360);
    assert_eq!(carrying_capacity(10, Size::Gargantuan), 1200);
    assert_eq!(carrying_capacity(15, Size::Gargantuan), 1800);
    assert_eq!(carrying_capacity(20, Size::Gargantuan), 2400);
    assert_eq!(carrying_capacity(30, Size::Gargantuan), 3600);

}

#[test]
fn test_move_capacity() {
    assert_eq!(move_capacity(1, Size::Tiny), 15);
    assert_eq!(move_capacity(3, Size::Tiny), 45);
    assert_eq!(move_capacity(10, Size::Tiny), 150);
    assert_eq!(move_capacity(15, Size::Tiny), 225);
    assert_eq!(move_capacity(20, Size::Tiny), 300);
    assert_eq!(move_capacity(30, Size::Tiny), 450);

    assert_eq!(move_capacity(1, Size::Small), 30);
    assert_eq!(move_capacity(3, Size::Small), 90);
    assert_eq!(move_capacity(10, Size::Small), 300);
    assert_eq!(move_capacity(15, Size::Small), 450);
    assert_eq!(move_capacity(20, Size::Small), 600);
    assert_eq!(move_capacity(30, Size::Small), 900);

    assert_eq!(move_capacity(1, Size::Medium), 30);
    assert_eq!(move_capacity(3, Size::Medium), 90);
    assert_eq!(move_capacity(10, Size::Medium), 300);
    assert_eq!(move_capacity(15, Size::Medium), 450);
    assert_eq!(move_capacity(20, Size::Medium), 600);
    assert_eq!(move_capacity(30, Size::Medium), 900);

    assert_eq!(move_capacity(1, Size::Large), 60);
    assert_eq!(move_capacity(3, Size::Large), 180);
    assert_eq!(move_capacity(10, Size::Large), 600);
    assert_eq!(move_capacity(15, Size::Large), 900);
    assert_eq!(move_capacity(20, Size::Large), 1200);
    assert_eq!(move_capacity(30, Size::Large), 1800);

    assert_eq!(move_capacity(1, Size::Huge), 120);
    assert_eq!(move_capacity(3, Size::Huge), 360);
    assert_eq!(move_capacity(10, Size::Huge), 1200);
    assert_eq!(move_capacity(15, Size::Huge), 1800);
    assert_eq!(move_capacity(20, Size::Huge), 2400);
    assert_eq!(move_capacity(30, Size::Huge), 3600);

    assert_eq!(move_capacity(1, Size::Gargantuan), 240);
    assert_eq!(move_capacity(3, Size::Gargantuan), 720);
    assert_eq!(move_capacity(10, Size::Gargantuan), 2400);
    assert_eq!(move_capacity(15, Size::Gargantuan), 3600);
    assert_eq!(move_capacity(20, Size::Gargantuan), 4800);
    assert_eq!(move_capacity(30, Size::Gargantuan), 7200);

}

#[test]
fn modifier_reads_high_scores_as_signed_bytes() {
    assert_eq!(modifier(0), -5);
    assert_eq!(modifier(127), 58);
    assert_eq!(modifier(128), -69);
    assert_eq!(modifier(200), -33);
    assert_eq!(modifier(254), -6);
    assert_eq!(modifier(255), -5);
}

#[test]
fn passive_score_at_the_ends_of_its_range() {
    assert_eq!(passive_score(112, AdvantageStatus::Advantage), 127);
    assert_eq!(passive_score(117, AdvantageStatus::Normal), 127);
    assert_eq!(passive_score(117, AdvantageStatus::Disadvantage), 122);
    assert_eq!(passive_score(-128, AdvantageStatus::Disadvantage), -123);
}

#[test]
fn capacities_of_the_strongest_and_the_weakest() {
    assert_eq!(carrying_capacity(0, Size::Gargantuan), 0);
    assert_eq!(carrying_capacity(255, Size::Tiny), 1912);
    assert_eq!(carrying_capacity(255, Size::Gargantuan), 30600);
    assert_eq!(move_capacity(255, Size::Gargantuan), 61200);
    assert_eq!(move_capacity(0, Size::Tiny), 0);
}

#[test]
fn point_buy_costs_two_from_fourteen() {
    assert_eq!(point_buy_cost(8), 1);
    assert_eq!(point_buy_cost(13), 1);
    assert_eq!(point_buy_cost(14), 2);
    assert_eq!(point_buy_cost(15), 2);
    assert_eq!(POINT_BUY_MIN, 8);
    assert_eq!(POINT_BUY_MAX, 15);
    assert_eq!(POINT_BUY_POINTS, 27);
    assert_eq!(NUMBER_OF_STATS, 6);
}

#[test]
fn point_buy_increase_pays_for_the_next_value() {
    let mut stat: u8 = 8;
    let mut points: u8 = 27;
    point_buy_attempt_increase(&mut stat, &mut points);
    assert_eq!((stat, points), (9, 26));
    let mut stat: u8 = 13;
    let mut points: u8 = 5;
    point_buy_attempt_increase(&mut stat, &mut points);
    assert_eq!((stat, points), (14, 3));
    point_buy_attempt_increase(&mut stat, &mut points);
    assert_eq!((stat, points), (15, 1));
}

#[test]
fn point_buy_increase_stops_at_the_maximum_and_without_points() {
    let mut stat: u8 = 15;
    let mut points: u8 = 10;
    point_buy_attempt_increase(&mut stat, &mut points);
    assert_eq!((stat, points), (15, 10));
    let mut stat: u8 = 13;
    let mut points: u8 = 1;
    point_buy_attempt_increase(&mut stat, &mut points);
    assert_eq!((stat, points), (13, 1));
    let mut stat: u8 = 10;
    let mut points: u8 = 0;
    point_buy_attempt_increase(&mut stat, &mut points);
    assert_eq!((stat, points), (10, 0));
}

#[test]
fn point_buy_decrease_gives_the_cost_back() {
    let mut stat: u8 = 15;
    let mut points: u8 = 0;
    point_buy_attempt_decrease(&mut stat, &mut points);
    assert_eq!((stat, points), (14, 2));
    point_buy_attempt_decrease(&mut stat, &mut points);
    assert_eq!((stat, points), (13, 4));
    point_buy_attempt_decrease(&mut stat, &mut points);
    assert_eq!((stat, points), (12, 5));
}

#[test]
fn point_buy_decrease_stops_at_the_minimum() {
    let mut stat: u8 = 8;
    let mut points: u8 = 255;
    point_buy_attempt_decrease(&mut stat, &mut points);
    assert_eq!((stat, points), (8, 255));
    let mut stat: u8 = 0;
    let mut points: u8 = 3;
    point_buy_attempt_decrease(&mut stat, &mut points);
    assert_eq!((stat, points), (0, 3));
}

#[test]
fn point_buy_increase_then_decrease_is_where_it_began() {
    let mut value: u8 = 8;
    while value < 15 {
        let mut stat: u8 = value;
        let mut points: u8 = 27;
        point_buy_attempt_increase(&mut stat, &mut points);
        point_buy_attempt_decrease(&mut stat, &mut points);
        assert_eq!((stat, points), (value, 27));
        value += 1;
    }
}

#[test]
fn skills_are_checked_against_their_abilities() {
    assert_eq!(skill_stat(Skill::Acrobatics), Stat::Dexterity);
    assert_eq!(skill_stat(Skill::AnimalHandling), Stat::Wisdom);
    assert_eq!(skill_stat(Skill::Arcana), Stat::Intelligence);
    assert_eq!(skill_stat(Skill::Athletics), Stat::Strength);
    assert_eq!(skill_stat(Skill::Deception), Stat::Charisma);
    assert_eq!(skill_stat(Skill::Stealth), Stat::Dexterity);
    assert_eq!(skill_stat(Skill::Survival), Stat::Wisdom);
}

#[test]
fn alignment_names_parse_back() {
    let all = Alignment::all();
    assert_eq!(all.len(), 9);
    for alignment in all {
        assert_eq!(Alignment::from_str(&alignment.to_string()), Ok(alignment));
    }
    assert_eq!(Alignment::NeutralGood.to_string(), "Neutral Good");
    assert_eq!(Alignment::from_str("Chaotic Neutral"), Ok(Alignment::ChaoticNeutral));
}

#[test]
fn class_names_parse_back() {
    let all = Class::all();
    assert_eq!(all.len(), 12);
    for class in all {
        assert_eq!(Class::from_str(&class.to_string()), Ok(class));
    }
    assert_eq!(Class::names()[4], "Fighter");
    assert_eq!(Class::names().len(), 12);
}

#[test]
fn race_names_parse_back() {
    let all = Race::all();
    assert_eq!(all.len(), 9);
    for race in all {
        assert_eq!(Race::from_str(&race.to_string()), Ok(race));
    }
    assert_eq!(Race::HalfElf.to_string(), "Half Elf");
    assert_eq!(Race::names()[5], "Half Orc");
    assert_eq!(Alignment::names()[6], "Neutral");
}

#[test]
fn unknown_names_are_errors() {
    assert_eq!(Alignment::from_str("neutral"), Err(FromStringError));
    assert_eq!(Alignment::from_str(""), Err(FromStringError));
    assert_eq!(Class::from_str("Bard "), Err(FromStringError));
    assert_eq!(Class::from_str("Barbarian"), Ok(Class::Barbarian));
    assert_eq!(Race::from_str("HalfElf"), Err(FromStringError));
    assert_eq!(Race::from_str("Half Elf"), Ok(Race::HalfElf));
}
