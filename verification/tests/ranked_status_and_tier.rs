use cs2kz::ranked_status::{InvalidRankedStatus, RankedStatus};
use cs2kz::tier::{InvalidTier, Tier};

#[test]
fn ranked_status_names_and_integers() {
    assert_eq!(RankedStatus::Never.api(), "never");
    assert_eq!(RankedStatus::Unranked.api(), "unranked");
    assert_eq!(RankedStatus::Ranked.api(), "ranked");
    assert_eq!(RankedStatus::Never.display_name(), "Never");
    assert_eq!(RankedStatus::Never.as_i8(), -1);
    assert_eq!(i8::from(RankedStatus::Unranked), 0);
    assert_eq!(RankedStatus::Ranked.serialize_int(), 1);
    assert_eq!(RankedStatus::Ranked.serialize_api(), "ranked");
}

#[test]
fn ranked_status_from_integers() {
    assert_eq!(RankedStatus::try_from(-1_i8), Ok(RankedStatus::Never));
    assert_eq!(RankedStatus::try_from_i8(1), Ok(RankedStatus::Ranked));
    assert_eq!(RankedStatus::try_from_i8(2), Err(InvalidRankedStatus));
    assert_eq!(RankedStatus::deserialize_int(0), Ok(RankedStatus::Unranked));
    assert_eq!(RankedStatus::deserialize_int(-2), Err(InvalidRankedStatus));
}

#[test]
fn ranked_status_parse_reads_integers_then_names() {
    assert_eq!("-1".parse::<RankedStatus>(), Ok(RankedStatus::Never));
    assert_eq!(RankedStatus::parse("+1"), Ok(RankedStatus::Ranked));
    assert_eq!(RankedStatus::parse("ranked"), Ok(RankedStatus::Ranked));
    assert_eq!(RankedStatus::parse("unranked"), Ok(RankedStatus::Unranked));
    assert_eq!(RankedStatus::parse("5"), Err(InvalidRankedStatus));
    assert_eq!(RankedStatus::parse("300"), Err(InvalidRankedStatus));
    assert_eq!(RankedStatus::parse("Ranked"), Err(InvalidRankedStatus));
    assert_eq!(RankedStatus::parse(""), Err(InvalidRankedStatus));
    assert_eq!(RankedStatus::deserialize_api("never"), Ok(RankedStatus::Never));
    assert_eq!(RankedStatus::deserialize_api("-1"), Err(InvalidRankedStatus));
}

#[test]
fn ranked_status_round_trips() {
    for status in [RankedStatus::Never, RankedStatus::Unranked, RankedStatus::Ranked] {
        assert_eq!(RankedStatus::parse(status.api()), Ok(status));
        assert_eq!(RankedStatus::try_from_i8(status.as_i8()), Ok(status));
    }
}

#[test]
fn tier_names_and_integers() {
    assert_eq!(Tier::VeryEasy.api(), "very_easy");
    assert_eq!(Tier::VeryHard.display_name(), "Very Hard");
    assert_eq!(Tier::Impossible.as_u8(), 10);
    assert_eq!(u8::from(Tier::Death), 8);
    assert_eq!(Tier::Hard.serialize_int(), 5);
    assert_eq!(Tier::Extreme.serialize_api(), "extreme");
}

#[test]
fn tier_parse_and_conversions() {
    assert_eq!("1".parse::<Tier>(), Ok(Tier::VeryEasy));
    assert_eq!(Tier::parse("10"), Ok(Tier::Impossible));
    assert_eq!(Tier::parse("0"), Err(InvalidTier));
    assert_eq!(Tier::parse("11"), Err(InvalidTier));
    assert_eq!(Tier::parse("256"), Err(InvalidTier));
    assert_eq!(Tier::parse("very easy"), Ok(Tier::VeryEasy));
    assert_eq!(Tier::parse("very_hard"), Ok(Tier::VeryHard));
    assert_eq!(Tier::parse("Very Hard"), Err(InvalidTier));
    assert_eq!(Tier::try_from(9_u8), Ok(Tier::Unfeasible));
    assert_eq!(Tier::deserialize_int(0), Err(InvalidTier));
    assert_eq!(Tier::deserialize_api("very hard"), Ok(Tier::VeryHard));
    assert_eq!(Tier::deserialize_api("3"), Err(InvalidTier));
}

#[test]
fn tier_round_trips() {
    let all = [
        Tier::VeryEasy,
        Tier::Easy,
        Tier::Medium,
        Tier::Advanced,
        Tier::Hard,
        Tier::VeryHard,
        Tier::Extreme,
        Tier::Death,
        Tier::Unfeasible,
        Tier::Impossible,
    ];
    for (i, tier) in all.iter().enumerate() {
        assert_eq!(tier.as_u8() as usize, i + 1);
        assert_eq!(Tier::parse(tier.api()), Ok(*tier));
        assert_eq!(Tier::try_from_u8(tier.as_u8()), Ok(*tier));
    }
    assert!(Tier::VeryEasy < Tier::Impossible);
}
